//! The release on command: what the application's command to release the
//! primary source's pads does once everything else is ready.

use crate::action::{lemma_add_contains, lemma_push_contains, Action};
use crate::state::{SourceBin, State};
use crate::supervisor::{unschedule, FallbackSrc, Step};
use crate::types::{Observation, StreamKind};
use crate::unblock::{
    lane_of, release_actions, spec_release_offset, spec_unblock_decision, unblock_actions,
    unblock_gates_open, unblock_state,
};
use crate::watch::{fallback_activated, may_watch};
use vstd::prelude::*;

verus! {

/// Whether one state is another but for the timers of the primary source,
/// the application's hold and the mark for a restart timeout at release.
pub open spec fn differs_in_watching_only(a: State, b: State) -> bool {
    b == (State {
        source: SourceBin { restart_timeout: b.source.restart_timeout, ..a.source },
        manually_blocked: b.manually_blocked,
        ..a
    })
}

/// Whether every kind of the primary source that has to be released is
/// released already: it has no block.
pub open spec fn nothing_to_release(state: State) -> bool {
    forall|kind: StreamKind|
        state.source.spec_has(kind) && state.settings.spec_enabled(kind)
            ==> #[trigger] state.block_of(kind, false) is None
}

/// What is armed before the pads are released on command: a restart
/// timeout, if the source was marked for it and the fallback is activated.
pub open spec fn armed_at_release(supervisor: FallbackSrc, obs: Observation) -> Step {
    let state = supervisor.state->0;
    let released = supervisor.with_state(State { manually_blocked: false, ..state });
    if state.schedule_restart_on_unblock && fallback_activated(state, obs) {
        released.schedule_step(0, false)
    } else {
        released.stay()
    }
}

/// The synchroniser does not look at the timers of the primary source, nor
/// at the application's hold once the gates are open.
proof fn lemma_release_ignores_watching(a: State, b: State, obs: Observation)
    requires
        differs_in_watching_only(a, b),
    ensures
        lane_of(a, StreamKind::Audio, false, obs) == lane_of(b, StreamKind::Audio, false, obs),
        lane_of(a, StreamKind::Video, false, obs) == lane_of(b, StreamKind::Video, false, obs),
        unblock_actions(a, false, obs) == unblock_actions(b, false, obs),
        a.block_of(StreamKind::Audio, false) == b.block_of(StreamKind::Audio, false),
        a.block_of(StreamKind::Video, false) == b.block_of(StreamKind::Video, false),
        nothing_to_release(a) == nothing_to_release(b),
{
    a.lemma_source_of(false);
    b.lemma_source_of(false);
    a.lemma_branch_and_block(StreamKind::Audio, false);
    b.lemma_branch_and_block(StreamKind::Audio, false);
    a.lemma_branch_and_block(StreamKind::Video, false);
    b.lemma_branch_and_block(StreamKind::Video, false);
    assert(a.block_of(StreamKind::Audio, false) == b.block_of(StreamKind::Audio, false));
    assert(a.block_of(StreamKind::Video, false) == b.block_of(StreamKind::Video, false));
    assert(lane_of(a, StreamKind::Audio, false, obs) == lane_of(b, StreamKind::Audio, false, obs));
    assert(lane_of(a, StreamKind::Video, false, obs) == lane_of(b, StreamKind::Video, false, obs));
    assert(nothing_to_release(a) == nothing_to_release(b)) by {
        if nothing_to_release(a) {
            assert forall|kind: StreamKind|
                b.source.spec_has(kind) && b.settings.spec_enabled(kind) implies #[trigger] b.block_of(
                kind,
                false,
            ) is None by {
                assert(a.block_of(kind, false) is None);
                match kind {
                    StreamKind::Audio => {},
                    StreamKind::Video => {},
                }
            }
        }
        if nothing_to_release(b) {
            assert forall|kind: StreamKind|
                a.source.spec_has(kind) && a.settings.spec_enabled(kind) implies #[trigger] a.block_of(
                kind,
                false,
            ) is None by {
                assert(b.block_of(kind, false) is None);
                match kind {
                    StreamKind::Audio => {},
                    StreamKind::Video => {},
                }
            }
        }
    }
}

/// Where nothing is left to release, releasing does nothing.
proof fn lemma_nothing_to_release(supervisor: FallbackSrc, obs: Observation)
    requires
        supervisor.state is Some,
        nothing_to_release(supervisor.state->0),
    ensures
        supervisor.unblock_step(false, obs) == supervisor.stay(),
{
    let state = supervisor.state->0;
    state.lemma_source_of(false);
    let audio = lane_of(state, StreamKind::Audio, false, obs);
    let video = lane_of(state, StreamKind::Video, false, obs);
    assert(audio.needed ==> state.block_of(StreamKind::Audio, false) is None);
    assert(video.needed ==> state.block_of(StreamKind::Video, false) is None);
    state.lemma_with_block(StreamKind::Audio, false, None);
    state.lemma_with_block(StreamKind::Video, false, None);
    assert(unblock_state(state, false, obs) == state);
    assert(unblock_actions(state, false, obs) == Seq::<Action>::empty());
}

/// After a release, nothing is left to release.
proof fn lemma_released(state: State, obs: Observation)
    requires
        spec_unblock_decision(
            lane_of(state, StreamKind::Audio, false, obs),
            lane_of(state, StreamKind::Video, false, obs),
        ) is Release,
    ensures
        nothing_to_release(unblock_state(state, false, obs)),
        lane_of(state, StreamKind::Audio, false, obs).needed ==> unblock_state(
            state,
            false,
            obs,
        ).block_of(StreamKind::Audio, false) is None,
        lane_of(state, StreamKind::Video, false, obs).needed ==> unblock_state(
            state,
            false,
            obs,
        ).block_of(StreamKind::Video, false) is None,
        unblock_state(state, false, obs).source == state.source,
        unblock_state(state, false, obs).settings == state.settings,
        unblock_state(state, false, obs).manually_blocked == state.manually_blocked,
{
    let audio = lane_of(state, StreamKind::Audio, false, obs);
    let video = lane_of(state, StreamKind::Video, false, obs);
    let first = if audio.needed {
        state.with_block(StreamKind::Audio, false, None)
    } else {
        state
    };
    let after = if video.needed {
        first.with_block(StreamKind::Video, false, None)
    } else {
        first
    };
    assert(after == unblock_state(state, false, obs));
    state.lemma_source_of(false);
    state.lemma_with_block(StreamKind::Audio, false, None);
    first.lemma_with_block(StreamKind::Video, false, None);
    state.lemma_branch_and_block(StreamKind::Audio, false);
    first.lemma_branch_and_block(StreamKind::Audio, false);
    first.lemma_branch_and_block(StreamKind::Video, false);
    after.lemma_branch_and_block(StreamKind::Audio, false);
    after.lemma_branch_and_block(StreamKind::Video, false);
    assert(audio.needed ==> first.block_of(StreamKind::Audio, false) is None);
    assert(audio.needed ==> after.block_of(StreamKind::Audio, false) is None);
    assert(video.needed ==> after.block_of(StreamKind::Video, false) is None);
    assert(after.source == state.source);
    assert(after.settings == state.settings);
    assert forall|kind: StreamKind|
        after.source.spec_has(kind) && after.settings.spec_enabled(kind) implies #[trigger] after.block_of(
        kind,
        false,
    ) is None by {
        match kind {
            StreamKind::Audio => {
                assert(audio.needed);
            },
            StreamKind::Video => {
                assert(video.needed);
            },
        }
    }
}

/// Arming a restart timeout asks for nothing that touches a pad.
proof fn lemma_arming_touches_no_pad(supervisor: FallbackSrc, wanted: Action)
    requires
        wanted is SetPadOffset || wanted is RemovePadProbe,
    ensures
        !supervisor.schedule_step(0, false).actions.contains(wanted),
{
    if supervisor.state is Some && may_watch(supervisor.state->0, false) {
        let first = unschedule(supervisor.state->0.source.restart_timeout);
        if first.contains(wanted) {
            let i = choose|i: int| 0 <= i < first.len() && first[i] == wanted;
            assert(first[i] is UnscheduleTimer);
        }
        lemma_push_contains(first, supervisor.schedule_step(0, false).actions.last(), wanted);
    }
}

/// The application's command releases what it has held back. For a
/// primary source of a running supervisor whose pads can go but for the
/// application's hold (the pipeline has a running time, the buffers are
/// full, the streams are announced and the synchroniser decides to
/// release):
///
/// - while the application holds the source, `unblock_pads` does nothing;
/// - the command takes the hold away;
/// - its commands are the arming of the restart timeout, if one is due,
///   and then the release of each needed kind, audio first: one offset for
///   all pads, the pipeline's running time less the target, set on each
///   blocked pad that has not ended, and the removal of each probe;
/// - the blocks of the needed kinds are gone afterwards;
/// - after that, releasing again does nothing, whatever the pipeline
///   shows, and a second command sets no offset and removes no probe.
pub proof fn law_unblock_command_releases(
    supervisor: FallbackSrc,
    obs: Observation,
    later: Observation,
    wanted: Action,
)
    requires
        supervisor.state is Some,
        obs.current_running_time is Some,
        supervisor.state->0.stats.buffering_percent >= 100,
        supervisor.state->0.source.streams is Some,
        spec_unblock_decision(
            lane_of(supervisor.state->0, StreamKind::Audio, false, obs),
            lane_of(supervisor.state->0, StreamKind::Video, false, obs),
        ) is Release,
        wanted is SetPadOffset || wanted is RemovePadProbe,
    ensures
        ({
            let state = supervisor.state->0;
            let audio = lane_of(state, StreamKind::Audio, false, obs);
            let video = lane_of(state, StreamKind::Video, false, obs);
            let target = spec_unblock_decision(audio, video)->target;
            let offset = spec_release_offset(obs.current_running_time, target);
            let step = supervisor.unblock_signal_step(obs);
            &&& state.manually_blocked ==> supervisor.unblock_step(false, obs) == supervisor.stay()
            &&& step.next.state is Some
            &&& !step.next.state->0.manually_blocked
            &&& step.actions == armed_at_release(supervisor, obs).actions + ((if audio.needed {
                release_actions(state, StreamKind::Audio, false, offset, audio.is_eos)
            } else {
                Seq::empty()
            }) + (if video.needed {
                release_actions(state, StreamKind::Video, false, offset, video.is_eos)
            } else {
                Seq::empty()
            }))
            &&& audio.needed ==> step.next.state->0.block_of(StreamKind::Audio, false) is None
            &&& video.needed ==> step.next.state->0.block_of(StreamKind::Video, false) is None
            &&& step.next.unblock_step(false, later) == step.next.stay()
            &&& !step.next.unblock_signal_step(later).actions.contains(wanted)
        }),
{
    let state = supervisor.state->0;
    let armed = armed_at_release(supervisor, obs);
    let watched = armed.next.state->0;
    state.lemma_source_of(false);
    watched.lemma_source_of(false);
    // The synchroniser sees the same before and after the arming.
    lemma_release_ignores_watching(state, watched, obs);
    assert(unblock_gates_open(watched, false, obs));
    let step = supervisor.unblock_signal_step(obs);
    assert(step.actions == armed.actions + unblock_actions(watched, false, obs));
    assert(step.next.state == Some(unblock_state(watched, false, obs)));
    // Afterwards nothing is left to release.
    lemma_released(watched, obs);
    let after = step.next.state->0;
    lemma_nothing_to_release(step.next, later);
    // A second command arms at most a timer and finds nothing to release.
    let again = armed_at_release(step.next, later);
    let watched_again = again.next.state->0;
    lemma_release_ignores_watching(after, watched_again, later);
    lemma_nothing_to_release(again.next, later);
    lemma_arming_touches_no_pad(
        step.next.with_state(State { manually_blocked: false, ..after }),
        wanted,
    );
    let second = step.next.unblock_signal_step(later);
    assert(second.actions == again.actions + Seq::<Action>::empty());
    lemma_add_contains(again.actions, Seq::<Action>::empty(), wanted);
}

} // verus!
