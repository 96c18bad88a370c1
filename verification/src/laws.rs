//! What holds of the supervisor across calls, proved over the same step
//! functions that the contracts of the entry points use.

use crate::action::{lemma_add_contains, lemma_push_contains, Action};
use crate::pads::kind_of_pad;
use crate::restart::{lemma_without_blocks, remove_probes, restart_wanted};
use crate::state::{Block, State};
use crate::supervisor::{
    lemma_stop_contains, remove_source_actions, unschedule, FallbackSrc, Step,
};
use crate::time::{spec_remaining, SECOND};
use crate::types::{
    spec_count_up, Observation, PadId, RetryReason, StateChange, StreamKind, TimerId,
};
use crate::unblock::{
    lane_of, spec_least, spec_unblock_decision, unblock_actions, unblock_gates_open,
    unblock_state, Lane, Unblock,
};
use crate::watch::{fallback_activated, may_watch};
use vstd::prelude::*;

verus! {

/// What a burst of error reports on one source does: each report is
/// handled in turn, and the commands add up.
pub open spec fn error_burst(
    start: FallbackSrc,
    reasons: Seq<RetryReason>,
    fallback_source: bool,
) -> Step
    decreases reasons.len(),
{
    if reasons.len() == 0 {
        start.stay()
    } else {
        let before = error_burst(start, reasons.drop_last(), fallback_source);
        let last = before.next.source_error_step(reasons.last(), fallback_source);
        Step { next: last.next, actions: before.actions + last.actions }
    }
}

/// The state in which the block of a branch has a running time.
pub open spec fn timed(
    state: State,
    kind: StreamKind,
    fallback_source: bool,
    running_time: Option<u64>,
) -> State {
    match state.block_of(kind, fallback_source) {
        Some(block) => state.with_block(
            kind,
            fallback_source,
            Some(Block { running_time, ..block }),
        ),
        None => state,
    }
}

/// A decision with audio and video exchanged.
pub open spec fn exchanged(decision: Unblock) -> Unblock {
    match decision {
        Unblock::Defer => Unblock::Defer,
        Unblock::Release { audio, video, target } => Unblock::Release {
            audio: video,
            video: audio,
            target,
        },
    }
}

/// Stopping is idempotent. A stop of a stopped supervisor changes nothing
/// and asks nothing of the host, so a second stop adds nothing to a first.
/// After a stop the supervisor is stopped and holds no timer, and every
/// timer that it held before is disarmed by the stop's commands.
pub proof fn law_stop_is_idempotent(supervisor: FallbackSrc)
    ensures
        supervisor.state is None ==> supervisor.stop_step() == supervisor.stay(),
        supervisor.stop_step().next.stop_step() == supervisor.stop_step().next.stay(),
        supervisor.stop_step().next.state is None,
        forall|timer: TimerId| !supervisor.stop_step().next.timer_armed(timer),
        forall|timer: TimerId| #[trigger]
            supervisor.timer_armed(timer) ==> supervisor.stop_step().actions.contains(
                Action::UnscheduleTimer { timer },
            ),
{
    assert forall|timer: TimerId| #[trigger] supervisor.timer_armed(timer) implies
        supervisor.stop_step().actions.contains(Action::UnscheduleTimer { timer }) by {
        let state = supervisor.state->0;
        let fallback_source = !state.source.holds_timer(timer);
        state.lemma_source_of(fallback_source);
        lemma_source_disarmed(state, fallback_source, timer);
        lemma_stop_contains(state, Action::UnscheduleTimer { timer });
    }
}

/// The commands that take down a source disarm each timer that the source
/// holds.
proof fn lemma_source_disarmed(state: State, fallback_source: bool, timer: TimerId)
    requires
        state.source_of(fallback_source) is Some,
        state.source_of(fallback_source)->0.holds_timer(timer),
    ensures
        remove_source_actions(state, fallback_source).contains(Action::UnscheduleTimer { timer }),
{
    let source = state.source_of(fallback_source)->0;
    let head = seq![Action::RemoveSource { fallback_source }];
    let a = unschedule(source.pending_restart_timeout);
    let b = unschedule(source.retry_timeout);
    let c = unschedule(source.restart_timeout);
    let wanted = Action::UnscheduleTimer { timer };
    if source.pending_restart_timeout == Some(timer) {
        assert(a[0] == wanted);
    } else if source.retry_timeout == Some(timer) {
        assert(b[0] == wanted);
    } else {
        assert(c[0] == wanted);
    }
    lemma_add_contains(head, a, wanted);
    lemma_add_contains(head + a, b, wanted);
    lemma_add_contains(head + a + b, c, wanted);
}

/// Error reports on one source collapse into one restart. Whatever the
/// reports of a burst are, the burst asks of the host what its first report
/// asks, and leaves the supervisor as the first report leaves it, but for
/// the reason noted, which is that of the last report. So the retry is
/// counted once, or not at all if a restart was pending before, and the
/// restart is pending afterwards.
pub proof fn law_single_restart_in_flight(
    start: FallbackSrc,
    reasons: Seq<RetryReason>,
    fallback_source: bool,
)
    requires
        start.state is Some,
        start.state->0.source_of(fallback_source) is Some,
        reasons.len() >= 1,
    ensures
        ({
            let first = start.source_error_step(reasons.first(), fallback_source);
            let burst = error_burst(start, reasons, fallback_source);
            &&& burst.actions == first.actions
            &&& burst.next == first.next.with_state(
                first.next.state->0.with_stats(
                    first.next.state->0.stats.with_last_reason(fallback_source, reasons.last()),
                ),
            )
            &&& burst.next.state->0.stats.last_reason(fallback_source) == reasons.last()
            &&& burst.next.state->0.source_of(fallback_source) is Some
            &&& burst.next.state->0.source_of(fallback_source)->0.pending_restart
            &&& burst.next.state->0.stats.retries(fallback_source) == if start.state->0.source_of(
                fallback_source,
            )->0.pending_restart {
                start.state->0.stats.retries(fallback_source)
            } else {
                spec_count_up(start.state->0.stats.retries(fallback_source))
            }
        }),
    decreases reasons.len(),
{
    State::lemma_accessors();
    crate::types::Stats::lemma_updates();
    if reasons.len() == 1 {
        assert(reasons.drop_last().len() == 0);
        let before = error_burst(start, reasons.drop_last(), fallback_source);
        assert(before == start.stay());
        let first = start.source_error_step(reasons.first(), fallback_source);
        assert(reasons.first() == reasons.last());
        assert(Seq::<Action>::empty() + first.actions == first.actions);
    } else {
        let shorter = reasons.drop_last();
        law_single_restart_in_flight(start, shorter, fallback_source);
        assert(shorter.first() == reasons.first());
        let first = start.source_error_step(reasons.first(), fallback_source);
        let before = error_burst(start, shorter, fallback_source);
        let last = before.next.source_error_step(reasons.last(), fallback_source);
        assert(last.actions == Seq::<Action>::empty());
        assert(before.actions + last.actions == before.actions);
    }
}

/// Releasing is idempotent. Once the pads of a source have been released,
/// or could not be, a second call under the same observation changes
/// nothing and asks nothing of the host.
pub proof fn law_unblock_is_idempotent(
    supervisor: FallbackSrc,
    fallback_source: bool,
    obs: Observation,
)
    ensures
        supervisor.unblock_step(fallback_source, obs).next.unblock_step(fallback_source, obs)
            == supervisor.unblock_step(fallback_source, obs).next.stay(),
{
    State::lemma_accessors();
    let once = supervisor.unblock_step(fallback_source, obs);
    if supervisor.state is Some && unblock_gates_open(supervisor.state->0, fallback_source, obs) {
        let state = supervisor.state->0;
        let after = unblock_state(state, fallback_source, obs);
        let audio = lane_of(state, StreamKind::Audio, fallback_source, obs);
        let video = lane_of(state, StreamKind::Video, fallback_source, obs);
        let audio_after = lane_of(after, StreamKind::Audio, fallback_source, obs);
        let video_after = lane_of(after, StreamKind::Video, fallback_source, obs);
        assert(unblock_gates_open(after, fallback_source, obs));
        match spec_unblock_decision(audio, video) {
            Unblock::Defer => {
                assert(after == state);
            },
            Unblock::Release { audio: release_audio, video: release_video, target } => {
                assert(release_audio ==> after.block_of(StreamKind::Audio, fallback_source)
                    is None);
                assert(release_video ==> after.block_of(StreamKind::Video, fallback_source)
                    is None);
                assert(audio_after.needed == audio.needed);
                assert(video_after.needed == video.needed);
                assert(unblock_state(after, fallback_source, obs) == after);
                assert(unblock_actions(after, fallback_source, obs) == Seq::<Action>::empty());
            },
        }
    }
}

/// The release does not depend on which kind is looked at first. With
/// audio and video exchanged, the synchroniser decides the same, at the
/// same running time.
pub proof fn law_unblock_decision_is_symmetric(audio: Lane, video: Lane)
    ensures
        spec_unblock_decision(video, audio) == exchanged(spec_unblock_decision(audio, video)),
        spec_least(audio.constraint(), video.constraint()) == spec_least(
            video.constraint(),
            audio.constraint(),
        ),
{
}

/// The release does not depend on the order in which the blocked pads
/// reported. Whether the audio pad's running time is noted before the
/// video pad's or after it, the state is the same, and so is what
/// `unblock_pads` then does, offset included.
pub proof fn law_unblock_ignores_report_order(
    supervisor: FallbackSrc,
    fallback_source: bool,
    audio_time: Option<u64>,
    video_time: Option<u64>,
    obs: Observation,
)
    requires
        supervisor.state is Some,
    ensures
        ({
            let state = supervisor.state->0;
            let audio_first = timed(
                timed(state, StreamKind::Audio, fallback_source, audio_time),
                StreamKind::Video,
                fallback_source,
                video_time,
            );
            let video_first = timed(
                timed(state, StreamKind::Video, fallback_source, video_time),
                StreamKind::Audio,
                fallback_source,
                audio_time,
            );
            &&& audio_first == video_first
            &&& supervisor.with_state(audio_first).unblock_step(fallback_source, obs)
                == supervisor.with_state(video_first).unblock_step(fallback_source, obs)
        }),
{
    State::lemma_accessors();
}

/// A still image has no end. An end-of-stream on the pad of a branch that
/// shows a still image is dropped, so that it reaches neither the switch
/// nor anything behind it; it changes nothing, restarts nothing and asks
/// nothing of the host, whether restarting at end-of-stream is configured
/// or not and whichever source the pad belongs to. And no restart timeout
/// is ever armed for a source that shows a still image.
pub proof fn law_still_image_is_exempt(
    supervisor: FallbackSrc,
    pad: PadId,
    fallback_source: bool,
    elapsed: u64,
)
    requires
        supervisor.state is Some,
    ensures
        ({
            let state = supervisor.state->0;
            let kind = kind_of_pad(state, pad, fallback_source);
            kind is Some && state.branch_of(kind->0, fallback_source)->0.is_image ==> {
                &&& supervisor.eos_dropped(pad, fallback_source)
                &&& !supervisor.eos_restarts(pad, fallback_source)
                &&& supervisor.eos_step(pad, fallback_source) == supervisor.stay()
            }
        }),
        supervisor.state->0.source.is_image ==> supervisor.schedule_step(elapsed, fallback_source)
            == supervisor.stay(),
{
}

/// An end-of-stream of a source is either dropped or passed on, never
/// both. Where it is dropped, no command sends an end-of-stream into a
/// switch. It is dropped exactly where the pad's branch shows a still image
/// or the end-of-stream restarts the source; only in the second case does
/// the supervisor change.
pub proof fn law_dropped_eos_goes_nowhere(
    supervisor: FallbackSrc,
    pad: PadId,
    fallback_source: bool,
    kind: StreamKind,
)
    requires
        supervisor.eos_dropped(pad, fallback_source),
    ensures
        !supervisor.eos_step(pad, fallback_source).actions.contains(
            Action::SendEosToSwitch { kind },
        ),
        !supervisor.eos_restarts(pad, fallback_source) ==> supervisor.eos_step(
            pad,
            fallback_source,
        ) == supervisor.stay(),
        supervisor.eos_restarts(pad, fallback_source) ==> supervisor.eos_step(
            pad,
            fallback_source,
        ).next == supervisor.source_error_step(RetryReason::Eos, fallback_source).next,
{
    let wanted = Action::SendEosToSwitch { kind };
    if supervisor.eos_restarts(pad, fallback_source) {
        let failed = supervisor.source_error_step(RetryReason::Eos, fallback_source);
        let state = supervisor.state->0;
        if state.source_of(fallback_source) is Some {
            let source = state.source_of(fallback_source)->0;
            if !source.pending_restart {
                let first = unschedule(source.restart_timeout);
                let second = first.push(Action::DropEos { fallback_source });
                lemma_push_contains(first, Action::DropEos { fallback_source }, wanted);
                lemma_push_contains(second, failed.actions.last(), wanted);
            }
        }
        lemma_push_contains(failed.actions, Action::NotifyStatistics, wanted);
    }
}

/// Switching to the fallback arms one restart timeout, and switching back
/// disarms it. For a primary source that may be watched and is not watched
/// yet: when the fallback becomes activated, exactly one timer is armed,
/// for the whole restart timeout; when another change of a selected input
/// leaves it activated, no further timer is armed; when it is no longer
/// activated, that timer is disarmed and none is armed any more.
pub proof fn law_fallback_toggles_restart_timeout(
    supervisor: FallbackSrc,
    to_fallback: Observation,
    again: Observation,
    to_main: Observation,
)
    requires
        supervisor.state is Some,
        may_watch(supervisor.state->0, false),
        supervisor.state->0.source.restart_timeout is None,
        supervisor.state->0.source.retry_timeout is None,
        fallback_activated(supervisor.state->0, to_fallback),
        fallback_activated(supervisor.state->0, again),
        !fallback_activated(supervisor.state->0, to_main),
    ensures
        ({
            let timer = TimerId(supervisor.next_handle);
            let armed = supervisor.active_pad_change_step(to_fallback);
            let twice = armed.next.active_pad_change_step(again);
            let back = armed.next.active_pad_change_step(to_main);
            &&& armed.actions == seq![
                Action::ScheduleTimer {
                    timer,
                    delay: supervisor.state->0.settings.restart_timeout,
                },
            ].push(Action::NotifyStatus)
            &&& armed.next.state->0.source.restart_timeout == Some(timer)
            &&& twice.actions == seq![Action::NotifyStatus]
            &&& twice.next == armed.next
            &&& back.actions == seq![Action::UnscheduleTimer { timer }].push(Action::NotifyStatus)
            &&& back.next.state->0.source.restart_timeout is None
            &&& back.next.state == supervisor.state
        }),
{
    let state = supervisor.state->0;
    let armed = supervisor.active_pad_change_step(to_fallback);
    assert(fallback_activated(armed.next.state->0, again));
    assert(!fallback_activated(armed.next.state->0, to_main));
    assert(spec_remaining(state.settings.restart_timeout, 0) == state.settings.restart_timeout);
    let back = armed.next.active_pad_change_step(to_main);
    assert(back.next.state->0.source == state.source);
    assert(back.next.state->0 == state);
}

/// A timer that the supervisor does not hold is ignored when it fires:
/// whatever was to happen has been called off.
pub proof fn law_stale_timer_is_ignored(
    supervisor: FallbackSrc,
    timer: TimerId,
    obs: Observation,
)
    requires
        !supervisor.timer_armed(timer),
    ensures
        supervisor.timeout_step(timer, obs) == supervisor.stay(),
{
}

/// While the restart of a source is pending, the source is not taken
/// upwards: a transition that does not go down changes nothing and asks
/// nothing of the host.
pub proof fn law_pending_restart_defers_state_changes(
    supervisor: FallbackSrc,
    transition: StateChange,
    fallback_source: bool,
)
    requires
        supervisor.state is Some,
        restart_wanted(supervisor.state->0, fallback_source),
        transition.spec_is_upward(),
    ensures
        supervisor.change_source_state_step(transition, fallback_source) == supervisor.stay(),
{
}

/// A restart runs from the failure to the source being back. For a source
/// whose restart is not pending yet: the failure makes it pending and
/// counts one retry; draining and cooling down arm the pause timer and no
/// other; when that timer fires, the restart is no longer pending, no
/// timer of the source is armed, and the host is asked to bring the source
/// to the state of its parent.
pub proof fn law_restart_runs_to_completion(
    supervisor: FallbackSrc,
    reason: RetryReason,
    fallback_source: bool,
    obs: Observation,
)
    requires
        supervisor.wf(),
        supervisor.state is Some,
        supervisor.state->0.source_of(fallback_source) is Some,
        !supervisor.state->0.source_of(fallback_source)->0.pending_restart,
        !supervisor.timer_armed(TimerId(supervisor.next_handle)),
    ensures
        ({
            let pause = TimerId(supervisor.next_handle);
            let failed = supervisor.source_error_step(reason, fallback_source);
            let drained = failed.next.drain_step(fallback_source);
            let cooling = drained.next.cool_down_step(fallback_source);
            let woken = cooling.next.timeout_step(pause, obs);
            &&& failed.next.state->0.stats.retries(fallback_source) == spec_count_up(
                supervisor.state->0.stats.retries(fallback_source),
            )
            &&& restart_wanted(failed.next.state->0, fallback_source)
            &&& restart_wanted(drained.next.state->0, fallback_source)
            &&& cooling.actions == seq![Action::ScheduleTimer { timer: pause, delay: SECOND }]
            &&& cooling.next.state->0.source_of(fallback_source)->0.pending_restart_timeout
                == Some(pause)
            &&& woken == cooling.next.restart_step(fallback_source)
            &&& woken.next.state->0.source_of(fallback_source) is Some
            &&& !woken.next.state->0.source_of(fallback_source)->0.pending_restart
            &&& woken.next.state->0.source_of(fallback_source)->0.restart_timeout is None
            &&& woken.next.state->0.source_of(fallback_source)->0.pending_restart_timeout is None
            &&& woken.actions.last() == Action::SyncSourceState { fallback_source }
            &&& woken.next.state->0.stats.retries(fallback_source) == spec_count_up(
                supervisor.state->0.stats.retries(fallback_source),
            )
        }),
{
    State::lemma_accessors();
    crate::types::Stats::lemma_updates();
    let state = supervisor.state->0;
    let failed = supervisor.source_error_step(reason, fallback_source);
    let drained = failed.next.drain_step(fallback_source);
    lemma_without_blocks(failed.next.state->0, fallback_source);
    let cooling = drained.next.cool_down_step(fallback_source);
    lemma_without_blocks(drained.next.state->0, fallback_source);
    assert(remove_probes(drained.next.state->0, fallback_source) == Seq::<Action>::empty());
}

} // verus!
