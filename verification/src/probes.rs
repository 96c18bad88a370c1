//! Probe accounting: the supervisor never lets go of a block without
//! telling the host to remove its probe, so that no pad stays blocked
//! behind the supervisor's back.

use crate::action::{lemma_add_contains, Action};
use crate::messages::{spec_attribute, spec_attribute_error};
use crate::lifecycle::{marked, spec_live_after};
use crate::pads::{kind_of_pad, kind_of_probe, with_image, BlockSample};
use crate::restart::{
    remove_probe, remove_probes, restart_wanted, without_blocks, without_timers,
};
use crate::state::{Block, SourceBin, State, Stream};
use crate::supervisor::{
    lemma_stop_contains, remove_branch_actions, remove_stream_actions, stop_actions,
    FallbackSrc, Step,
};
use crate::timeout::buffering_elapsed;
use crate::transition::Transition;
use crate::types::{
    Observation, Origin, PadId, ProbeId, RetryReason, StateChange, StateChangeSuccess,
    StreamCollection, StreamKind, StreamType, TimerId,
};
use crate::unblock::{
    lane_of, release_actions, spec_release_offset, spec_unblock_decision, unblock_gates_open,
    Unblock,
};
use crate::watch::{fallback_activated, with_restart_timeout};
use vstd::prelude::*;

verus! {

/// The command that removes a probe.
pub open spec fn remove(probe: ProbeId) -> Action {
    Action::RemovePadProbe { probe }
}

/// Whether the block of one branch is held by this probe.
pub open spec fn slot_holds(
    state: State,
    kind: StreamKind,
    fallback_source: bool,
    probe: ProbeId,
) -> bool {
    state.block_of(kind, fallback_source) is Some && state.block_of(kind, fallback_source)->0.probe
        == probe
}

/// Whether some block of a state is held by this probe.
pub open spec fn holds_probe(state: State, probe: ProbeId) -> bool {
    slot_holds(state, StreamKind::Audio, false, probe) || slot_holds(
        state,
        StreamKind::Audio,
        true,
        probe,
    ) || slot_holds(state, StreamKind::Video, false, probe) || slot_holds(
        state,
        StreamKind::Video,
        true,
        probe,
    )
}

impl FallbackSrc {
    /// Whether a probe with this handle is installed.
    pub open spec fn probe_installed(self, probe: ProbeId) -> bool {
        self.state is Some && holds_probe(self.state->0, probe)
    }
}

/// Whether a step gives an account of every probe that it lets go of: a
/// probe that is installed before the step and not after it is removed by
/// one of the step's commands.
pub open spec fn accounts_for_probes(before: FallbackSrc, step: Step) -> bool {
    forall|probe: ProbeId|
        #[trigger] before.probe_installed(probe) && !step.next.probe_installed(probe)
            ==> step.actions.contains(remove(probe))
}

/// The streams of a supervisor, which hold all its blocks.
pub open spec fn streams(supervisor: FallbackSrc) -> Option<(Option<Stream>, Option<Stream>)> {
    match supervisor.state {
        Some(state) => Some((state.audio_stream, state.video_stream)),
        None => None,
    }
}

/// Whether two supervisors have the same probes installed.
pub open spec fn same_probes(a: FallbackSrc, b: FallbackSrc) -> bool {
    forall|probe: ProbeId| #[trigger] a.probe_installed(probe) == b.probe_installed(probe)
}

/// Supervisors with the same streams have the same probes installed.
proof fn lemma_same_streams(a: FallbackSrc, b: FallbackSrc)
    requires
        streams(a) == streams(b),
    ensures
        same_probes(a, b),
{
    State::lemma_accessors();
}

/// A step that leaves the probes alone lets go of none.
proof fn lemma_same_probes(before: FallbackSrc, step: Step)
    requires
        same_probes(before, step.next),
    ensures
        accounts_for_probes(before, step),
{
    assert forall|probe: ProbeId|
        #[trigger] before.probe_installed(probe) && !step.next.probe_installed(
            probe,
        ) implies step.actions.contains(remove(probe)) by {
        assert(before.probe_installed(probe) == step.next.probe_installed(probe));
    }
}

/// A step that is taken from a supervisor with the same probes gives the
/// same account.
proof fn lemma_from_same_probes(before: FallbackSrc, middle: FallbackSrc, step: Step)
    requires
        same_probes(before, middle),
        accounts_for_probes(middle, step),
    ensures
        accounts_for_probes(before, step),
{
    assert forall|probe: ProbeId|
        #[trigger] before.probe_installed(probe) && !step.next.probe_installed(
            probe,
        ) implies step.actions.contains(remove(probe)) by {
        assert(before.probe_installed(probe) == middle.probe_installed(probe));
        assert(middle.probe_installed(probe));
    }
}

/// A step that gives an account stays one that does when commands are put
/// before and behind its own.
proof fn lemma_wrapped(before: FallbackSrc, step: Step, front: Seq<Action>, back: Seq<Action>)
    requires
        accounts_for_probes(before, step),
    ensures
        accounts_for_probes(
            before,
            Step { next: step.next, actions: front + step.actions + back },
        ),
{
    assert forall|probe: ProbeId|
        #[trigger] before.probe_installed(probe) && !step.next.probe_installed(
            probe,
        ) implies (front + step.actions + back).contains(remove(probe)) by {
        lemma_add_contains(front, step.actions, remove(probe));
        lemma_add_contains(front + step.actions, back, remove(probe));
    }
}

/// Two steps in a row that each give an account give one together.
proof fn lemma_chained(before: FallbackSrc, first: Step, second: Step)
    requires
        accounts_for_probes(before, first),
        accounts_for_probes(first.next, second),
    ensures
        accounts_for_probes(
            before,
            Step { next: second.next, actions: first.actions + second.actions },
        ),
{
    assert forall|probe: ProbeId|
        #[trigger] before.probe_installed(probe) && !second.next.probe_installed(
            probe,
        ) implies (first.actions + second.actions).contains(remove(probe)) by {
        lemma_add_contains(first.actions, second.actions, remove(probe));
        if first.next.probe_installed(probe) {
            assert(second.actions.contains(remove(probe)));
        } else {
            assert(first.actions.contains(remove(probe)));
        }
    }
}

/// The command for a block that may exist removes the probe of that block.
proof fn lemma_remove_probe_contains(block: Option<Block>, probe: ProbeId)
    ensures
        remove_probe(block).contains(remove(probe)) <==> block is Some && block->0.probe == probe,
{
    if block is Some && block->0.probe == probe {
        assert(remove_probe(block)[0] == remove(probe));
    }
}

/// The commands that release a branch remove the probe of its block.
proof fn lemma_release_contains(
    state: State,
    kind: StreamKind,
    fallback_source: bool,
    offset: Option<int>,
    is_eos: bool,
    probe: ProbeId,
)
    requires
        slot_holds(state, kind, fallback_source, probe),
    ensures
        release_actions(state, kind, fallback_source, offset, is_eos).contains(remove(probe)),
{
    let actions = release_actions(state, kind, fallback_source, offset, is_eos);
    assert(actions[actions.len() - 1] == remove(probe));
}

/// The commands that take a branch down remove the probe of its block.
proof fn lemma_remove_branch_contains(
    state: State,
    kind: StreamKind,
    fallback_source: bool,
    probe: ProbeId,
)
    requires
        slot_holds(state, kind, fallback_source, probe),
    ensures
        remove_branch_actions(state, kind, fallback_source).contains(remove(probe)),
{
    State::lemma_accessors();
    let actions = remove_branch_actions(state, kind, fallback_source);
    assert(actions[0] == remove(probe));
}

impl FallbackSrc {
    /// Releasing pads removes the probes of the blocks that go.
    proof fn lemma_unblock_removes(self, fallback_source: bool, obs: Observation)
        ensures
            accounts_for_probes(self, self.unblock_step(fallback_source, obs)),
    {
        let step = self.unblock_step(fallback_source, obs);
        if self.state is Some && unblock_gates_open(self.state->0, fallback_source, obs) {
            let state = self.state->0;
            let audio = lane_of(state, StreamKind::Audio, fallback_source, obs);
            let video = lane_of(state, StreamKind::Video, fallback_source, obs);
            state.lemma_with_block(StreamKind::Audio, fallback_source, None);
            state.lemma_with_block(StreamKind::Video, fallback_source, None);
            state.with_block(StreamKind::Audio, fallback_source, None).lemma_with_block(
                StreamKind::Video,
                fallback_source,
                None,
            );
            match spec_unblock_decision(audio, video) {
                Unblock::Defer => {},
                Unblock::Release { audio: release_audio, video: release_video, target } => {
                    let offset = spec_release_offset(obs.current_running_time, target);
                    let first = if release_audio {
                        release_actions(
                            state,
                            StreamKind::Audio,
                            fallback_source,
                            offset,
                            audio.is_eos,
                        )
                    } else {
                        Seq::empty()
                    };
                    let second = if release_video {
                        release_actions(
                            state,
                            StreamKind::Video,
                            fallback_source,
                            offset,
                            video.is_eos,
                        )
                    } else {
                        Seq::empty()
                    };
                    assert(step.actions == first + second);
                    assert forall|probe: ProbeId|
                        #[trigger] self.probe_installed(probe) && !step.next.probe_installed(
                            probe,
                        ) implies step.actions.contains(remove(probe)) by {
                        lemma_add_contains(first, second, remove(probe));
                        if release_audio && slot_holds(
                            state,
                            StreamKind::Audio,
                            fallback_source,
                            probe,
                        ) {
                            lemma_release_contains(
                                state,
                                StreamKind::Audio,
                                fallback_source,
                                offset,
                                audio.is_eos,
                                probe,
                            );
                        } else if release_video && slot_holds(
                            state,
                            StreamKind::Video,
                            fallback_source,
                            probe,
                        ) {
                            lemma_release_contains(
                                state,
                                StreamKind::Video,
                                fallback_source,
                                offset,
                                video.is_eos,
                                probe,
                            );
                        }
                    }
                },
            }
        }
    }

    /// Taking the blocks off a source's branches removes their probes.
    proof fn lemma_without_blocks_removes(self, fallback_source: bool, rest: Seq<Action>)
        requires
            self.state is Some,
        ensures
            accounts_for_probes(
                self,
                Step {
                    next: self.with_state(without_blocks(self.state->0, fallback_source)),
                    actions: remove_probes(self.state->0, fallback_source) + rest,
                },
            ),
    {
        let state = self.state->0;
        let first = state.with_block(StreamKind::Video, fallback_source, None);
        state.lemma_with_block(StreamKind::Video, fallback_source, None);
        first.lemma_with_block(StreamKind::Audio, fallback_source, None);
        let video = remove_probe(state.block_of(StreamKind::Video, fallback_source));
        let audio = remove_probe(state.block_of(StreamKind::Audio, fallback_source));
        let next = self.with_state(without_blocks(state, fallback_source));
        assert forall|probe: ProbeId|
            #[trigger] self.probe_installed(probe) && !next.probe_installed(
                probe,
            ) implies (remove_probes(state, fallback_source) + rest).contains(remove(probe)) by {
            lemma_remove_probe_contains(
                state.block_of(StreamKind::Video, fallback_source),
                probe,
            );
            lemma_remove_probe_contains(
                state.block_of(StreamKind::Audio, fallback_source),
                probe,
            );
            lemma_add_contains(video, audio, remove(probe));
            lemma_add_contains(video + audio, rest, remove(probe));
        }
    }

    /// Draining removes the probes of the blocks that go.
    proof fn lemma_drain_removes(self, fallback_source: bool)
        ensures
            accounts_for_probes(self, self.drain_step(fallback_source)),
    {
        let step = self.drain_step(fallback_source);
        if self.state is Some && restart_wanted(self.state->0, fallback_source) {
            let state = self.state->0;
            let rest = step.actions.subrange(
                remove_probes(state, fallback_source).len() as int,
                step.actions.len() as int,
            );
            assert(step.actions == remove_probes(state, fallback_source) + rest);
            self.lemma_without_blocks_removes(fallback_source, rest);
        }
    }

    /// Cooling down removes the probes of the blocks that go.
    proof fn lemma_cool_down_removes(self, fallback_source: bool)
        ensures
            accounts_for_probes(self, self.cool_down_step(fallback_source)),
    {
        let step = self.cool_down_step(fallback_source);
        if self.state is Some && restart_wanted(self.state->0, fallback_source) {
            let state = self.state->0;
            let cleared = self.with_state(without_blocks(state, fallback_source));
            let rest = step.actions.subrange(
                remove_probes(state, fallback_source).len() as int,
                step.actions.len() as int,
            );
            assert(step.actions == remove_probes(state, fallback_source) + rest);
            self.lemma_without_blocks_removes(fallback_source, rest);
            without_blocks(state, fallback_source).lemma_with_source(
                fallback_source,
                SourceBin {
                    pending_restart_timeout: Some(TimerId(self.next_handle)),
                    ..state.source_of(fallback_source)->0
                },
            );
            assert(streams(step.next) == streams(cleared));
            lemma_same_streams(step.next, cleared);
            assert forall|probe: ProbeId|
                #[trigger] self.probe_installed(probe) && !step.next.probe_installed(
                    probe,
                ) implies step.actions.contains(remove(probe)) by {
                assert(step.next.probe_installed(probe) == cleared.probe_installed(probe));
            }
        }
    }

    /// A step that only replaces a source leaves the probes alone.
    proof fn lemma_with_source_keeps_probes(self, fallback_source: bool, source: SourceBin)
        requires
            self.state is Some,
        ensures
            same_probes(
                self,
                self.with_state(self.state->0.with_source(fallback_source, source)),
            ),
            streams(self.with_state(self.state->0.with_source(fallback_source, source)))
                == streams(self),
    {
        self.state->0.lemma_with_source(fallback_source, source);
        lemma_same_streams(
            self,
            self.with_state(self.state->0.with_source(fallback_source, source)),
        );
    }

    /// Arming the restart timeout leaves the streams alone.
    proof fn lemma_schedule_keeps_streams(self, elapsed: u64, fallback_source: bool)
        ensures
            streams(self.schedule_step(elapsed, fallback_source).next) == streams(self),
    {
    }

    /// A source error leaves the streams alone.
    proof fn lemma_source_error_keeps_streams(self, reason: RetryReason, fallback_source: bool)
        ensures
            streams(self.source_error_step(reason, fallback_source).next) == streams(self),
    {
        State::lemma_accessors();
    }

    /// Restarting leaves the streams alone.
    proof fn lemma_restart_keeps_streams(self, fallback_source: bool)
        ensures
            streams(self.restart_step(fallback_source).next) == streams(self),
    {
        State::lemma_accessors();
    }

    /// Taking note of a restart's outcome leaves the streams alone.
    proof fn lemma_restarted_keeps_streams(self, fallback_source: bool, success: bool)
        ensures
            streams(self.restarted_step(fallback_source, success).next) == streams(self),
    {
        self.lemma_source_error_keeps_streams(RetryReason::StateChangeFailure, fallback_source);
        self.lemma_schedule_keeps_streams(0, fallback_source);
    }

    /// The firing of a timer leaves the streams alone.
    proof fn lemma_timeout_keeps_streams(self, timer: TimerId, obs: Observation)
        ensures
            streams(self.restart_timeout_step(timer, obs).next) == streams(self),
            streams(self.timeout_step(timer, obs).next) == streams(self),
    {
        if self.state is Some {
            let state = self.state->0;
            let gone = self.with_state(with_restart_timeout(state, None));
            gone.lemma_source_error_keeps_streams(RetryReason::Timeout, false);
            gone.lemma_schedule_keeps_streams(
                buffering_elapsed(state, obs.now),
                false,
            );
        }
        self.lemma_restart_keeps_streams(false);
        self.lemma_restart_keeps_streams(true);
    }

    /// A change of the selected input leaves the streams alone.
    proof fn lemma_active_pad_change_keeps_streams(self, obs: Observation)
        ensures
            streams(self.active_pad_change_step(obs).next) == streams(self),
    {
        self.lemma_schedule_keeps_streams(0, false);
    }

    /// Preparing a transition leaves the streams alone.
    proof fn lemma_change_source_state_keeps_streams(
        self,
        transition: StateChange,
        fallback_source: bool,
    )
        ensures
            streams(self.change_source_state_step(transition, fallback_source).next) == streams(
                self,
            ),
    {
        State::lemma_accessors();
    }

    /// Taking note of a transition leaves the streams alone.
    proof fn lemma_source_state_changed_keeps_streams(
        self,
        transition: StateChange,
        fallback_source: bool,
        result: Option<StateChangeSuccess>,
    )
        ensures
            streams(
                self.source_state_changed_step(transition, fallback_source, result).next,
            ) == streams(self),
    {
        self.lemma_source_error_keeps_streams(RetryReason::StateChangeFailure, fallback_source);
        if result is Some && self.state is Some && self.state->0.source_of(fallback_source)
            is Some {
            let state = self.state->0;
            let is_live = spec_live_after(
                state.source_of(fallback_source)->0,
                transition,
                result->0,
            );
            let source = SourceBin { is_live, ..state.source_of(fallback_source)->0 };
            state.lemma_with_source(fallback_source, source);
            state.lemma_with_source(fallback_source, without_timers(source));
            let watched = self.with_state(
                marked(
                    state.with_source(fallback_source, source),
                    fallback_source,
                ),
            );
            watched.lemma_schedule_keeps_streams(0, fallback_source);
        }
    }

    /// A new pad leaves the streams alone.
    proof fn lemma_pad_added_keeps_streams(
        self,
        pad: PadId,
        kind: Option<StreamKind>,
        is_image: bool,
        fallback_source: bool,
    )
        ensures
            streams(self.pad_added_step(pad, kind, is_image, fallback_source).next) == streams(
                self,
            ),
    {
        if self.state is Some && self.state->0.source_of(fallback_source) is Some {
            let state = self.state->0;
            state.lemma_with_source(
                fallback_source,
                with_image(state.source_of(fallback_source)->0, is_image),
            );
        }
    }

    /// Recording a branch only installs a probe.
    proof fn lemma_pad_linked_removes(
        self,
        pad: PadId,
        kind: StreamKind,
        is_image: bool,
        fallback_source: bool,
    )
        ensures
            accounts_for_probes(self, self.pad_linked_step(pad, kind, is_image, fallback_source)),
    {
        State::lemma_accessors();
    }

    /// Blocking a branch only installs a probe.
    proof fn lemma_add_probe_removes(self, kind: StreamKind, fallback_source: bool)
        ensures
            accounts_for_probes(self, self.add_probe_step(kind, fallback_source)),
    {
        if self.state is Some {
            self.state->0.lemma_with_block(
                kind,
                fallback_source,
                Some(Block { probe: ProbeId(self.next_handle), running_time: None }),
            );
        }
    }

    /// A blocked pad removes the probe of the block that goes.
    proof fn lemma_pad_blocked_removes(
        self,
        probe: ProbeId,
        fallback_source: bool,
        sample: BlockSample,
        obs: Observation,
    )
        ensures
            accounts_for_probes(
                self,
                self.pad_blocked_step(probe, fallback_source, sample, obs),
            ),
    {
        let step = self.pad_blocked_step(probe, fallback_source, sample, obs);
        if self.state is Some && self.state->0.source_of(fallback_source) is Some && kind_of_probe(
            self.state->0,
            probe,
            fallback_source,
        ) is Some {
            let state = self.state->0;
            let kind = kind_of_probe(state, probe, fallback_source)->0;
            if state.source_of(fallback_source)->0.is_live {
                state.lemma_with_block(kind, fallback_source, None);
                assert forall|other: ProbeId|
                    #[trigger] self.probe_installed(other) && !step.next.probe_installed(
                        other,
                    ) implies step.actions.contains(remove(other)) by {
                    assert(other == probe);
                    assert(step.actions[0] == remove(probe));
                }
            } else {
                match sample {
                    BlockSample::RunningTime(running_time) => {
                        state.lemma_with_block(
                            kind,
                            fallback_source,
                            Some(Block { probe, running_time }),
                        );
                        let timed = self.with_state(
                            state.with_block(
                                kind,
                                fallback_source,
                                Some(Block { probe, running_time }),
                            ),
                        );
                        assert(same_probes(self, timed));
                        let released = timed.unblock_step(fallback_source, obs);
                        timed.lemma_unblock_removes(fallback_source, obs);
                        lemma_from_same_probes(self, timed, released);
                        lemma_wrapped(self, released, Seq::empty(), seq![Action::NotifyStatus]);
                        assert(Seq::<Action>::empty() + released.actions + seq![
                            Action::NotifyStatus,
                        ] == released.actions.push(Action::NotifyStatus));
                    },
                    _ => {},
                }
            }
        }
    }

    /// A removed pad removes the probe of the block that goes with it.
    proof fn lemma_pad_removed_removes(self, pad: PadId, fallback_source: bool, obs: Observation)
        ensures
            accounts_for_probes(self, self.pad_removed_step(pad, fallback_source, obs)),
    {
        let step = self.pad_removed_step(pad, fallback_source, obs);
        if self.state is Some && self.state->0.source_of(fallback_source) is Some && kind_of_pad(
            self.state->0,
            pad,
            fallback_source,
        ) is Some {
            let state = self.state->0;
            let kind = kind_of_pad(state, pad, fallback_source)->0;
            let removed = self.with_state(state.with_branch(kind, fallback_source, None));
            let taken = Step {
                next: removed,
                actions: remove_branch_actions(state, kind, fallback_source),
            };
            assert(accounts_for_probes(self, taken)) by {
                State::lemma_accessors();
                assert forall|probe: ProbeId|
                    #[trigger] self.probe_installed(probe) && !removed.probe_installed(
                        probe,
                    ) implies taken.actions.contains(remove(probe)) by {
                    assert(slot_holds(state, kind, fallback_source, probe));
                    lemma_remove_branch_contains(state, kind, fallback_source, probe);
                }
            }
            let released = removed.unblock_step(fallback_source, obs);
            removed.lemma_unblock_removes(fallback_source, obs);
            lemma_chained(self, taken, released);
            lemma_wrapped(
                self,
                Step { next: released.next, actions: taken.actions + released.actions },
                Seq::empty(),
                seq![Action::NotifyStatus],
            );
            assert(Seq::<Action>::empty() + (taken.actions + released.actions) + seq![
                Action::NotifyStatus,
            ] == (taken.actions + released.actions).push(Action::NotifyStatus));
        }
    }

    /// A buffering report only installs probes, or releases pads.
    proof fn lemma_buffering_removes(
        self,
        origin: Option<Origin>,
        percent: i32,
        obs: Observation,
    )
        ensures
            accounts_for_probes(self, self.handle_buffering_step(origin, percent, obs)),
    {
        if self.state is Some && spec_attribute(self.state->0, origin) is Some {
            let state = self.state->0;
            let fallback_source = spec_attribute(state, origin)->0;
            if state.source_of(fallback_source) is Some && !state.source_of(
                fallback_source,
            )->0.pending_restart {
                let noted = self.with_state(
                    state.with_stats(
                        state.stats.with_buffering(fallback_source, percent),
                    ).with_last_update(fallback_source, Some(obs.now)),
                );
                state.with_stats(
                    state.stats.with_buffering(fallback_source, percent),
                ).lemma_with_last_update(fallback_source, Some(obs.now));
                lemma_same_streams(self, noted);
                if percent < 100 {
                    let audio = noted.add_probe_step(StreamKind::Audio, fallback_source);
                    noted.lemma_add_probe_removes(StreamKind::Audio, fallback_source);
                    let video = audio.next.add_probe_step(StreamKind::Video, fallback_source);
                    audio.next.lemma_add_probe_removes(StreamKind::Video, fallback_source);
                    lemma_chained(noted, audio, video);
                    let both = Step { next: video.next, actions: audio.actions + video.actions };
                    lemma_wrapped(
                        noted,
                        both,
                        Seq::empty(),
                        seq![Action::NotifyStatus].push(Action::NotifyStatistics),
                    );
                    assert(Seq::<Action>::empty() + both.actions + seq![
                        Action::NotifyStatus,
                    ].push(Action::NotifyStatistics) == both.actions.push(
                        Action::NotifyStatus,
                    ).push(Action::NotifyStatistics));
                    lemma_from_same_probes(
                        self,
                        noted,
                        self.handle_buffering_step(origin, percent, obs),
                    );
                } else {
                    let released = noted.unblock_step(fallback_source, obs);
                    noted.lemma_unblock_removes(fallback_source, obs);
                    lemma_wrapped(
                        noted,
                        released,
                        Seq::empty(),
                        seq![Action::NotifyStatus].push(Action::NotifyStatistics),
                    );
                    assert(Seq::<Action>::empty() + released.actions + seq![
                        Action::NotifyStatus,
                    ].push(Action::NotifyStatistics) == released.actions.push(
                        Action::NotifyStatus,
                    ).push(Action::NotifyStatistics));
                    lemma_from_same_probes(
                        self,
                        noted,
                        self.handle_buffering_step(origin, percent, obs),
                    );
                }
            }
        }
    }

    /// A stream collection only installs probes and releases pads.
    proof fn lemma_streams_selected_removes(
        self,
        origin: Option<Origin>,
        streams: Seq<StreamType>,
        obs: Observation,
    )
        ensures
            accounts_for_probes(self, self.handle_streams_selected_step(origin, streams, obs)),
    {
        if self.state is Some && spec_attribute(self.state->0, origin) is Some {
            let state = self.state->0;
            let fallback_source = spec_attribute(state, origin)->0;
            if state.source_of(fallback_source) is Some {
                let source = state.source_of(fallback_source)->0;
                let announced = SourceBin {
                    streams: Some(StreamCollection::spec_from_types(streams)),
                    ..source
                };
                let noted = self.with_state(state.with_source(fallback_source, announced));
                self.lemma_with_source_keeps_probes(fallback_source, announced);
                let video = noted.add_probe_step(StreamKind::Video, fallback_source);
                noted.lemma_add_probe_removes(StreamKind::Video, fallback_source);
                let audio = video.next.add_probe_step(StreamKind::Audio, fallback_source);
                video.next.lemma_add_probe_removes(StreamKind::Audio, fallback_source);
                lemma_chained(noted, video, audio);
                let both = Step { next: audio.next, actions: video.actions + audio.actions };
                let released = audio.next.unblock_step(fallback_source, obs);
                audio.next.lemma_unblock_removes(fallback_source, obs);
                lemma_chained(noted, both, released);
                let all = Step { next: released.next, actions: both.actions + released.actions };
                lemma_wrapped(noted, all, Seq::empty(), seq![Action::NotifyStatus]);
                assert(Seq::<Action>::empty() + all.actions + seq![Action::NotifyStatus] == (
                video.actions + audio.actions + released.actions).push(Action::NotifyStatus));
                lemma_from_same_probes(
                    self,
                    noted,
                    self.handle_streams_selected_step(origin, streams, obs),
                );
            }
        }
    }

    /// The release command removes the probes of the blocks that go.
    proof fn lemma_unblock_signal_removes(self, obs: Observation)
        ensures
            accounts_for_probes(self, self.unblock_signal_step(obs)),
    {
        if self.state is Some {
            let state = self.state->0;
            let released = self.with_state(State { manually_blocked: false, ..state });
            let armed = if state.schedule_restart_on_unblock && fallback_activated(
                state,
                obs,
            ) {
                released.schedule_step(0, false)
            } else {
                released.stay()
            };
            released.lemma_schedule_keeps_streams(0, false);
            lemma_same_streams(self, armed.next);
            lemma_same_probes(self, armed);
            let unblocked = armed.next.unblock_step(false, obs);
            armed.next.lemma_unblock_removes(false, obs);
            lemma_chained(self, armed, unblocked);
        }
    }

    /// A stop removes every probe.
    proof fn lemma_stop_removes(self)
        ensures
            accounts_for_probes(self, self.stop_step()),
    {
        if self.state is Some {
            let state = self.state->0;
            assert forall|probe: ProbeId| #[trigger]
                self.probe_installed(probe) implies stop_actions(state).contains(
                remove(probe),
            ) by {
                State::lemma_accessors();
                let kind = if slot_holds(state, StreamKind::Audio, false, probe) || slot_holds(
                    state,
                    StreamKind::Audio,
                    true,
                    probe,
                ) {
                    StreamKind::Audio
                } else {
                    StreamKind::Video
                };
                let fallback_source = !slot_holds(state, kind, false, probe);
                lemma_remove_branch_contains(state, kind, fallback_source, probe);
                lemma_stop_holds(state, kind, fallback_source, remove(probe));
            }
        }
    }
}

/// What the take-down of a branch asks is part of what a stop asks.
proof fn lemma_stop_holds(state: State, kind: StreamKind, fallback_source: bool, action: Action)
    requires
        state.stream_of(kind) is Some,
        remove_branch_actions(state, kind, fallback_source).contains(action),
    ensures
        stop_actions(state).contains(action),
{
    let main = remove_branch_actions(state, kind, false);
    let fallback = remove_branch_actions(state, kind, true);
    lemma_add_contains(main, fallback, action);
    lemma_add_contains(main + fallback, seq![Action::RemoveStream { kind }], action);
    assert(remove_stream_actions(state, kind).contains(action));
    lemma_stop_contains(state, action);
}

/// No probe is ever left behind. Whatever the supervisor is in and
/// whatever entry point is called with whatever it is given: a probe that
/// holds a block before the call and holds none after it is removed by one
/// of the call's commands. So a pad that the supervisor no longer knows to
/// be blocked is not blocked.
pub proof fn law_no_probe_is_left_behind(
    supervisor: FallbackSrc,
    transition: Transition,
    obs: Observation,
)
    ensures
        accounts_for_probes(supervisor, supervisor.transition_step(transition, obs)),
{
    let step = supervisor.transition_step(transition, obs);
    match transition {
        Transition::SetSettings { settings } => {
            lemma_same_streams(supervisor, step.next);
            lemma_same_probes(supervisor, step);
        },
        Transition::Start => {},
        Transition::Stop => {
            supervisor.lemma_stop_removes();
        },
        Transition::ChangeSourceState { transition, fallback_source } => {
            supervisor.lemma_change_source_state_keeps_streams(transition, fallback_source);
            lemma_same_streams(supervisor, step.next);
            lemma_same_probes(supervisor, step);
        },
        Transition::SourceStateChanged { transition, fallback_source, result } => {
            supervisor.lemma_source_state_changed_keeps_streams(
                transition,
                fallback_source,
                result,
            );
            lemma_same_streams(supervisor, step.next);
            lemma_same_probes(supervisor, step);
        },
        Transition::SourcePadAdded { pad, found, is_image, fallback_source } => {
            supervisor.lemma_pad_added_keeps_streams(pad, found, is_image, fallback_source);
            lemma_same_streams(supervisor, step.next);
            lemma_same_probes(supervisor, step);
        },
        Transition::SourcePadLinked { pad, kind, is_image, fallback_source } => {
            supervisor.lemma_pad_linked_removes(pad, kind, is_image, fallback_source);
        },
        Transition::AddPadProbe { kind, fallback_source } => {
            supervisor.lemma_add_probe_removes(kind, fallback_source);
        },
        Transition::PadBlocked { probe, fallback_source, sample } => {
            supervisor.lemma_pad_blocked_removes(probe, fallback_source, sample, obs);
        },
        Transition::SourcePadRemoved { pad, fallback_source } => {
            supervisor.lemma_pad_removed_removes(pad, fallback_source, obs);
        },
        Transition::SourceEos { pad, fallback_source } => {
            supervisor.lemma_source_error_keeps_streams(RetryReason::Eos, fallback_source);
            lemma_same_streams(supervisor, step.next);
            lemma_same_probes(supervisor, step);
        },
        Transition::Buffering { origin, percent } => {
            supervisor.lemma_buffering_removes(origin, percent, obs);
        },
        Transition::StreamsSelected { origin, streams } => {
            supervisor.lemma_streams_selected_removes(origin, streams, obs);
        },
        Transition::Error { origin } => {
            if supervisor.state is Some && spec_attribute_error(supervisor.state->0, origin)
                is Some {
                supervisor.lemma_source_error_keeps_streams(
                    RetryReason::Error,
                    spec_attribute_error(supervisor.state->0, origin)->0,
                );
            }
            lemma_same_streams(supervisor, step.next);
            lemma_same_probes(supervisor, step);
        },
        Transition::SourceError { reason, fallback_source } => {
            supervisor.lemma_source_error_keeps_streams(reason, fallback_source);
            lemma_same_streams(supervisor, step.next);
            lemma_same_probes(supervisor, step);
        },
        Transition::DrainSource { fallback_source } => {
            supervisor.lemma_drain_removes(fallback_source);
        },
        Transition::CoolDownSource { fallback_source } => {
            supervisor.lemma_cool_down_removes(fallback_source);
        },
        Transition::RestartSource { fallback_source } => {
            supervisor.lemma_restart_keeps_streams(fallback_source);
            lemma_same_streams(supervisor, step.next);
            lemma_same_probes(supervisor, step);
        },
        Transition::SourceRestarted { fallback_source, success } => {
            supervisor.lemma_restarted_keeps_streams(fallback_source, success);
            lemma_same_streams(supervisor, step.next);
            lemma_same_probes(supervisor, step);
        },
        Transition::ScheduleRestartTimeout { elapsed, fallback_source } => {
            supervisor.lemma_schedule_keeps_streams(elapsed, fallback_source);
            lemma_same_streams(supervisor, step.next);
            lemma_same_probes(supervisor, step);
        },
        Transition::RestartTimeout { timer } => {
            supervisor.lemma_timeout_keeps_streams(timer, obs);
            lemma_same_streams(supervisor, step.next);
            lemma_same_probes(supervisor, step);
        },
        Transition::Timeout { timer } => {
            supervisor.lemma_timeout_keeps_streams(timer, obs);
            lemma_same_streams(supervisor, step.next);
            lemma_same_probes(supervisor, step);
        },
        Transition::ActivePadChange => {
            supervisor.lemma_active_pad_change_keeps_streams(obs);
            lemma_same_streams(supervisor, step.next);
            lemma_same_probes(supervisor, step);
        },
        Transition::Unblock => {
            supervisor.lemma_unblock_signal_removes(obs);
        },
        Transition::UnblockPads { fallback_source } => {
            supervisor.lemma_unblock_removes(fallback_source, obs);
        },
    }
}

} // verus!
