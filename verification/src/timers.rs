//! Timer accounting: the supervisor never lets go of an armed timer without
//! telling the host to disarm it.

use crate::action::{lemma_add_contains, lemma_push_contains, Action};
use crate::laws::law_stop_is_idempotent;
use crate::lifecycle::{marked, spec_live_after};
use crate::messages::{spec_attribute, spec_attribute_error};
use crate::pads::{kind_of_pad, kind_of_probe, BlockSample};
use crate::restart::{lemma_without_blocks, restart_wanted, unschedule_all, without_timers};
use crate::state::{Block, SourceBin, State, StreamBranch};
use crate::supervisor::{unschedule, FallbackSrc, Step};
use crate::timeout::{buffering_elapsed, buffering_settled};
use crate::transition::Transition;
use crate::types::{
    Observation, Origin, PadId, ProbeId, RetryReason, Source, StateChange, StateChangeSuccess,
    StreamCollection, StreamKind, StreamType, TimerId,
};
use crate::watch::{fallback_activated, main_content_missing, may_watch, with_restart_timeout};
use vstd::prelude::*;

verus! {

/// The command that disarms a timer.
pub open spec fn disarm(timer: TimerId) -> Action {
    Action::UnscheduleTimer { timer }
}

/// Whether a step gives an account of every timer that it lets go of: a
/// timer that is armed before the step and not after it has fired, or is
/// disarmed by one of the step's commands.
pub open spec fn accounts_for_timers(
    before: FallbackSrc,
    step: Step,
    fired: Option<TimerId>,
) -> bool {
    forall|timer: TimerId|
        #[trigger] before.timer_armed(timer) && !step.next.timer_armed(timer) ==> fired == Some(
            timer,
        ) || step.actions.contains(disarm(timer))
}

/// The two sources of a supervisor, which hold all its timers.
pub open spec fn sources(supervisor: FallbackSrc) -> Option<(SourceBin, Option<SourceBin>)> {
    match supervisor.state {
        Some(state) => Some((state.source, state.fallback_source)),
        None => None,
    }
}

/// The command for a timer that may be armed disarms that timer.
proof fn lemma_unschedule_contains(armed: Option<TimerId>, timer: TimerId)
    ensures
        unschedule(armed).contains(disarm(timer)) <==> armed == Some(timer),
{
    if armed == Some(timer) {
        assert(unschedule(armed)[0] == disarm(timer));
    }
}

/// The commands that disarm the timers of a source disarm each timer that
/// the source holds.
proof fn lemma_unschedule_all_contains(source: SourceBin, timer: TimerId)
    ensures
        unschedule_all(source).contains(disarm(timer)) <==> source.holds_timer(timer),
{
    let a = unschedule(source.pending_restart_timeout);
    let b = unschedule(source.retry_timeout);
    let c = unschedule(source.restart_timeout);
    lemma_unschedule_contains(source.pending_restart_timeout, timer);
    lemma_unschedule_contains(source.retry_timeout, timer);
    lemma_unschedule_contains(source.restart_timeout, timer);
    lemma_add_contains(a, b, disarm(timer));
    lemma_add_contains(a + b, c, disarm(timer));
}

/// A step that leaves the sources alone lets go of no timer.
proof fn lemma_same_sources(before: FallbackSrc, step: Step, fired: Option<TimerId>)
    requires
        sources(step.next) == sources(before),
    ensures
        accounts_for_timers(before, step, fired),
{
}

/// A step that gives an account stays one that does when commands are put
/// before and behind its own.
proof fn lemma_wrapped(
    before: FallbackSrc,
    step: Step,
    fired: Option<TimerId>,
    front: Seq<Action>,
    back: Seq<Action>,
)
    requires
        accounts_for_timers(before, step, fired),
    ensures
        accounts_for_timers(
            before,
            Step { next: step.next, actions: front + step.actions + back },
            fired,
        ),
{
    assert forall|timer: TimerId|
        #[trigger] before.timer_armed(timer) && !step.next.timer_armed(timer) && fired != Some(
            timer,
        ) implies (front + step.actions + back).contains(disarm(timer)) by {
        lemma_add_contains(front, step.actions, disarm(timer));
        lemma_add_contains(front + step.actions, back, disarm(timer));
    }
}

/// Two steps in a row that each give an account give one together.
proof fn lemma_chained(
    before: FallbackSrc,
    first: Step,
    second: Step,
    fired: Option<TimerId>,
)
    requires
        accounts_for_timers(before, first, fired),
        accounts_for_timers(first.next, second, fired),
    ensures
        accounts_for_timers(
            before,
            Step { next: second.next, actions: first.actions + second.actions },
            fired,
        ),
{
    assert forall|timer: TimerId|
        #[trigger] before.timer_armed(timer) && !second.next.timer_armed(timer) && fired != Some(
            timer,
        ) implies (first.actions + second.actions).contains(disarm(timer)) by {
        lemma_add_contains(first.actions, second.actions, disarm(timer));
        if first.next.timer_armed(timer) {
            assert(second.actions.contains(disarm(timer)));
        } else {
            assert(first.actions.contains(disarm(timer)));
        }
    }
}

/// Whether two supervisors hold the same timers.
pub open spec fn same_timers(a: FallbackSrc, b: FallbackSrc) -> bool {
    forall|timer: TimerId| #[trigger] a.timer_armed(timer) == b.timer_armed(timer)
}

/// A step that is taken from a supervisor with the same timers gives the
/// same account.
proof fn lemma_from_same_timers(
    before: FallbackSrc,
    middle: FallbackSrc,
    step: Step,
    fired: Option<TimerId>,
)
    requires
        same_timers(before, middle),
        accounts_for_timers(middle, step, fired),
    ensures
        accounts_for_timers(before, step, fired),
{
    assert forall|timer: TimerId|
        #[trigger] before.timer_armed(timer) && !step.next.timer_armed(timer) implies fired
        == Some(timer) || step.actions.contains(disarm(timer)) by {
        assert(middle.timer_armed(timer));
    }
}

impl FallbackSrc {
    /// Arming the restart timeout disarms the one that it replaces.
    proof fn lemma_schedule_accounts(
        self,
        elapsed: u64,
        fallback_source: bool,
        fired: Option<TimerId>,
    )
        ensures
            accounts_for_timers(self, self.schedule_step(elapsed, fallback_source), fired),
    {
        let step = self.schedule_step(elapsed, fallback_source);
        if self.state is Some && may_watch(self.state->0, fallback_source) {
            let state = self.state->0;
            assert forall|timer: TimerId|
                #[trigger] self.timer_armed(timer) && !step.next.timer_armed(
                    timer,
                ) implies step.actions.contains(disarm(timer)) by {
                lemma_unschedule_contains(state.source.restart_timeout, timer);
                lemma_push_contains(
                    unschedule(state.source.restart_timeout),
                    step.actions.last(),
                    disarm(timer),
                );
            }
        }
    }

    /// A source error disarms the restart timeout that it takes away.
    proof fn lemma_source_error_accounts(
        self,
        reason: RetryReason,
        fallback_source: bool,
        fired: Option<TimerId>,
    )
        ensures
            accounts_for_timers(self, self.source_error_step(reason, fallback_source), fired),
    {
        State::lemma_accessors();
        let step = self.source_error_step(reason, fallback_source);
        if self.state is Some && self.state->0.source_of(fallback_source) is Some {
            let source = self.state->0.source_of(fallback_source)->0;
            if !source.pending_restart {
                let first = unschedule(source.restart_timeout);
                let second = first.push(Action::DropEos { fallback_source });
                assert forall|timer: TimerId|
                    #[trigger] self.timer_armed(timer) && !step.next.timer_armed(
                        timer,
                    ) implies step.actions.contains(disarm(timer)) by {
                    lemma_unschedule_contains(source.restart_timeout, timer);
                    lemma_push_contains(first, Action::DropEos { fallback_source }, disarm(timer));
                    lemma_push_contains(second, step.actions.last(), disarm(timer));
                }
            }
        }
    }

    /// Draining leaves the sources alone.
    proof fn lemma_drain_accounts(self, fallback_source: bool, fired: Option<TimerId>)
        ensures
            accounts_for_timers(self, self.drain_step(fallback_source), fired),
    {
        if self.state is Some {
            lemma_without_blocks(self.state->0, fallback_source);
        }
        lemma_same_sources(self, self.drain_step(fallback_source), fired);
    }

    /// Cooling down only arms a timer.
    proof fn lemma_cool_down_accounts(self, fallback_source: bool, fired: Option<TimerId>)
        ensures
            accounts_for_timers(self, self.cool_down_step(fallback_source), fired),
    {
        State::lemma_accessors();
        if self.state is Some {
            lemma_without_blocks(self.state->0, fallback_source);
        }
    }

    /// Restarting disarms the timers that it takes away.
    proof fn lemma_restart_accounts(self, fallback_source: bool, fired: Option<TimerId>)
        ensures
            accounts_for_timers(self, self.restart_step(fallback_source), fired),
    {
        State::lemma_accessors();
        let step = self.restart_step(fallback_source);
        if self.state is Some && restart_wanted(self.state->0, fallback_source) {
            let state = self.state->0;
            let source = state.source_of(fallback_source)->0;
            assert forall|timer: TimerId|
                #[trigger] self.timer_armed(timer) && !step.next.timer_armed(
                    timer,
                ) implies step.actions.contains(disarm(timer)) by {
                if !fallback_source && state.configured_source == Source::Uri {
                    let first = unschedule_all(source);
                    let second = first.push(
                        Action::RecreateMainInput {
                            source: Source::Uri,
                            buffer_duration: state.settings.buffer_duration,
                        },
                    );
                    lemma_unschedule_all_contains(source, timer);
                    lemma_push_contains(first, second.last(), disarm(timer));
                    lemma_push_contains(second, step.actions.last(), disarm(timer));
                } else {
                    let a = unschedule(source.pending_restart_timeout);
                    let b = unschedule(source.restart_timeout);
                    lemma_unschedule_contains(source.pending_restart_timeout, timer);
                    lemma_unschedule_contains(source.restart_timeout, timer);
                    lemma_add_contains(a, b, disarm(timer));
                    lemma_push_contains(a + b, step.actions.last(), disarm(timer));
                }
            }
        }
    }

    /// A failed state change gives the account of the source error in it.
    proof fn lemma_state_change_failed_accounts(
        self,
        fallback_source: bool,
        fired: Option<TimerId>,
    )
        ensures
            accounts_for_timers(self, self.state_change_failed_step(fallback_source), fired),
    {
        let failed = self.source_error_step(RetryReason::StateChangeFailure, fallback_source);
        self.lemma_source_error_accounts(RetryReason::StateChangeFailure, fallback_source, fired);
        lemma_wrapped(
            self,
            failed,
            fired,
            seq![Action::ShutDownSource { fallback_source }],
            seq![Action::NotifyStatistics],
        );
        assert((seq![Action::ShutDownSource { fallback_source }] + failed.actions).push(
            Action::NotifyStatistics,
        ) == seq![Action::ShutDownSource { fallback_source }] + failed.actions
            + seq![Action::NotifyStatistics]);
    }

    /// Taking note of a restart's outcome gives an account.
    proof fn lemma_restarted_accounts(
        self,
        fallback_source: bool,
        success: bool,
        fired: Option<TimerId>,
    )
        ensures
            accounts_for_timers(self, self.restarted_step(fallback_source, success), fired),
    {
        self.lemma_state_change_failed_accounts(fallback_source, fired);
        self.lemma_schedule_accounts(0, fallback_source, fired);
    }

    /// The firing of the restart timeout gives an account: the timer that
    /// goes has fired.
    proof fn lemma_restart_timeout_accounts(self, timer: TimerId, obs: Observation)
        ensures
            accounts_for_timers(self, self.restart_timeout_step(timer, obs), Some(timer)),
    {
        let fired = Some(timer);
        if self.state is Some && self.state->0.source.restart_timeout == fired {
            let state = self.state->0;
            let gone = self.with_state(with_restart_timeout(state, None));
            assert(accounts_for_timers(self, gone.stay(), fired));
            if !main_content_missing(state, obs) {
            } else if buffering_settled(state, obs.now) {
                let failed = gone.source_error_step(RetryReason::Timeout, false);
                gone.lemma_source_error_accounts(RetryReason::Timeout, false, fired);
                lemma_wrapped(gone, failed, fired, Seq::empty(), seq![Action::NotifyStatistics]);
                let told = Step {
                    next: failed.next,
                    actions: Seq::<Action>::empty() + failed.actions + seq![
                        Action::NotifyStatistics,
                    ],
                };
                lemma_chained(self, gone.stay(), told, fired);
                assert(gone.stay().actions + told.actions == failed.actions.push(
                    Action::NotifyStatistics,
                ));
            } else {
                let again = gone.schedule_step(buffering_elapsed(state, obs.now), false);
                gone.lemma_schedule_accounts(buffering_elapsed(state, obs.now), false, fired);
                lemma_chained(self, gone.stay(), again, fired);
                assert(gone.stay().actions + again.actions == again.actions);
            }
        }
    }

    /// The firing of any timer gives an account.
    proof fn lemma_timeout_accounts(self, timer: TimerId, obs: Observation)
        ensures
            accounts_for_timers(self, self.timeout_step(timer, obs), Some(timer)),
    {
        self.lemma_restart_timeout_accounts(timer, obs);
        self.lemma_restart_accounts(false, Some(timer));
        self.lemma_restart_accounts(true, Some(timer));
    }

    /// A change of the selected input disarms what it takes away.
    proof fn lemma_active_pad_change_accounts(self, obs: Observation, fired: Option<TimerId>)
        ensures
            accounts_for_timers(self, self.active_pad_change_step(obs), fired),
    {
        let step = self.active_pad_change_step(obs);
        if self.state is Some {
            let state = self.state->0;
            if fallback_activated(state, obs) {
                let armed = if state.source.restart_timeout is None {
                    self.schedule_step(0, false)
                } else {
                    self.stay()
                };
                self.lemma_schedule_accounts(0, false, fired);
                lemma_wrapped(self, armed, fired, Seq::empty(), seq![Action::NotifyStatus]);
                assert(Seq::<Action>::empty() + armed.actions + seq![Action::NotifyStatus]
                    == armed.actions.push(Action::NotifyStatus));
            } else {
                let a = unschedule(state.source.retry_timeout);
                let b = unschedule(state.source.restart_timeout);
                assert forall|timer: TimerId|
                    #[trigger] self.timer_armed(timer) && !step.next.timer_armed(
                        timer,
                    ) implies step.actions.contains(disarm(timer)) by {
                    lemma_unschedule_contains(state.source.retry_timeout, timer);
                    lemma_unschedule_contains(state.source.restart_timeout, timer);
                    lemma_add_contains(a, b, disarm(timer));
                    lemma_push_contains(a + b, Action::NotifyStatus, disarm(timer));
                }
            }
        }
    }

    /// Preparing a transition disarms the pause timer that it takes away.
    proof fn lemma_change_source_state_accounts(
        self,
        transition: StateChange,
        fallback_source: bool,
        fired: Option<TimerId>,
    )
        ensures
            accounts_for_timers(
                self,
                self.change_source_state_step(transition, fallback_source),
                fired,
            ),
    {
        State::lemma_accessors();
        let step = self.change_source_state_step(transition, fallback_source);
        if self.state is Some && self.state->0.source_of(fallback_source) is Some {
            let source = self.state->0.source_of(fallback_source)->0;
            let first = unschedule(source.pending_restart_timeout);
            let second = first.push(Action::NotifyStatus);
            assert forall|timer: TimerId|
                #[trigger] self.timer_armed(timer) && !step.next.timer_armed(
                    timer,
                ) implies step.actions.contains(disarm(timer)) by {
                lemma_unschedule_contains(source.pending_restart_timeout, timer);
                lemma_push_contains(first, Action::NotifyStatus, disarm(timer));
                lemma_push_contains(second, step.actions.last(), disarm(timer));
            }
        }
    }

    /// A source that is replaced by one with the same timers leaves the
    /// timers of the supervisor as they are.
    proof fn lemma_with_same_timers(self, fallback_source: bool, source: SourceBin)
        requires
            self.state is Some,
            self.state->0.source_of(fallback_source) is Some,
            forall|timer: TimerId| #[trigger]
                source.holds_timer(timer) == self.state->0.source_of(
                    fallback_source,
                )->0.holds_timer(timer),
        ensures
            same_timers(
                self,
                self.with_state(self.state->0.with_source(fallback_source, source)),
            ),
    {
        let state = self.state->0;
        state.lemma_source_of(fallback_source);
        state.lemma_with_source(fallback_source, source);
        let next = self.with_state(state.with_source(fallback_source, source));
        assert forall|timer: TimerId| #[trigger]
            self.timer_armed(timer) == next.timer_armed(timer) by {
            assert(source.holds_timer(timer) == state.source_of(fallback_source)->0.holds_timer(
                timer,
            ));
        }
    }

    /// Where a source starts producing, the account is that of the arming.
    proof fn lemma_start_watching_accounts(
        self,
        fallback_source: bool,
        source: SourceBin,
        fired: Option<TimerId>,
    )
        requires
            self.state is Some,
            self.state->0.source_of(fallback_source) is Some,
            forall|timer: TimerId| #[trigger]
                source.holds_timer(timer) == self.state->0.source_of(
                    fallback_source,
                )->0.holds_timer(timer),
        ensures
            accounts_for_timers(self, self.start_watching_step(fallback_source, source), fired),
    {
        let state = self.state->0;
        let plain = self.with_state(state.with_source(fallback_source, source));
        let watched = self.with_state(
            marked(state.with_source(fallback_source, source), fallback_source),
        );
        self.lemma_with_same_timers(fallback_source, source);
        assert(sources(watched) == sources(plain));
        assert(same_timers(self, watched)) by {
            assert forall|timer: TimerId| #[trigger]
                self.timer_armed(timer) == watched.timer_armed(timer) by {
                assert(plain.timer_armed(timer) == watched.timer_armed(timer));
            }
        }
        watched.lemma_schedule_accounts(0, fallback_source, fired);
        lemma_same_sources(watched, watched.stay(), fired);
        lemma_from_same_timers(
            self,
            watched,
            self.start_watching_step(fallback_source, source),
            fired,
        );
    }

    /// Where a source stops producing, its timers are disarmed.
    proof fn lemma_stop_watching_accounts(
        self,
        fallback_source: bool,
        source: SourceBin,
        fired: Option<TimerId>,
    )
        requires
            self.state is Some,
            self.state->0.source_of(fallback_source) is Some,
            forall|timer: TimerId| #[trigger]
                source.holds_timer(timer) == self.state->0.source_of(
                    fallback_source,
                )->0.holds_timer(timer),
        ensures
            accounts_for_timers(self, self.stop_watching_step(fallback_source, source), fired),
    {
        let state = self.state->0;
        let step = self.stop_watching_step(fallback_source, source);
        state.lemma_source_of(fallback_source);
        state.lemma_with_source(fallback_source, without_timers(source));
        assert forall|timer: TimerId|
            #[trigger] self.timer_armed(timer) && !step.next.timer_armed(
                timer,
            ) implies step.actions.contains(disarm(timer)) by {
            lemma_unschedule_all_contains(source, timer);
            assert(source.holds_timer(timer) == state.source_of(fallback_source)->0.holds_timer(
                timer,
            ));
        }
    }

    /// Taking note of a transition gives an account.
    proof fn lemma_source_state_changed_accounts(
        self,
        transition: StateChange,
        fallback_source: bool,
        result: Option<StateChangeSuccess>,
        fired: Option<TimerId>,
    )
        ensures
            accounts_for_timers(
                self,
                self.source_state_changed_step(transition, fallback_source, result),
                fired,
            ),
    {
        self.lemma_state_change_failed_accounts(fallback_source, fired);
        if result is Some && self.state is Some && self.state->0.source_of(fallback_source)
            is Some {
            let state = self.state->0;
            let is_live = spec_live_after(
                state.source_of(fallback_source)->0,
                transition,
                result->0,
            );
            let source = SourceBin { is_live, ..state.source_of(fallback_source)->0 };
            self.lemma_start_watching_accounts(fallback_source, source, fired);
            self.lemma_stop_watching_accounts(fallback_source, source, fired);
            self.lemma_with_same_timers(fallback_source, source);
            lemma_same_sources(
                self.with_state(state.with_source(fallback_source, source)),
                self.with_state(state.with_source(fallback_source, source)).stay(),
                fired,
            );
            lemma_from_same_timers(
                self,
                self.with_state(state.with_source(fallback_source, source)),
                self.with_state(state.with_source(fallback_source, source)).stay(),
                fired,
            );
        }
    }

    /// Releasing pads leaves the sources alone.
    proof fn lemma_unblock_keeps_sources(self, fallback_source: bool, obs: Observation)
        ensures
            sources(self.unblock_step(fallback_source, obs).next) == sources(self),
    {
        if self.state is Some {
            let state = self.state->0;
            state.lemma_with_block(StreamKind::Audio, fallback_source, None);
            state.lemma_with_block(StreamKind::Video, fallback_source, None);
            state.with_block(StreamKind::Audio, fallback_source, None).lemma_with_block(
                StreamKind::Video,
                fallback_source,
                None,
            );
        }
    }

    /// Blocking a branch leaves the sources alone.
    proof fn lemma_add_probe_keeps_sources(self, kind: StreamKind, fallback_source: bool)
        ensures
            sources(self.add_probe_step(kind, fallback_source).next) == sources(self),
    {
        if self.state is Some {
            self.state->0.lemma_with_block(
                kind,
                fallback_source,
                Some(Block { probe: ProbeId(self.next_handle), running_time: None }),
            );
        }
    }

    /// The release command gives an account.
    proof fn lemma_unblock_signal_accounts(self, obs: Observation, fired: Option<TimerId>)
        ensures
            accounts_for_timers(self, self.unblock_signal_step(obs), fired),
    {
        if self.state is Some {
            let state = self.state->0;
            let released = self.with_state(State { manually_blocked: false, ..state });
            let armed = if state.schedule_restart_on_unblock && fallback_activated(state, obs) {
                released.schedule_step(0, false)
            } else {
                released.stay()
            };
            released.lemma_schedule_accounts(0, false, fired);
            lemma_from_same_timers(self, released, armed, fired);
            let unblocked = armed.next.unblock_step(false, obs);
            armed.next.lemma_unblock_keeps_sources(false, obs);
            lemma_same_sources(armed.next, unblocked, fired);
            lemma_chained(self, armed, unblocked, fired);
        }
    }

    /// A new pad disarms the timers that a still image takes away.
    proof fn lemma_pad_added_accounts(
        self,
        pad: PadId,
        kind: Option<StreamKind>,
        is_image: bool,
        fallback_source: bool,
        fired: Option<TimerId>,
    )
        ensures
            accounts_for_timers(
                self,
                self.pad_added_step(pad, kind, is_image, fallback_source),
                fired,
            ),
    {
        State::lemma_accessors();
        let step = self.pad_added_step(pad, kind, is_image, fallback_source);
        if self.state is Some && self.state->0.source_of(fallback_source) is Some {
            let source = self.state->0.source_of(fallback_source)->0;
            if is_image {
                assert forall|timer: TimerId|
                    #[trigger] self.timer_armed(timer) && !step.next.timer_armed(
                        timer,
                    ) implies step.actions.contains(disarm(timer)) by {
                    lemma_unschedule_all_contains(source, timer);
                    if step.actions != unschedule_all(source) {
                        lemma_push_contains(
                            unschedule_all(source),
                            step.actions.last(),
                            disarm(timer),
                        );
                    }
                }
            } else {
                assert(same_timers(self, step.next));
            }
        }
    }

    /// Recording a branch leaves the sources alone.
    proof fn lemma_pad_linked_keeps_sources(
        self,
        pad: PadId,
        kind: StreamKind,
        is_image: bool,
        fallback_source: bool,
    )
        ensures
            sources(self.pad_linked_step(pad, kind, is_image, fallback_source).next) == sources(
                self,
            ),
    {
        if self.state is Some {
            self.state->0.lemma_with_branch(
                kind,
                fallback_source,
                Some(
                    StreamBranch {
                        source_srcpad: pad,
                        source_srcpad_block: Some(
                            Block { probe: ProbeId(self.next_handle), running_time: None },
                        ),
                        is_image,
                    },
                ),
            );
        }
    }

    /// A blocked pad leaves the sources alone.
    proof fn lemma_pad_blocked_keeps_sources(
        self,
        probe: ProbeId,
        fallback_source: bool,
        sample: BlockSample,
        obs: Observation,
    )
        ensures
            sources(self.pad_blocked_step(probe, fallback_source, sample, obs).next) == sources(
                self,
            ),
    {
        if self.state is Some && kind_of_probe(self.state->0, probe, fallback_source) is Some {
            let state = self.state->0;
            let kind = kind_of_probe(state, probe, fallback_source)->0;
            state.lemma_with_block(kind, fallback_source, None);
            match sample {
                BlockSample::RunningTime(running_time) => {
                    state.lemma_with_block(
                        kind,
                        fallback_source,
                        Some(Block { probe, running_time }),
                    );
                    self.with_state(
                        state.with_block(
                            kind,
                            fallback_source,
                            Some(Block { probe, running_time }),
                        ),
                    ).lemma_unblock_keeps_sources(fallback_source, obs);
                },
                _ => {},
            }
        }
    }

    /// A removed pad leaves the sources alone.
    proof fn lemma_pad_removed_keeps_sources(
        self,
        pad: PadId,
        fallback_source: bool,
        obs: Observation,
    )
        ensures
            sources(self.pad_removed_step(pad, fallback_source, obs).next) == sources(self),
    {
        if self.state is Some && kind_of_pad(self.state->0, pad, fallback_source) is Some {
            let state = self.state->0;
            let kind = kind_of_pad(state, pad, fallback_source)->0;
            state.lemma_with_branch(kind, fallback_source, None);
            self.with_state(
                state.with_branch(kind, fallback_source, None),
            ).lemma_unblock_keeps_sources(fallback_source, obs);
        }
    }

    /// The end of a stream gives the account of the source error in it.
    proof fn lemma_eos_accounts(self, pad: PadId, fallback_source: bool, fired: Option<TimerId>)
        ensures
            accounts_for_timers(self, self.eos_step(pad, fallback_source), fired),
    {
        let failed = self.source_error_step(RetryReason::Eos, fallback_source);
        self.lemma_source_error_accounts(RetryReason::Eos, fallback_source, fired);
        lemma_wrapped(self, failed, fired, Seq::empty(), seq![Action::NotifyStatistics]);
        assert(Seq::<Action>::empty() + failed.actions + seq![Action::NotifyStatistics]
            == failed.actions.push(Action::NotifyStatistics));
    }

    /// A buffering report leaves the sources alone.
    proof fn lemma_buffering_keeps_sources(
        self,
        origin: Option<Origin>,
        percent: i32,
        obs: Observation,
    )
        ensures
            sources(self.handle_buffering_step(origin, percent, obs).next) == sources(self),
    {
        if self.state is Some && spec_attribute(self.state->0, origin) is Some {
            let state = self.state->0;
            let fallback_source = spec_attribute(state, origin)->0;
            let noted = state.with_stats(
                state.stats.with_buffering(fallback_source, percent),
            ).with_last_update(fallback_source, Some(obs.now));
            state.with_stats(
                state.stats.with_buffering(fallback_source, percent),
            ).lemma_with_last_update(fallback_source, Some(obs.now));
            let audio = self.with_state(noted).add_probe_step(StreamKind::Audio, fallback_source);
            self.with_state(noted).lemma_add_probe_keeps_sources(
                StreamKind::Audio,
                fallback_source,
            );
            audio.next.lemma_add_probe_keeps_sources(StreamKind::Video, fallback_source);
            self.with_state(noted).lemma_unblock_keeps_sources(fallback_source, obs);
        }
    }

    /// A stream collection changes no timer.
    proof fn lemma_streams_selected_accounts(
        self,
        origin: Option<Origin>,
        streams: Seq<StreamType>,
        obs: Observation,
        fired: Option<TimerId>,
    )
        ensures
            accounts_for_timers(
                self,
                self.handle_streams_selected_step(origin, streams, obs),
                fired,
            ),
    {
        State::lemma_accessors();
        if self.state is Some && spec_attribute(self.state->0, origin) is Some {
            let state = self.state->0;
            let fallback_source = spec_attribute(state, origin)->0;
            if state.source_of(fallback_source) is Some {
                let source = state.source_of(fallback_source)->0;
                let noted = self.with_state(
                    state.with_source(
                        fallback_source,
                        SourceBin {
                            streams: Some(StreamCollection::spec_from_types(streams)),
                            ..source
                        },
                    ),
                );
                let video = noted.add_probe_step(StreamKind::Video, fallback_source);
                noted.lemma_add_probe_keeps_sources(StreamKind::Video, fallback_source);
                let audio = video.next.add_probe_step(StreamKind::Audio, fallback_source);
                video.next.lemma_add_probe_keeps_sources(StreamKind::Audio, fallback_source);
                audio.next.lemma_unblock_keeps_sources(fallback_source, obs);
                let step = self.handle_streams_selected_step(origin, streams, obs);
                assert(sources(step.next) == sources(noted));
                assert(same_timers(self, noted));
                assert(same_timers(self, step.next));
            }
        }
    }

    /// An error message gives the account of the source error in it.
    proof fn lemma_error_accounts(self, origin: Option<Origin>, fired: Option<TimerId>)
        ensures
            accounts_for_timers(self, self.handle_error_step(origin), fired),
    {
        if self.state is Some && spec_attribute_error(self.state->0, origin) is Some {
            let fallback_source = spec_attribute_error(self.state->0, origin)->0;
            let failed = self.source_error_step(RetryReason::Error, fallback_source);
            self.lemma_source_error_accounts(RetryReason::Error, fallback_source, fired);
            lemma_wrapped(
                self,
                failed,
                fired,
                Seq::empty(),
                seq![Action::NotifyStatus].push(Action::NotifyStatistics),
            );
            assert(Seq::<Action>::empty() + failed.actions + seq![Action::NotifyStatus].push(
                Action::NotifyStatistics,
            ) == failed.actions.push(Action::NotifyStatus).push(Action::NotifyStatistics));
        }
    }

    /// A stop disarms every timer.
    proof fn lemma_stop_accounts(self, fired: Option<TimerId>)
        ensures
            accounts_for_timers(self, self.stop_step(), fired),
    {
        law_stop_is_idempotent(self);
    }
}

/// No timer is ever left dangling. Whatever the supervisor is in and
/// whatever entry point is called with whatever it is given: a timer that
/// the supervisor holds before the call and no longer holds after it is
/// the timer whose firing the call reports, or one that the call's commands
/// tell the host to disarm.
pub proof fn law_no_timer_is_left_dangling(
    supervisor: FallbackSrc,
    transition: Transition,
    obs: Observation,
)
    ensures
        accounts_for_timers(
            supervisor,
            supervisor.transition_step(transition, obs),
            transition.fired(),
        ),
{
    let fired = transition.fired();
    match transition {
        Transition::SetSettings { settings } => {},
        Transition::Start => {},
        Transition::Stop => {
            supervisor.lemma_stop_accounts(fired);
        },
        Transition::ChangeSourceState { transition, fallback_source } => {
            supervisor.lemma_change_source_state_accounts(transition, fallback_source, fired);
        },
        Transition::SourceStateChanged { transition, fallback_source, result } => {
            supervisor.lemma_source_state_changed_accounts(
                transition,
                fallback_source,
                result,
                fired,
            );
        },
        Transition::SourcePadAdded { pad, found, is_image, fallback_source } => {
            supervisor.lemma_pad_added_accounts(pad, found, is_image, fallback_source, fired);
        },
        Transition::SourcePadLinked { pad, kind, is_image, fallback_source } => {
            supervisor.lemma_pad_linked_keeps_sources(pad, kind, is_image, fallback_source);
        },
        Transition::AddPadProbe { kind, fallback_source } => {
            supervisor.lemma_add_probe_keeps_sources(kind, fallback_source);
        },
        Transition::PadBlocked { probe, fallback_source, sample } => {
            supervisor.lemma_pad_blocked_keeps_sources(probe, fallback_source, sample, obs);
        },
        Transition::SourcePadRemoved { pad, fallback_source } => {
            supervisor.lemma_pad_removed_keeps_sources(pad, fallback_source, obs);
        },
        Transition::SourceEos { pad, fallback_source } => {
            supervisor.lemma_eos_accounts(pad, fallback_source, fired);
        },
        Transition::Buffering { origin, percent } => {
            supervisor.lemma_buffering_keeps_sources(origin, percent, obs);
        },
        Transition::StreamsSelected { origin, streams } => {
            supervisor.lemma_streams_selected_accounts(origin, streams, obs, fired);
        },
        Transition::Error { origin } => {
            supervisor.lemma_error_accounts(origin, fired);
        },
        Transition::SourceError { reason, fallback_source } => {
            supervisor.lemma_source_error_accounts(reason, fallback_source, fired);
        },
        Transition::DrainSource { fallback_source } => {
            supervisor.lemma_drain_accounts(fallback_source, fired);
        },
        Transition::CoolDownSource { fallback_source } => {
            supervisor.lemma_cool_down_accounts(fallback_source, fired);
        },
        Transition::RestartSource { fallback_source } => {
            supervisor.lemma_restart_accounts(fallback_source, fired);
        },
        Transition::SourceRestarted { fallback_source, success } => {
            supervisor.lemma_restarted_accounts(fallback_source, success, fired);
        },
        Transition::ScheduleRestartTimeout { elapsed, fallback_source } => {
            supervisor.lemma_schedule_accounts(elapsed, fallback_source, fired);
        },
        Transition::RestartTimeout { timer } => {
            supervisor.lemma_restart_timeout_accounts(timer, obs);
        },
        Transition::Timeout { timer } => {
            supervisor.lemma_timeout_accounts(timer, obs);
        },
        Transition::ActivePadChange => {
            supervisor.lemma_active_pad_change_accounts(obs, fired);
        },
        Transition::Unblock => {
            supervisor.lemma_unblock_signal_accounts(obs, fired);
        },
        Transition::UnblockPads { fallback_source } => {
            supervisor.lemma_unblock_keeps_sources(fallback_source, obs);
        },
    }
}

} // verus!
