//! The restart sequence: what happens when a source fails, ends or stalls,
//! and the steps by which it is shut down, left alone for a second and
//! brought back.

use crate::action::{Action, Continuation};
use crate::state::{Block, SourceBin, State};
use crate::supervisor::{push_unschedule, unschedule, unschedule_one, FallbackSrc, Step};
use crate::time::SECOND;
use crate::types::{spec_count_up, RetryReason, Source, StreamKind, TimerId};
use vstd::prelude::*;

verus! {

/// Whether a restart of the source is still wanted: the source exists and
/// its restart is pending.
pub open spec fn restart_wanted(state: State, fallback_source: bool) -> bool {
    state.source_of(fallback_source) is Some && state.source_of(
        fallback_source,
    )->0.pending_restart
}

/// The command that removes the probe of a block, if there is one.
pub open spec fn remove_probe(block: Option<Block>) -> Seq<Action> {
    match block {
        Some(block) => seq![Action::RemovePadProbe { probe: block.probe }],
        None => Seq::empty(),
    }
}

/// The command that flushes a branch, if there is one.
pub open spec fn flush_branch(state: State, kind: StreamKind, fallback_source: bool) -> Seq<
    Action,
> {
    if state.branch_of(kind, fallback_source) is Some {
        seq![Action::FlushBranch { kind, fallback_source }]
    } else {
        Seq::empty()
    }
}

/// The state without the blocks of a source's branches.
pub open spec fn without_blocks(state: State, fallback_source: bool) -> State {
    state.with_block(StreamKind::Video, fallback_source, None).with_block(
        StreamKind::Audio,
        fallback_source,
        None,
    )
}

/// The commands that remove the probes of a source's branches: video, then
/// audio.
pub open spec fn remove_probes(state: State, fallback_source: bool) -> Seq<Action> {
    remove_probe(state.block_of(StreamKind::Video, fallback_source)) + remove_probe(
        state.block_of(StreamKind::Audio, fallback_source),
    )
}

/// A source with all three timers disarmed.
pub open spec fn without_timers(source: SourceBin) -> SourceBin {
    SourceBin {
        restart_timeout: None,
        pending_restart_timeout: None,
        retry_timeout: None,
        ..source
    }
}

/// The commands that disarm the timers of a source: the pause, the retry
/// and the restart timer.
pub open spec fn unschedule_all(source: SourceBin) -> Seq<Action> {
    unschedule(source.pending_restart_timeout) + unschedule(source.retry_timeout) + unschedule(
        source.restart_timeout,
    )
}

/// The source as it is once its restart has begun.
pub open spec fn failing(source: SourceBin) -> SourceBin {
    SourceBin { pending_restart: true, restart_timeout: None, ..source }
}

/// The source as it is once it has been brought back without a new
/// container.
pub open spec fn resumed(source: SourceBin) -> SourceBin {
    SourceBin {
        pending_restart: false,
        pending_restart_timeout: None,
        restart_timeout: None,
        ..source
    }
}

/// Disarms the timers of a source.
pub fn cancel_timers(source: &mut SourceBin) -> (actions: Vec<Action>)
    ensures
        *final(source) == without_timers(*old(source)),
        actions@ == unschedule_all(*old(source)),
{
    let mut actions = unschedule_one(source.pending_restart_timeout);
    push_unschedule(&mut actions, source.retry_timeout);
    push_unschedule(&mut actions, source.restart_timeout);
    source.pending_restart_timeout = None;
    source.retry_timeout = None;
    source.restart_timeout = None;
    actions
}

/// Taking the blocks off a source's branches keeps a state well formed and
/// leaves everything but the blocks as it was.
pub proof fn lemma_without_blocks(state: State, fallback_source: bool)
    ensures
        state.wf() ==> without_blocks(state, fallback_source).wf(),
        forall|f: bool| #[trigger]
            without_blocks(state, fallback_source).source_of(f) == state.source_of(f),
        without_blocks(state, fallback_source).source == state.source,
        without_blocks(state, fallback_source).fallback_source == state.fallback_source,
        without_blocks(state, fallback_source).stats == state.stats,
        without_blocks(state, fallback_source).settings == state.settings,
        without_blocks(state, fallback_source).manually_blocked == state.manually_blocked,
        without_blocks(state, fallback_source).configured_source == state.configured_source,
        forall|kind: StreamKind, fallback: bool| #[trigger]
            without_blocks(state, fallback_source).branch_of(kind, fallback) is Some
                <==> state.branch_of(kind, fallback) is Some,
        forall|kind: StreamKind| #[trigger]
            without_blocks(state, fallback_source).block_of(kind, fallback_source) is None,
        forall|kind: StreamKind, f: bool|
            f != fallback_source ==> #[trigger] without_blocks(state, fallback_source).block_of(
                kind,
                f,
            ) == state.block_of(kind, f),
{
    let first = state.with_block(StreamKind::Video, fallback_source, None);
    state.lemma_with_block(StreamKind::Video, fallback_source, None);
    first.lemma_with_block(StreamKind::Audio, fallback_source, None);
    State::lemma_accessors();
}

impl FallbackSrc {
    /// What `handle_source_error` does. Without such a source nothing
    /// happens. Else the reason is noted. If a restart is pending already,
    /// that is all. Else the retry is counted, the restart timeout is
    /// disarmed, the restart becomes pending, and the host is asked to drop
    /// end-of-stream from the source and to call `drain_source`.
    pub open spec fn source_error_step(self, reason: RetryReason, fallback_source: bool) -> Step {
        match self.state {
            Some(state) if state.source_of(fallback_source) is Some => {
                let source = state.source_of(fallback_source)->0;
                let noted = state.with_stats(
                    state.stats.with_last_reason(fallback_source, reason),
                );
                if source.pending_restart {
                    Step { next: self.with_state(noted), actions: Seq::empty() }
                } else {
                    Step {
                        next: self.with_state(
                            noted.with_stats(
                                noted.stats.with_retry_counted(fallback_source),
                            ).with_source(fallback_source, failing(source)),
                        ),
                        actions: unschedule(source.restart_timeout).push(
                            Action::DropEos { fallback_source },
                        ).push(Action::Continue(Continuation::Drain { fallback_source })),
                    }
                }
            },
            _ => self.stay(),
        }
    }

    /// What `drain_source` does, where the restart is still wanted: the
    /// blocks of the source's branches go, its branches are flushed, audio
    /// first, the source is shut down, and the host is asked to call
    /// `cool_down_source`.
    pub open spec fn drain_step(self, fallback_source: bool) -> Step {
        match self.state {
            Some(state) if restart_wanted(state, fallback_source) => Step {
                next: self.with_state(without_blocks(state, fallback_source)),
                actions: (remove_probes(state, fallback_source) + flush_branch(
                    state,
                    StreamKind::Audio,
                    fallback_source,
                ) + flush_branch(state, StreamKind::Video, fallback_source)).push(
                    Action::ShutDownSource { fallback_source },
                ).push(Action::Continue(Continuation::CoolDown { fallback_source })),
            },
            _ => self.stay(),
        }
    }

    /// What `cool_down_source` does, where the restart is still wanted:
    /// blocks that have come since the draining go, and unless the pause
    /// timer is armed already, it is armed for one second.
    pub open spec fn cool_down_step(self, fallback_source: bool) -> Step {
        match self.state {
            Some(state) if restart_wanted(state, fallback_source) => {
                let source = state.source_of(fallback_source)->0;
                let cleared = without_blocks(state, fallback_source);
                if source.pending_restart_timeout is Some {
                    Step {
                        next: self.with_state(cleared),
                        actions: remove_probes(state, fallback_source),
                    }
                } else {
                    let timer = TimerId(self.next_handle);
                    Step {
                        next: FallbackSrc {
                            state: Some(
                                cleared.with_source(
                                    fallback_source,
                                    SourceBin { pending_restart_timeout: Some(timer), ..source },
                                ),
                            ),
                            next_handle: spec_count_up(self.next_handle),
                            ..self
                        },
                        actions: remove_probes(state, fallback_source).push(
                            Action::ScheduleTimer { timer, delay: SECOND },
                        ),
                    }
                }
            },
            _ => self.stay(),
        }
    }

    /// What `restart_source` does, where the restart is still wanted. A
    /// primary source that is a URI gets a new container and starts from
    /// scratch. Any other source is kept: its restart is no longer pending,
    /// its buffering counts as full and has no last report. Either way the
    /// timers of the restart go, and the host is asked to bring the source
    /// to the state of its parent.
    pub open spec fn restart_step(self, fallback_source: bool) -> Step {
        match self.state {
            Some(state) if restart_wanted(state, fallback_source) => {
                let source = state.source_of(fallback_source)->0;
                if !fallback_source && state.configured_source == Source::Uri {
                    Step {
                        next: self.with_state(State { source: SourceBin::initial(), ..state }),
                        actions: unschedule_all(source).push(
                            Action::RecreateMainInput {
                                source: Source::Uri,
                                buffer_duration: state.settings.buffer_duration,
                            },
                        ).push(Action::SyncSourceState { fallback_source }),
                    }
                } else {
                    Step {
                        next: self.with_state(
                            state.with_source(fallback_source, resumed(source)).with_stats(
                                state.stats.with_buffering(fallback_source, 100),
                            ).with_last_update(fallback_source, None),
                        ),
                        actions: (unschedule(source.pending_restart_timeout) + unschedule(
                            source.restart_timeout,
                        )).push(Action::SyncSourceState { fallback_source }),
                    }
                }
            },
            _ => self.stay(),
        }
    }

    /// What a failed state change of a source does, where the source
    /// exists: the source is shut down, the failure is handled as a source
    /// error, and the statistics are announced.
    pub open spec fn state_change_failed_step(self, fallback_source: bool) -> Step {
        match self.state {
            Some(state) if state.source_of(fallback_source) is Some => {
                let failed = self.source_error_step(
                    RetryReason::StateChangeFailure,
                    fallback_source,
                );
                Step {
                    next: failed.next,
                    actions: (seq![Action::ShutDownSource { fallback_source }]
                        + failed.actions).push(Action::NotifyStatistics),
                }
            },
            _ => self.stay(),
        }
    }

    /// What `source_restarted` does. A failure is handled as a failed state
    /// change. After a success the source is watched again, unless a
    /// restart timeout is armed already.
    pub open spec fn restarted_step(self, fallback_source: bool, success: bool) -> Step {
        if !success {
            self.state_change_failed_step(fallback_source)
        } else {
            match self.state {
                Some(state) if state.source_of(fallback_source) is Some && state.source_of(
                    fallback_source,
                )->0.restart_timeout is None => self.schedule_step(0, fallback_source),
                _ => self.stay(),
            }
        }
    }

    /// A source error keeps a supervisor well formed.
    pub proof fn lemma_source_error_keeps_wf(self, reason: RetryReason, fallback_source: bool)
        requires
            self.wf(),
        ensures
            self.source_error_step(reason, fallback_source).next.wf(),
    {
        if self.state is Some && self.state->0.source_of(fallback_source) is Some {
            let state = self.state->0;
            let source = state.source_of(fallback_source)->0;
            let noted = state.with_stats(state.stats.with_last_reason(fallback_source, reason));
            let counted = noted.with_stats(noted.stats.with_retry_counted(fallback_source));
            state.lemma_source_of(fallback_source);
            counted.lemma_with_source(fallback_source, failing(source));
        }
    }

    /// Draining keeps a supervisor well formed.
    pub proof fn lemma_drain_keeps_wf(self, fallback_source: bool)
        requires
            self.wf(),
        ensures
            self.drain_step(fallback_source).next.wf(),
    {
        if self.state is Some {
            lemma_without_blocks(self.state->0, fallback_source);
        }
    }

    /// Cooling down keeps a supervisor well formed.
    pub proof fn lemma_cool_down_keeps_wf(self, fallback_source: bool)
        requires
            self.wf(),
        ensures
            self.cool_down_step(fallback_source).next.wf(),
    {
        if self.state is Some && self.state->0.source_of(fallback_source) is Some {
            let state = self.state->0;
            let source = state.source_of(fallback_source)->0;
            lemma_without_blocks(state, fallback_source);
            state.lemma_source_of(fallback_source);
            without_blocks(state, fallback_source).lemma_with_source(
                fallback_source,
                SourceBin { pending_restart_timeout: Some(TimerId(self.next_handle)), ..source },
            );
        }
    }

    /// Restarting keeps a supervisor well formed.
    pub proof fn lemma_restart_keeps_wf(self, fallback_source: bool)
        requires
            self.wf(),
        ensures
            self.restart_step(fallback_source).next.wf(),
    {
        if self.state is Some && self.state->0.source_of(fallback_source) is Some {
            let state = self.state->0;
            let source = state.source_of(fallback_source)->0;
            state.lemma_source_of(fallback_source);
            state.lemma_with_source(fallback_source, resumed(source));
            let kept = state.with_source(fallback_source, resumed(source)).with_stats(
                state.stats.with_buffering(fallback_source, 100),
            );
            kept.lemma_with_last_update(fallback_source, None);
        }
    }


    /// Takes note that a source has failed, ended or stalled, and begins
    /// its restart unless one is pending already.
    pub fn handle_source_error(
        &mut self,
        reason: RetryReason,
        fallback_source: bool,
    ) -> (actions: Vec<Action>)
        ensures
            *final(self) == old(self).source_error_step(reason, fallback_source).next,
            actions@ == old(self).source_error_step(reason, fallback_source).actions,
            old(self).wf() ==> final(self).wf(),
    {
        proof {
            if self.wf() {
                self.lemma_source_error_keeps_wf(reason, fallback_source);
            }
        }
        let mut state = match self.state {
            None => {
                return Vec::new();
            },
            Some(state) => state,
        };
        let mut source = match state.source(fallback_source) {
            None => {
                return Vec::new();
            },
            Some(source) => source,
        };
        state.stats.set_last_reason(fallback_source, reason);
        if source.pending_restart {
            self.state = Some(state);
            return Vec::new();
        }
        state.stats.count_retry(fallback_source);
        let mut actions = unschedule_one(source.restart_timeout);
        source.restart_timeout = None;
        source.pending_restart = true;
        state.set_source(fallback_source, source);
        actions.push(Action::DropEos { fallback_source });
        actions.push(Action::Continue(Continuation::Drain { fallback_source }));
        self.state = Some(state);
        actions
    }

    fn probe_of(block: Option<Block>) -> (actions: Vec<Action>)
        ensures
            actions@ == remove_probe(block),
    {
        let mut actions: Vec<Action> = Vec::new();
        match block {
            Some(block) => {
                actions.push(Action::RemovePadProbe { probe: block.probe });
            },
            None => {},
        }
        actions
    }

    pub(crate) fn clear_blocks(state: &mut State, fallback_source: bool) -> (actions: Vec<Action>)
        ensures
            *final(state) == without_blocks(*old(state), fallback_source),
            actions@ == remove_probes(*old(state), fallback_source),
    {
        let mut actions = Self::probe_of(state.block(StreamKind::Video, fallback_source));
        let mut audio = Self::probe_of(state.block(StreamKind::Audio, fallback_source));
        actions.append(&mut audio);
        state.set_block(StreamKind::Video, fallback_source, None);
        state.set_block(StreamKind::Audio, fallback_source, None);
        actions
    }

    fn flush_of(state: &State, kind: StreamKind, fallback_source: bool) -> (actions: Vec<Action>)
        ensures
            actions@ == flush_branch(*state, kind, fallback_source),
    {
        let mut actions: Vec<Action> = Vec::new();
        if state.branch(kind, fallback_source).is_some() {
            actions.push(Action::FlushBranch { kind, fallback_source });
        }
        actions
    }

    /// The first step of a restart, run away from the thread that reported
    /// the failure: takes the blocks off the source's branches, so that
    /// shutting the source down cannot hang on them, and has the branches
    /// flushed and the source shut down.
    pub fn drain_source(&mut self, fallback_source: bool) -> (actions: Vec<Action>)
        ensures
            *final(self) == old(self).drain_step(fallback_source).next,
            actions@ == old(self).drain_step(fallback_source).actions,
            old(self).wf() ==> final(self).wf(),
    {
        proof {
            if self.wf() {
                self.lemma_drain_keeps_wf(fallback_source);
            }
        }
        let mut state = match self.state {
            None => {
                return Vec::new();
            },
            Some(state) => state,
        };
        match state.source(fallback_source) {
            Some(source) => {
                if !source.pending_restart {
                    return Vec::new();
                }
            },
            None => {
                return Vec::new();
            },
        }
        let mut audio = Self::flush_of(&state, StreamKind::Audio, fallback_source);
        let mut video = Self::flush_of(&state, StreamKind::Video, fallback_source);
        let mut actions = Self::clear_blocks(&mut state, fallback_source);
        actions.append(&mut audio);
        actions.append(&mut video);
        actions.push(Action::ShutDownSource { fallback_source });
        actions.push(Action::Continue(Continuation::CoolDown { fallback_source }));
        self.state = Some(state);
        actions
    }

    /// The second step of a restart, run once the source is shut down:
    /// arms the timer for the second that the source is left alone.
    pub fn cool_down_source(&mut self, fallback_source: bool) -> (actions: Vec<Action>)
        ensures
            *final(self) == old(self).cool_down_step(fallback_source).next,
            actions@ == old(self).cool_down_step(fallback_source).actions,
            old(self).wf() ==> final(self).wf(),
    {
        proof {
            if self.wf() {
                self.lemma_cool_down_keeps_wf(fallback_source);
            }
        }
        let mut state = match self.state {
            None => {
                return Vec::new();
            },
            Some(state) => state,
        };
        let mut source = match state.source(fallback_source) {
            None => {
                return Vec::new();
            },
            Some(source) => source,
        };
        if !source.pending_restart {
            return Vec::new();
        }
        let mut actions = Self::clear_blocks(&mut state, fallback_source);
        if source.pending_restart_timeout.is_some() {
            self.state = Some(state);
            return actions;
        }
        let timer = TimerId(self.next_id());
        actions.push(Action::ScheduleTimer { timer, delay: SECOND });
        source.pending_restart_timeout = Some(timer);
        state.set_source(fallback_source, source);
        self.state = Some(state);
        actions
    }

    /// The third step of a restart, run when the pause is over: gives a
    /// URI-backed primary source a new container, keeps any other source,
    /// and has the source brought to the state of its parent.
    pub fn restart_source(&mut self, fallback_source: bool) -> (actions: Vec<Action>)
        ensures
            *final(self) == old(self).restart_step(fallback_source).next,
            actions@ == old(self).restart_step(fallback_source).actions,
            old(self).wf() ==> final(self).wf(),
    {
        proof {
            if self.wf() {
                self.lemma_restart_keeps_wf(fallback_source);
            }
        }
        let mut state = match self.state {
            None => {
                return Vec::new();
            },
            Some(state) => state,
        };
        let mut source = match state.source(fallback_source) {
            None => {
                return Vec::new();
            },
            Some(source) => source,
        };
        if !source.pending_restart {
            return Vec::new();
        }
        proof {
            state.lemma_source_of(fallback_source);
        }
        let recreate = !fallback_source && match state.configured_source {
            Source::Uri => true,
            Source::Element => false,
        };
        if recreate {
            let mut actions = cancel_timers(&mut source);
            actions.push(
                Action::RecreateMainInput {
                    source: Source::Uri,
                    buffer_duration: state.settings.buffer_duration,
                },
            );
            actions.push(Action::SyncSourceState { fallback_source });
            state.source = SourceBin::new();
            self.state = Some(state);
            actions
        } else {
            let mut actions = unschedule_one(source.pending_restart_timeout);
            push_unschedule(&mut actions, source.restart_timeout);
            actions.push(Action::SyncSourceState { fallback_source });
            source.pending_restart = false;
            source.pending_restart_timeout = None;
            source.restart_timeout = None;
            let mut stats = state.stats;
            stats.set_buffering(fallback_source, 100);
            state.set_source(fallback_source, source);
            state.stats = stats;
            state.set_last_update(fallback_source, None);
            self.state = Some(state);
            actions
        }
    }

    /// Handles a state change of a source that failed.
    pub(crate) fn state_change_failed(&mut self, fallback_source: bool) -> (actions: Vec<Action>)
        ensures
            *final(self) == old(self).state_change_failed_step(fallback_source).next,
            actions@ == old(self).state_change_failed_step(fallback_source).actions,
            old(self).wf() ==> final(self).wf(),
    {
        let state = match self.state {
            None => {
                return Vec::new();
            },
            Some(state) => state,
        };
        if state.source(fallback_source).is_none() {
            return Vec::new();
        }
        let mut actions: Vec<Action> = Vec::new();
        actions.push(Action::ShutDownSource { fallback_source });
        let mut failed = self.handle_source_error(RetryReason::StateChangeFailure, fallback_source);
        actions.append(&mut failed);
        actions.push(Action::NotifyStatistics);
        actions
    }

    /// The last step of a restart, run when the host has tried to bring the
    /// source to the state of its parent: a failure starts the next
    /// restart, a success has the source watched again.
    pub fn source_restarted(
        &mut self,
        fallback_source: bool,
        success: bool,
    ) -> (actions: Vec<Action>)
        ensures
            *final(self) == old(self).restarted_step(fallback_source, success).next,
            actions@ == old(self).restarted_step(fallback_source, success).actions,
            old(self).wf() ==> final(self).wf(),
    {
        if !success {
            return self.state_change_failed(fallback_source);
        }
        let state = match self.state {
            None => {
                return Vec::new();
            },
            Some(state) => state,
        };
        match state.source(fallback_source) {
            Some(source) => {
                if source.restart_timeout.is_none() {
                    return self.schedule_source_restart_timeout(0, fallback_source);
                }
            },
            None => {},
        }
        Vec::new()
    }
}

} // verus!
