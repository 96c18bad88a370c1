//! Driving the two sources through the element's lifecycle transitions.

use crate::action::Action;
use crate::restart::{cancel_timers, unschedule_all, without_timers};
use crate::state::{SourceBin, State};
use crate::supervisor::{unschedule, unschedule_one, FallbackSrc, Step};
use crate::types::{StateChange, StateChangeSuccess};
use vstd::prelude::*;

verus! {

/// Whether a source is live after a transition: on the way from Ready to
/// Paused it is if the transition gave no preroll; else it stays what it
/// was.
pub open spec fn spec_live_after(
    source: SourceBin,
    transition: StateChange,
    result: StateChangeSuccess,
) -> bool {
    if transition == StateChange::ReadyToPaused {
        result == StateChangeSuccess::NoPreroll
    } else {
        source.is_live
    }
}

/// Whether a transition brings a source to the point from which it has to
/// be watched: a source that is not live when it reaches Paused, a live one
/// when it reaches Playing.
pub open spec fn spec_starts_producing(is_live: bool, transition: StateChange) -> bool {
    (!is_live && transition == StateChange::ReadyToPaused) || (is_live && transition
        == StateChange::PausedToPlaying)
}

/// Whether a transition takes a source back from that point.
pub open spec fn spec_stops_producing(is_live: bool, transition: StateChange) -> bool {
    (!is_live && transition == StateChange::PausedToReady) || (is_live && transition
        == StateChange::PlayingToPaused)
}

/// The source as it is once its pending restart has been given up.
pub open spec fn given_up(source: SourceBin) -> SourceBin {
    SourceBin { pending_restart: false, pending_restart_timeout: None, ..source }
}

/// The state in which the primary source is marked for a restart timeout at
/// release; the fallback source is not marked.
pub open spec fn marked(state: State, fallback_source: bool) -> State {
    if fallback_source {
        state
    } else {
        State { schedule_restart_on_unblock: true, ..state }
    }
}

/// Decides whether a source is live after a transition.
pub fn live_after(
    source: &SourceBin,
    transition: StateChange,
    result: StateChangeSuccess,
) -> (live: bool)
    ensures
        live == spec_live_after(*source, transition, result),
{
    match transition {
        StateChange::ReadyToPaused => match result {
            StateChangeSuccess::NoPreroll => true,
            _ => false,
        },
        _ => source.is_live,
    }
}

/// Decides whether a transition brings a source to the point from which it
/// has to be watched.
pub fn starts_producing(is_live: bool, transition: StateChange) -> (starts: bool)
    ensures
        starts == spec_starts_producing(is_live, transition),
{
    match transition {
        StateChange::ReadyToPaused => !is_live,
        StateChange::PausedToPlaying => is_live,
        _ => false,
    }
}

/// Decides whether a transition takes a source back from that point.
pub fn stops_producing(is_live: bool, transition: StateChange) -> (stops: bool)
    ensures
        stops == spec_stops_producing(is_live, transition),
{
    match transition {
        StateChange::PausedToReady => !is_live,
        StateChange::PlayingToPaused => is_live,
        _ => false,
    }
}

impl FallbackSrc {
    /// What `change_source_state` does, where the source exists. A source
    /// whose restart is pending is not taken upwards. On the way to Ready
    /// or below a pending restart is given up and its pause timer
    /// disarmed. Then the status is announced and the host is asked to
    /// carry out the transition.
    pub open spec fn change_source_state_step(
        self,
        transition: StateChange,
        fallback_source: bool,
    ) -> Step {
        match self.state {
            Some(state) if state.source_of(fallback_source) is Some => {
                let source = state.source_of(fallback_source)->0;
                if transition.spec_is_upward() && source.pending_restart {
                    self.stay()
                } else if transition.spec_is_shutdown() && source.pending_restart {
                    Step {
                        next: self.with_state(state.with_source(fallback_source, given_up(source))),
                        actions: unschedule(source.pending_restart_timeout).push(
                            Action::NotifyStatus,
                        ).push(Action::ChangeSourceState { fallback_source, transition }),
                    }
                } else {
                    Step {
                        next: self,
                        actions: seq![Action::NotifyStatus].push(
                            Action::ChangeSourceState { fallback_source, transition },
                        ),
                    }
                }
            },
            _ => self.stay(),
        }
    }

    /// What `source_state_changed` does after a transition that did not
    /// fail, where the source exists. The source's liveness is settled on
    /// the way from Ready to Paused. Where the source starts producing, the
    /// primary source is marked for a restart timeout at release, and a
    /// restart timeout is armed unless one is armed already. Where it stops
    /// producing, its timers are disarmed.
    pub open spec fn state_changed_step(
        self,
        transition: StateChange,
        fallback_source: bool,
        result: StateChangeSuccess,
    ) -> Step {
        match self.state {
            Some(state) if state.source_of(fallback_source) is Some => {
                let is_live = spec_live_after(
                    state.source_of(fallback_source)->0,
                    transition,
                    result,
                );
                let source = SourceBin { is_live, ..state.source_of(fallback_source)->0 };
                if spec_starts_producing(is_live, transition) {
                    self.start_watching_step(fallback_source, source)
                } else if spec_stops_producing(is_live, transition) {
                    self.stop_watching_step(fallback_source, source)
                } else {
                    self.with_state(state.with_source(fallback_source, source)).stay()
                }
            },
            _ => self.stay(),
        }
    }

    /// What `source_state_changed` does. A failure on the way from Ready to
    /// Null is let pass; any other failure is handled as a failed state
    /// change.
    pub open spec fn source_state_changed_step(
        self,
        transition: StateChange,
        fallback_source: bool,
        result: Option<StateChangeSuccess>,
    ) -> Step {
        match result {
            None => if transition == StateChange::ReadyToNull {
                self.stay()
            } else {
                self.state_change_failed_step(fallback_source)
            },
            Some(result) => self.state_changed_step(transition, fallback_source, result),
        }
    }

    /// Preparing a transition keeps a supervisor well formed.
    pub proof fn lemma_change_source_state_keeps_wf(
        self,
        transition: StateChange,
        fallback_source: bool,
    )
        requires
            self.wf(),
        ensures
            self.change_source_state_step(transition, fallback_source).next.wf(),
    {
        if self.state is Some && self.state->0.source_of(fallback_source) is Some {
            let state = self.state->0;
            let source = state.source_of(fallback_source)->0;
            state.lemma_source_of(fallback_source);
            state.lemma_with_source(fallback_source, given_up(source));
        }
    }

    /// Taking note of a transition that did not fail keeps a supervisor
    /// well formed.
    pub proof fn lemma_state_changed_keeps_wf(
        self,
        transition: StateChange,
        fallback_source: bool,
        result: StateChangeSuccess,
    )
        requires
            self.wf(),
        ensures
            self.state_changed_step(transition, fallback_source, result).next.wf(),
    {
        if self.state is Some && self.state->0.source_of(fallback_source) is Some {
            let state = self.state->0;
            let is_live = spec_live_after(
                state.source_of(fallback_source)->0,
                transition,
                result,
            );
            let source = SourceBin { is_live, ..state.source_of(fallback_source)->0 };
            state.lemma_source_of(fallback_source);
            state.lemma_with_source(fallback_source, source);
            state.lemma_with_source(fallback_source, without_timers(source));
            let watched = self.with_state(
                marked(state.with_source(fallback_source, source), fallback_source),
            );
            watched.lemma_schedule_keeps_wf(0, fallback_source);
        }
    }

    /// Prepares a lifecycle transition of a source: decides whether the
    /// host is to carry it out, and gives up a pending restart on the way
    /// down.
    pub fn change_source_state(
        &mut self,
        transition: StateChange,
        fallback_source: bool,
    ) -> (actions: Vec<Action>)
        ensures
            *final(self) == old(self).change_source_state_step(transition, fallback_source).next,
            actions@ == old(self).change_source_state_step(transition, fallback_source).actions,
            old(self).wf() ==> final(self).wf(),
    {
        proof {
            if self.wf() {
                self.lemma_change_source_state_keeps_wf(transition, fallback_source);
            }
        }
        let mut state = match self.state {
            None => {
                return Vec::new();
            },
            Some(state) => state,
        };
        let mut source = match state.source(fallback_source) {
            None => {
                return Vec::new();
            },
            Some(source) => source,
        };
        if transition.is_upward() && source.pending_restart {
            return Vec::new();
        }
        let mut actions: Vec<Action> = Vec::new();
        if transition.is_shutdown() && source.pending_restart {
            actions = unschedule_one(source.pending_restart_timeout);
            source.pending_restart = false;
            source.pending_restart_timeout = None;
            state.set_source(fallback_source, source);
            self.state = Some(state);
        }
        actions.push(Action::NotifyStatus);
        actions.push(Action::ChangeSourceState { fallback_source, transition });
        actions
    }

    /// What happens where a source starts producing.
    pub open spec fn start_watching_step(self, fallback_source: bool, source: SourceBin) -> Step {
        match self.state {
            Some(state) => {
                let watched = self.with_state(
                    marked(state.with_source(fallback_source, source), fallback_source),
                );
                if source.restart_timeout is None {
                    watched.schedule_step(0, fallback_source)
                } else {
                    watched.stay()
                }
            },
            None => self.stay(),
        }
    }

    /// What happens where a source stops producing.
    pub open spec fn stop_watching_step(self, fallback_source: bool, source: SourceBin) -> Step {
        match self.state {
            Some(state) => Step {
                next: self.with_state(state.with_source(fallback_source, without_timers(source))),
                actions: unschedule_all(source),
            },
            None => self.stay(),
        }
    }

    fn start_watching(&mut self, fallback_source: bool, source: SourceBin) -> (actions: Vec<Action>)
        ensures
            *final(self) == old(self).start_watching_step(fallback_source, source).next,
            actions@ == old(self).start_watching_step(fallback_source, source).actions,
    {
        let mut state = match self.state {
            None => {
                return Vec::new();
            },
            Some(state) => state,
        };
        state.set_source(fallback_source, source);
        if !fallback_source {
            state.schedule_restart_on_unblock = true;
        }
        self.state = Some(state);
        if source.restart_timeout.is_none() {
            self.schedule_source_restart_timeout(0, fallback_source)
        } else {
            Vec::new()
        }
    }

    fn stop_watching(&mut self, fallback_source: bool, source: SourceBin) -> (actions: Vec<Action>)
        ensures
            *final(self) == old(self).stop_watching_step(fallback_source, source).next,
            actions@ == old(self).stop_watching_step(fallback_source, source).actions,
    {
        let mut state = match self.state {
            None => {
                return Vec::new();
            },
            Some(state) => state,
        };
        let mut source = source;
        let actions = cancel_timers(&mut source);
        state.set_source(fallback_source, source);
        self.state = Some(state);
        actions
    }

    fn state_changed(
        &mut self,
        transition: StateChange,
        fallback_source: bool,
        result: StateChangeSuccess,
    ) -> (actions: Vec<Action>)
        ensures
            *final(self) == old(self).state_changed_step(transition, fallback_source, result).next,
            actions@ == old(self).state_changed_step(transition, fallback_source, result).actions,
            old(self).wf() ==> final(self).wf(),
    {
        proof {
            if self.wf() {
                self.lemma_state_changed_keeps_wf(transition, fallback_source, result);
            }
        }
        let mut state = match self.state {
            None => {
                return Vec::new();
            },
            Some(state) => state,
        };
        let source = match state.source(fallback_source) {
            None => {
                return Vec::new();
            },
            Some(source) => source,
        };
        let is_live = live_after(&source, transition, result);
        let source = SourceBin { is_live, ..source };
        if starts_producing(is_live, transition) {
            return self.start_watching(fallback_source, source);
        }
        if stops_producing(is_live, transition) {
            return self.stop_watching(fallback_source, source);
        }
        state.set_source(fallback_source, source);
        self.state = Some(state);
        Vec::new()
    }

    /// Takes note of how a lifecycle transition of a source went.
    /// `result` is `None` where the transition failed.
    pub fn source_state_changed(
        &mut self,
        transition: StateChange,
        fallback_source: bool,
        result: Option<StateChangeSuccess>,
    ) -> (actions: Vec<Action>)
        ensures
            *final(self) == old(self).source_state_changed_step(
                transition,
                fallback_source,
                result,
            ).next,
            actions@ == old(self).source_state_changed_step(
                transition,
                fallback_source,
                result,
            ).actions,
            old(self).wf() ==> final(self).wf(),
    {
        match result {
            None => match transition {
                StateChange::ReadyToNull => Vec::new(),
                _ => self.state_change_failed(fallback_source),
            },
            Some(result) => self.state_changed(transition, fallback_source, result),
        }
    }
}

} // verus!
