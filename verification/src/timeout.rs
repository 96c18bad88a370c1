//! What happens when a timer fires, and when a switch selects another
//! input.

use crate::action::Action;
use crate::state::{SourceBin, State};
use crate::supervisor::{push_unschedule, unschedule, unschedule_one, FallbackSrc, Step};
use crate::time::{elapsed, spec_elapsed};
use crate::types::{Observation, RetryReason, TimerId};
use crate::watch::{fallback_activated, main_content_missing, with_restart_timeout};
use vstd::prelude::*;

verus! {

/// Whether the primary source has stopped buffering, as seen at `now`: its
/// buffers are full, or its last buffering report is at least a restart
/// timeout old.
pub open spec fn buffering_settled(state: State, now: u64) -> bool {
    state.stats.buffering_percent == 100 || match state.last_buffering_update {
        Some(at) => spec_elapsed(now, at) >= state.settings.restart_timeout,
        None => false,
    }
}

/// The part of the restart timeout that has passed since the primary
/// source's last buffering report.
pub open spec fn buffering_elapsed(state: State, now: u64) -> u64 {
    match state.last_buffering_update {
        Some(at) => spec_elapsed(now, at),
        None => 0,
    }
}

/// The state with the primary source's retry and restart timers disarmed.
pub open spec fn unwatched(state: State) -> State {
    State {
        source: SourceBin { retry_timeout: None, restart_timeout: None, ..state.source },
        ..state
    }
}

impl FallbackSrc {
    /// What `handle_restart_timeout` does. A timer that is not the primary
    /// source's restart timeout is ignored. Else the timeout is no longer
    /// armed. While the main content is delivered, that is all. While it
    /// is missing, for at least one kind or because no streams are known
    /// yet: a source that has stopped buffering is restarted for the reason
    /// `Timeout`; one that is still buffering is given the rest of the
    /// restart timeout.
    pub open spec fn restart_timeout_step(self, timer: TimerId, obs: Observation) -> Step {
        match self.state {
            Some(state) if state.source.restart_timeout == Some(timer) => {
                let fired = self.with_state(with_restart_timeout(state, None));
                if !main_content_missing(state, obs) {
                    fired.stay()
                } else if buffering_settled(state, obs.now) {
                    let failed = fired.source_error_step(RetryReason::Timeout, false);
                    Step {
                        next: failed.next,
                        actions: failed.actions.push(Action::NotifyStatistics),
                    }
                } else {
                    fired.schedule_step(buffering_elapsed(state, obs.now), false)
                }
            },
            _ => self.stay(),
        }
    }

    /// What `handle_timeout` does: a restart timeout of the primary source
    /// is handled as such; the pause timer of a source restarts that
    /// source; any other timer is ignored.
    pub open spec fn timeout_step(self, timer: TimerId, obs: Observation) -> Step {
        match self.state {
            Some(state) => if state.source.restart_timeout == Some(timer) {
                self.restart_timeout_step(timer, obs)
            } else if state.source.pending_restart_timeout == Some(timer) {
                self.restart_step(false)
            } else if state.fallback_source is Some
                && state.fallback_source->0.pending_restart_timeout == Some(timer) {
                self.restart_step(true)
            } else {
                self.stay()
            },
            None => self.stay(),
        }
    }

    /// What `handle_switch_active_pad_change` does. While the fallback is
    /// activated, a restart timeout is armed unless one is armed already.
    /// Else the retry and restart timers of the primary source are
    /// disarmed. Either way the status is announced.
    pub open spec fn active_pad_change_step(self, obs: Observation) -> Step {
        match self.state {
            Some(state) => if fallback_activated(state, obs) {
                let armed = if state.source.restart_timeout is None {
                    self.schedule_step(0, false)
                } else {
                    self.stay()
                };
                Step { next: armed.next, actions: armed.actions.push(Action::NotifyStatus) }
            } else {
                Step {
                    next: self.with_state(unwatched(state)),
                    actions: (unschedule(state.source.retry_timeout) + unschedule(
                        state.source.restart_timeout,
                    )).push(Action::NotifyStatus),
                }
            },
            None => self.stay(),
        }
    }

    fn is_buffering_settled(state: &State, now: u64) -> (settled: bool)
        ensures
            settled == buffering_settled(*state, now),
    {
        state.stats.buffering_percent == 100 || match state.last_buffering_update {
            Some(at) => elapsed(now, at) >= state.settings.restart_timeout,
            None => false,
        }
    }

    fn holds(armed: Option<TimerId>, timer: TimerId) -> (same: bool)
        ensures
            same == (armed == Some(timer)),
    {
        match armed {
            Some(armed) => armed.0 == timer.0,
            None => false,
        }
    }

    /// Handles the firing of the primary source's restart timeout: if the
    /// main content is still missing and the source is not busy buffering,
    /// the source is restarted.
    pub fn handle_restart_timeout(
        &mut self,
        timer: TimerId,
        obs: Observation,
    ) -> (actions: Vec<Action>)
        ensures
            *final(self) == old(self).restart_timeout_step(timer, obs).next,
            actions@ == old(self).restart_timeout_step(timer, obs).actions,
            old(self).wf() ==> final(self).wf(),
    {
        let mut state = match self.state {
            None => {
                return Vec::new();
            },
            Some(state) => state,
        };
        if !Self::holds(state.source.restart_timeout, timer) {
            return Vec::new();
        }
        let activated = Self::is_main_content_missing(&state, &obs);
        let settled = Self::is_buffering_settled(&state, obs.now);
        let spent = match state.last_buffering_update {
            Some(at) => elapsed(obs.now, at),
            None => 0,
        };
        state.source.restart_timeout = None;
        self.state = Some(state);
        if !activated {
            Vec::new()
        } else if settled {
            let mut actions = self.handle_source_error(RetryReason::Timeout, false);
            actions.push(Action::NotifyStatistics);
            actions
        } else {
            self.schedule_source_restart_timeout(spent, false)
        }
    }

    /// Handles the firing of a timer, whichever it is. A timer that the
    /// supervisor does not hold any more is ignored.
    pub fn handle_timeout(&mut self, timer: TimerId, obs: Observation) -> (actions: Vec<Action>)
        ensures
            *final(self) == old(self).timeout_step(timer, obs).next,
            actions@ == old(self).timeout_step(timer, obs).actions,
            old(self).wf() ==> final(self).wf(),
    {
        let state = match self.state {
            None => {
                return Vec::new();
            },
            Some(state) => state,
        };
        if Self::holds(state.source.restart_timeout, timer) {
            self.handle_restart_timeout(timer, obs)
        } else if Self::holds(state.source.pending_restart_timeout, timer) {
            self.restart_source(false)
        } else {
            match state.fallback_source {
                Some(source) => {
                    if Self::holds(source.pending_restart_timeout, timer) {
                        return self.restart_source(true);
                    }
                },
                None => {},
            }
            Vec::new()
        }
    }

    /// Handles a change of the input that a switch has selected: the
    /// primary source is watched while the fallback is activated, and left
    /// alone otherwise.
    pub fn handle_switch_active_pad_change(&mut self, obs: Observation) -> (actions: Vec<Action>)
        ensures
            *final(self) == old(self).active_pad_change_step(obs).next,
            actions@ == old(self).active_pad_change_step(obs).actions,
            old(self).wf() ==> final(self).wf(),
    {
        let mut state = match self.state {
            None => {
                return Vec::new();
            },
            Some(state) => state,
        };
        if Self::is_fallback_activated(&state, &obs) {
            let mut actions = if state.source.restart_timeout.is_none() {
                self.schedule_source_restart_timeout(0, false)
            } else {
                Vec::new()
            };
            actions.push(Action::NotifyStatus);
            actions
        } else {
            let mut actions = unschedule_one(state.source.retry_timeout);
            push_unschedule(&mut actions, state.source.restart_timeout);
            actions.push(Action::NotifyStatus);
            state.source.retry_timeout = None;
            state.source.restart_timeout = None;
            self.state = Some(state);
            actions
        }
    }
}

} // verus!
