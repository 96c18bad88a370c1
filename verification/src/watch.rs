//! Watching the primary source while the fallback is shown: when the
//! fallback counts as activated, when the main content counts as missing,
//! and how the restart timeout is armed.

use crate::action::Action;
use crate::state::{SourceBin, State};
use crate::supervisor::{unschedule, unschedule_one, FallbackSrc, Step};
use crate::time::{remaining, spec_remaining};
use crate::types::{spec_count_up, Observation, StreamKind, TimerId};
use vstd::prelude::*;

verus! {

/// Whether a switch shows something else than the primary source: it has
/// selected no input yet, or one whose priority is not zero.
pub open spec fn spec_switched_away(priority: Option<u32>) -> bool {
    match priority {
        Some(priority) => priority != 0,
        None => true,
    }
}

/// Whether the fallback is activated: for every kind that the primary
/// source has announced and that is enabled, the switch shows something
/// else than the primary source. That is so, too, while no such kind
/// exists.
pub open spec fn fallback_activated(state: State, obs: Observation) -> bool {
    let have_audio = state.source.spec_has(StreamKind::Audio);
    let have_video = state.source.spec_has(StreamKind::Video);
    (have_audio && state.audio_stream is Some ==> spec_switched_away(obs.audio_active_priority))
        && (have_video && state.video_stream is Some ==> spec_switched_away(
        obs.video_active_priority,
    ))
}

/// Whether the main content is not being delivered: the primary source has
/// announced neither audio nor video yet, or for at least one kind that it
/// has announced and that is enabled, the switch shows something else than
/// the primary source.
pub open spec fn main_content_missing(state: State, obs: Observation) -> bool {
    let have_audio = state.source.spec_has(StreamKind::Audio);
    let have_video = state.source.spec_has(StreamKind::Video);
    (!have_audio && !have_video) || (have_audio && state.audio_stream is Some
        && spec_switched_away(obs.audio_active_priority)) || (have_video
        && state.video_stream is Some && spec_switched_away(obs.video_active_priority))
}

/// Whether a restart timeout may be armed: only for the primary source, and
/// only while it is not being restarted, is no still image and is not held
/// back by the application.
pub open spec fn may_watch(state: State, fallback_source: bool) -> bool {
    !fallback_source && !state.source.pending_restart && !state.source.is_image
        && !state.manually_blocked
}

/// The state with the primary source's restart timeout replaced.
pub open spec fn with_restart_timeout(state: State, timer: Option<TimerId>) -> State {
    State { source: SourceBin { restart_timeout: timer, ..state.source }, ..state }
}

impl FallbackSrc {
    /// What `schedule_source_restart_timeout` does. Where a restart timeout
    /// may be armed, a fresh timer takes the place of the one that may be
    /// armed already, and runs for what is left of the restart timeout
    /// after `elapsed`. Else nothing happens.
    pub open spec fn schedule_step(self, elapsed: u64, fallback_source: bool) -> Step {
        match self.state {
            Some(state) if may_watch(state, fallback_source) => {
                let timer = TimerId(self.next_handle);
                Step {
                    next: FallbackSrc {
                        state: Some(with_restart_timeout(state, Some(timer))),
                        next_handle: spec_count_up(self.next_handle),
                        ..self
                    },
                    actions: unschedule(state.source.restart_timeout).push(
                        Action::ScheduleTimer {
                            timer,
                            delay: spec_remaining(state.settings.restart_timeout, elapsed),
                        },
                    ),
                }
            },
            _ => self.stay(),
        }
    }

    /// Arming the restart timeout keeps a supervisor well formed.
    pub proof fn lemma_schedule_keeps_wf(self, elapsed: u64, fallback_source: bool)
        requires
            self.wf(),
        ensures
            self.schedule_step(elapsed, fallback_source).next.wf(),
    {
    }

    /// Whether the fallback is activated. A stopped supervisor has none.
    pub open spec fn spec_have_fallback_activated(self, obs: Observation) -> bool {
        self.state is Some && fallback_activated(self.state->0, obs)
    }

    /// Decides whether the fallback is activated: whether every kind that
    /// the primary source has announced and that is enabled is shown from
    /// something else than the primary source.
    pub fn have_fallback_activated(&self, obs: Observation) -> (activated: bool)
        ensures
            activated == self.spec_have_fallback_activated(obs),
    {
        match self.state {
            Some(state) => Self::is_fallback_activated(&state, &obs),
            None => false,
        }
    }

    pub(crate) fn is_fallback_activated(state: &State, obs: &Observation) -> (activated: bool)
        ensures
            activated == fallback_activated(*state, *obs),
    {
        let have_audio = state.source.has(StreamKind::Audio);
        let have_video = state.source.has(StreamKind::Video);
        let audio_away = !(have_audio && state.audio_stream.is_some()) || Self::switched_away(
            obs.audio_active_priority,
        );
        let video_away = !(have_video && state.video_stream.is_some()) || Self::switched_away(
            obs.video_active_priority,
        );
        audio_away && video_away
    }

    pub(crate) fn is_main_content_missing(state: &State, obs: &Observation) -> (missing: bool)
        ensures
            missing == main_content_missing(*state, *obs),
    {
        let have_audio = state.source.has(StreamKind::Audio);
        let have_video = state.source.has(StreamKind::Video);
        (!have_audio && !have_video) || (have_audio && state.audio_stream.is_some()
            && Self::switched_away(obs.audio_active_priority)) || (have_video
            && state.video_stream.is_some() && Self::switched_away(obs.video_active_priority))
    }

    fn switched_away(priority: Option<u32>) -> (away: bool)
        ensures
            away == spec_switched_away(priority),
    {
        match priority {
            Some(priority) => priority != 0,
            None => true,
        }
    }

    /// Arms the restart timeout of the primary source, which fires when the
    /// source has to be restarted because the main content has been missing
    /// for too long. Of the restart timeout, `elapsed` counts as spent. Nothing
    /// is armed for the fallback source, for a still image, during a
    /// restart, or while the application holds the source back.
    pub fn schedule_source_restart_timeout(
        &mut self,
        elapsed: u64,
        fallback_source: bool,
    ) -> (actions: Vec<Action>)
        ensures
            *final(self) == old(self).schedule_step(elapsed, fallback_source).next,
            actions@ == old(self).schedule_step(elapsed, fallback_source).actions,
            old(self).wf() ==> final(self).wf(),
    {
        proof {
            if self.wf() {
                self.lemma_schedule_keeps_wf(elapsed, fallback_source);
            }
        }
        if fallback_source {
            return Vec::new();
        }
        let mut state = match self.state {
            None => {
                return Vec::new();
            },
            Some(state) => state,
        };
        if state.source.pending_restart || state.source.is_image || state.manually_blocked {
            return Vec::new();
        }
        let mut actions = unschedule_one(state.source.restart_timeout);
        let timer = TimerId(self.next_id());
        actions.push(
            Action::ScheduleTimer {
                timer,
                delay: remaining(state.settings.restart_timeout, elapsed),
            },
        );
        state.source.restart_timeout = Some(timer);
        self.state = Some(state);
        actions
    }
}

} // verus!
