//! The pad-block synchroniser: when the blocked pads of a source may be
//! released, and by how much each has to be shifted so that the first
//! buffers of all kinds line up with the pipeline's running time.

use crate::action::Action;
use crate::state::State;
use crate::supervisor::{FallbackSrc, Step};
use crate::time::{pad_offset, spec_pad_offset};
use crate::types::{Observation, StreamKind};
use crate::watch::fallback_activated;
use vstd::prelude::*;

verus! {

/// What the synchroniser reads of one kind of stream of a source.
#[derive(Clone, Copy, Debug, PartialEq, Eq, Structural)]
pub struct Lane {
    /// The source has announced a stream of this kind, and it is wanted.
    pub needed: bool,
    /// The running time at which the branch's output was blocked.
    pub running_time: Option<u64>,
    /// The branch exists and its source pad has seen end-of-stream.
    pub is_eos: bool,
}

/// What the synchroniser decides.
#[derive(Clone, Copy, Debug, PartialEq, Eq, Structural)]
pub enum Unblock {
    /// Nothing can be released yet.
    Defer,
    /// The blocks of the named kinds go. Pads that have not ended are first
    /// shifted so that `target` falls on the pipeline's running time.
    Release { audio: bool, video: bool, target: Option<u64> },
}

impl Lane {
    /// A lane can be released once it has a running time, or has ended and
    /// will never get one.
    pub open spec fn ready(self) -> bool {
        self.running_time is Some || self.is_eos
    }

    /// The running time that this lane asks the target not to exceed: its
    /// own, if it is needed and has not ended.
    pub open spec fn constraint(self) -> Option<u64> {
        if self.needed && !self.is_eos {
            self.running_time
        } else {
            None
        }
    }
}

/// The lesser of two optional times, where a missing one does not count.
pub open spec fn spec_least(a: Option<u64>, b: Option<u64>) -> Option<u64> {
    match (a, b) {
        (Some(x), Some(y)) => Some(if x <= y { x } else { y }),
        (Some(x), None) => Some(x),
        (None, _) => b,
    }
}

/// The decision. With no kind needed there is nothing to do. A needed kind
/// that has neither a running time nor ended holds everything back. Else
/// the needed kinds are released, at the least running time among those of
/// them that have not ended.
pub open spec fn spec_unblock_decision(audio: Lane, video: Lane) -> Unblock {
    if !audio.needed && !video.needed {
        Unblock::Defer
    } else if (audio.needed && !audio.ready()) || (video.needed && !video.ready()) {
        Unblock::Defer
    } else {
        Unblock::Release {
            audio: audio.needed,
            video: video.needed,
            target: spec_least(audio.constraint(), video.constraint()),
        }
    }
}

/// Computes the lesser of two optional times.
pub fn least(a: Option<u64>, b: Option<u64>) -> (l: Option<u64>)
    ensures
        l == spec_least(a, b),
{
    match a {
        Some(x) => match b {
            Some(y) => Some(if x <= y { x } else { y }),
            None => Some(x),
        },
        None => b,
    }
}

/// Decides whether the blocks of a source can go, and at which running
/// time.
pub fn unblock_decision(audio: Lane, video: Lane) -> (decision: Unblock)
    ensures
        decision == spec_unblock_decision(audio, video),
{
    if !audio.needed && !video.needed {
        return Unblock::Defer;
    }
    let audio_ready = audio.running_time.is_some() || audio.is_eos;
    let video_ready = video.running_time.is_some() || video.is_eos;
    if (audio.needed && !audio_ready) || (video.needed && !video_ready) {
        return Unblock::Defer;
    }
    let audio_constraint = if audio.needed && !audio.is_eos {
        audio.running_time
    } else {
        None
    };
    let video_constraint = if video.needed && !video.is_eos {
        video.running_time
    } else {
        None
    };
    Unblock::Release {
        audio: audio.needed,
        video: video.needed,
        target: least(audio_constraint, video_constraint),
    }
}

/// The gates that must be open before anything is released: the pipeline
/// has a running time, the application has released the primary source if
/// it asked to do so itself, the source is fully buffered, and it has
/// announced its streams.
pub open spec fn unblock_gates_open(state: State, fallback_source: bool, obs: Observation) -> bool {
    &&& obs.current_running_time is Some
    &&& fallback_source || !state.manually_blocked
    &&& state.stats.buffering(fallback_source) >= 100
    &&& state.source_of(fallback_source) is Some
    &&& state.source_of(fallback_source)->0.streams is Some
}

/// What the synchroniser reads of one kind. The primary source's streams
/// are wanted if their kind is enabled; the fallback source's are wanted
/// whenever they exist.
pub open spec fn lane_of(
    state: State,
    kind: StreamKind,
    fallback_source: bool,
    obs: Observation,
) -> Lane {
    let have = state.source_of(fallback_source) is Some && state.source_of(
        fallback_source,
    )->0.spec_has(kind);
    let want = if fallback_source {
        have
    } else {
        state.settings.spec_enabled(kind)
    };
    Lane {
        needed: have && want,
        running_time: match state.block_of(kind, fallback_source) {
            Some(block) => block.running_time,
            None => None,
        },
        is_eos: state.branch_of(kind, fallback_source) is Some && obs.spec_is_eos(
            kind,
            fallback_source,
        ),
    }
}

/// The offset for the pads of a source: the pipeline's running time less
/// the target, where both are known.
pub open spec fn spec_release_offset(current: Option<u64>, target: Option<u64>) -> Option<int> {
    if current is Some && target is Some {
        Some(spec_pad_offset(current->0, target->0))
    } else {
        None
    }
}

/// The commands that release one branch, if it is blocked: the offset,
/// unless the pad has ended or there is none, and then the removal of the
/// probe.
pub open spec fn release_actions(
    state: State,
    kind: StreamKind,
    fallback_source: bool,
    offset: Option<int>,
    is_eos: bool,
) -> Seq<Action> {
    match state.block_of(kind, fallback_source) {
        Some(block) => (if !is_eos && offset is Some {
            seq![Action::SetPadOffset { probe: block.probe, offset: offset->0 as i64 }]
        } else {
            Seq::empty()
        }) + seq![Action::RemovePadProbe { probe: block.probe }],
        None => Seq::empty(),
    }
}

/// What releasing the blocks of a source does to the state, once the gates
/// are open.
pub open spec fn unblock_state(state: State, fallback_source: bool, obs: Observation) -> State {
    let audio = lane_of(state, StreamKind::Audio, fallback_source, obs);
    let video = lane_of(state, StreamKind::Video, fallback_source, obs);
    match spec_unblock_decision(audio, video) {
        Unblock::Defer => state,
        Unblock::Release { audio: release_audio, video: release_video, target } => {
            let state = if release_audio {
                state.with_block(StreamKind::Audio, fallback_source, None)
            } else {
                state
            };
            if release_video {
                state.with_block(StreamKind::Video, fallback_source, None)
            } else {
                state
            }
        },
    }
}

/// The commands that releasing the blocks of a source gives, once the gates
/// are open: audio first, then video.
pub open spec fn unblock_actions(state: State, fallback_source: bool, obs: Observation) -> Seq<
    Action,
> {
    let audio = lane_of(state, StreamKind::Audio, fallback_source, obs);
    let video = lane_of(state, StreamKind::Video, fallback_source, obs);
    match spec_unblock_decision(audio, video) {
        Unblock::Defer => Seq::empty(),
        Unblock::Release { audio: release_audio, video: release_video, target } => {
            let offset = spec_release_offset(obs.current_running_time, target);
            (if release_audio {
                release_actions(state, StreamKind::Audio, fallback_source, offset, audio.is_eos)
            } else {
                Seq::empty()
            }) + (if release_video {
                release_actions(state, StreamKind::Video, fallback_source, offset, video.is_eos)
            } else {
                Seq::empty()
            })
        },
    }
}

impl FallbackSrc {
    /// What `unblock_pads` does: nothing while stopped or while a gate is
    /// shut; else what the synchroniser decides.
    pub open spec fn unblock_step(self, fallback_source: bool, obs: Observation) -> Step {
        match self.state {
            Some(state) if unblock_gates_open(state, fallback_source, obs) => Step {
                next: self.with_state(unblock_state(state, fallback_source, obs)),
                actions: unblock_actions(state, fallback_source, obs),
            },
            _ => self.stay(),
        }
    }

    /// What `unblock` does to a running supervisor: the application's hold
    /// on the primary source goes; if the source was marked for it and the
    /// fallback is activated, a restart timeout is armed; then the primary
    /// source's pads are released if they can be.
    pub open spec fn unblock_signal_step(self, obs: Observation) -> Step {
        match self.state {
            Some(state) => {
                let released = self.with_state(State { manually_blocked: false, ..state });
                let armed = if state.schedule_restart_on_unblock && fallback_activated(
                    state,
                    obs,
                ) {
                    released.schedule_step(0, false)
                } else {
                    released.stay()
                };
                let unblocked = armed.next.unblock_step(false, obs);
                Step { next: unblocked.next, actions: armed.actions + unblocked.actions }
            },
            None => self.stay(),
        }
    }

    /// Handles the application's command to release the primary source's
    /// pads.
    pub fn unblock(&mut self, obs: Observation) -> (actions: Vec<Action>)
        ensures
            *final(self) == old(self).unblock_signal_step(obs).next,
            actions@ == old(self).unblock_signal_step(obs).actions,
            old(self).wf() ==> final(self).wf(),
    {
        let mut state = match self.state {
            None => {
                return Vec::new();
            },
            Some(state) => state,
        };
        let arm = state.schedule_restart_on_unblock && Self::is_fallback_activated(&state, &obs);
        state.manually_blocked = false;
        self.state = Some(state);
        let mut actions = if arm {
            self.schedule_source_restart_timeout(0, false)
        } else {
            Vec::new()
        };
        let mut unblocked = self.unblock_pads(false, obs);
        actions.append(&mut unblocked);
        actions
    }

    /// Releases the blocked pads of a source if they can all go. It is safe
    /// to call at any time: while something is missing it does nothing.
    pub fn unblock_pads(
        &mut self,
        fallback_source: bool,
        obs: Observation,
    ) -> (actions: Vec<Action>)
        ensures
            *final(self) == old(self).unblock_step(fallback_source, obs).next,
            actions@ == old(self).unblock_step(fallback_source, obs).actions,
            old(self).wf() ==> final(self).wf(),
    {
        let mut actions: Vec<Action> = Vec::new();
        let mut state = match self.state {
            None => {
                return actions;
            },
            Some(state) => state,
        };
        let current = match obs.current_running_time {
            None => {
                return actions;
            },
            Some(current) => current,
        };
        if !fallback_source && state.manually_blocked {
            return actions;
        }
        let percent = if fallback_source {
            state.stats.fallback_buffering_percent
        } else {
            state.stats.buffering_percent
        };
        if percent < 100 {
            return actions;
        }
        let source = match state.source(fallback_source) {
            None => {
                return actions;
            },
            Some(source) => source,
        };
        if source.streams.is_none() {
            return actions;
        }
        let audio = Self::lane(&state, StreamKind::Audio, fallback_source, &obs);
        let video = Self::lane(&state, StreamKind::Video, fallback_source, &obs);
        match unblock_decision(audio, video) {
            Unblock::Defer => {},
            Unblock::Release { audio: release_audio, video: release_video, target } => {
                let offset = match target {
                    Some(target) => Some(pad_offset(current, target)),
                    None => None,
                };
                let ghost before = state;
                proof {
                    before.lemma_with_block(StreamKind::Audio, fallback_source, None);
                    before.with_block(StreamKind::Audio, fallback_source, None).lemma_with_block(
                        StreamKind::Video,
                        fallback_source,
                        None,
                    );
                    before.lemma_with_block(StreamKind::Video, fallback_source, None);
                }
                if release_audio {
                    Self::release(
                        &mut state,
                        StreamKind::Audio,
                        fallback_source,
                        offset,
                        audio.is_eos,
                        &mut actions,
                    );
                }
                if release_video {
                    Self::release(
                        &mut state,
                        StreamKind::Video,
                        fallback_source,
                        offset,
                        video.is_eos,
                        &mut actions,
                    );
                }
            },
        }
        self.state = Some(state);
        actions
    }

    fn lane(
        state: &State,
        kind: StreamKind,
        fallback_source: bool,
        obs: &Observation,
    ) -> (lane: Lane)
        ensures
            lane == lane_of(*state, kind, fallback_source, *obs),
    {
        let have = match state.source(fallback_source) {
            Some(source) => source.has(kind),
            None => false,
        };
        let want = if fallback_source {
            have
        } else {
            state.settings.enabled(kind)
        };
        let branch = state.branch(kind, fallback_source);
        Lane {
            needed: have && want,
            running_time: match state.block(kind, fallback_source) {
                Some(block) => block.running_time,
                None => None,
            },
            is_eos: branch.is_some() && obs.is_eos(kind, fallback_source),
        }
    }

    fn release(
        state: &mut State,
        kind: StreamKind,
        fallback_source: bool,
        offset: Option<i64>,
        is_eos: bool,
        actions: &mut Vec<Action>,
    )
        ensures
            *final(state) == old(state).with_block(kind, fallback_source, None),
            final(actions)@ == old(actions)@ + release_actions(
                *old(state),
                kind,
                fallback_source,
                match offset {
                    Some(offset) => Some(offset as int),
                    None => None,
                },
                is_eos,
            ),
    {
        match state.block(kind, fallback_source) {
            Some(block) => {
                if !is_eos {
                    match offset {
                        Some(offset) => {
                            actions.push(Action::SetPadOffset { probe: block.probe, offset });
                        },
                        None => {},
                    }
                }
                actions.push(Action::RemovePadProbe { probe: block.probe });
                state.set_block(kind, fallback_source, None);
            },
            None => {
                proof {
                    state.lemma_with_block(kind, fallback_source, None);
                }
            },
        }
    }
}

} // verus!
