//! Branch wiring: what happens when a source shows a new pad, when the
//! chain behind it is linked, when its output blocks, when the pad ends
//! and when it goes away.

use crate::action::Action;
use crate::classify::{bytes_of, classify_pad, is_image, spec_classify_pad, spec_is_image};
use crate::restart::{cancel_timers, unschedule_all, without_timers};
use crate::state::{Block, SourceBin, State, StreamBranch};
use crate::supervisor::{remove_branch_actions, FallbackSrc, Step};
use crate::time::{queue_max_size_time, spec_queue_max_size_time};
use crate::types::{spec_count_up, Observation, PadId, ProbeId, RetryReason, StreamKind};
use vstd::prelude::*;
use vstd::string::StringSliceAdditionalSpecFns;

verus! {

/// What the host found when a blocked pad saw its first buffer or gap.
#[derive(Clone, Copy, Debug, PartialEq, Eq, Structural)]
pub enum BlockSample {
    /// The pad has no segment yet.
    NoSegment,
    /// The pad's segment does not count time.
    NoTimeSegment,
    /// The running time of the position at which the pad stands, if it has
    /// one.
    RunningTime(Option<u64>),
}

/// Why a blocked pad could not be handled.
#[derive(Clone, Copy, Debug, PartialEq, Eq, Structural)]
pub enum BlockError {
    /// The pad's segment does not count time.
    NoTimeSegment,
}

/// The preference of a dummy source at its switch: the lowest, so that it
/// is shown only while neither source delivers.
pub const DUMMY_PRIORITY: u32 = 2;

/// The preference of a branch at its switch: the primary source comes
/// first, the fallback source second.
pub open spec fn spec_priority(fallback_source: bool) -> u32 {
    if fallback_source {
        1
    } else {
        0
    }
}

/// The source as it is once one of its pads has turned out to carry a still
/// image, or not: an image marks the source and disarms its timers.
pub open spec fn with_image(source: SourceBin, is_image: bool) -> SourceBin {
    if is_image {
        SourceBin { is_image: true, ..without_timers(source) }
    } else {
        source
    }
}

/// The kind of the branch from a source that is fed by a pad: audio is
/// looked at first.
pub open spec fn kind_of_pad(state: State, pad: PadId, fallback_source: bool) -> Option<
    StreamKind,
> {
    if state.branch_of(StreamKind::Audio, fallback_source) is Some && state.branch_of(
        StreamKind::Audio,
        fallback_source,
    )->0.source_srcpad == pad {
        Some(StreamKind::Audio)
    } else if state.branch_of(StreamKind::Video, fallback_source) is Some && state.branch_of(
        StreamKind::Video,
        fallback_source,
    )->0.source_srcpad == pad {
        Some(StreamKind::Video)
    } else {
        None
    }
}

/// The kind of the branch from a source that is held by a probe: audio is
/// looked at first.
pub open spec fn kind_of_probe(state: State, probe: ProbeId, fallback_source: bool) -> Option<
    StreamKind,
> {
    if state.block_of(StreamKind::Audio, fallback_source) is Some && state.block_of(
        StreamKind::Audio,
        fallback_source,
    )->0.probe == probe {
        Some(StreamKind::Audio)
    } else if state.block_of(StreamKind::Video, fallback_source) is Some && state.block_of(
        StreamKind::Video,
        fallback_source,
    )->0.probe == probe {
        Some(StreamKind::Video)
    } else {
        None
    }
}

/// Whether a new branch of this kind from this source has a place: the
/// source and the stream exist, and the stream has no such branch yet.
pub open spec fn has_room(state: State, kind: StreamKind, fallback_source: bool) -> bool {
    state.source_of(fallback_source) is Some && state.stream_of(kind) is Some && state.branch_of(
        kind,
        fallback_source,
    ) is None
}

/// The commands that pass an end-of-stream on: into the switch of the
/// pad's kind, and into the other switch if that has no branch from the
/// primary source.
pub open spec fn forward_eos_actions(state: State, kind: StreamKind) -> Seq<Action> {
    (if state.stream_of(kind) is Some {
        seq![Action::SendEosToSwitch { kind }]
    } else {
        Seq::empty()
    }) + (if state.stream_of(kind.spec_other()) is Some && state.branch_of(
        kind.spec_other(),
        false,
    ) is None {
        seq![Action::SendEosToSwitch { kind: kind.spec_other() }]
    } else {
        Seq::empty()
    })
}

impl FallbackSrc {
    /// What `handle_source_pad_added` does for a pad of a given kind, where
    /// the source exists. A still image marks the source and disarms its
    /// timers. If the pad has a kind and a branch of that kind has a place,
    /// the host is asked to build the chain.
    pub open spec fn pad_added_step(
        self,
        pad: PadId,
        kind: Option<StreamKind>,
        is_image: bool,
        fallback_source: bool,
    ) -> Step {
        match self.state {
            Some(state) if state.source_of(fallback_source) is Some => {
                let source = state.source_of(fallback_source)->0;
                let cancel = if is_image {
                    unschedule_all(source)
                } else {
                    Seq::empty()
                };
                Step {
                    next: self.with_state(
                        state.with_source(fallback_source, with_image(source, is_image)),
                    ),
                    actions: if kind is Some && has_room(state, kind->0, fallback_source) {
                        cancel.push(
                            Action::LinkBranch {
                                pad,
                                kind: kind->0,
                                fallback_source,
                                is_image,
                                max_size_time: spec_queue_max_size_time(
                                    state.settings.min_latency,
                                ),
                                priority: spec_priority(fallback_source),
                            },
                        )
                    } else {
                        cancel
                    },
                }
            },
            _ => self.stay(),
        }
    }

    /// What `handle_source_pad_linked` does, where the branch still has a
    /// place: the branch is recorded with a fresh block, and the host is
    /// asked to watch the pad for end-of-stream and to block the branch's
    /// output.
    pub open spec fn pad_linked_step(
        self,
        pad: PadId,
        kind: StreamKind,
        is_image: bool,
        fallback_source: bool,
    ) -> Step {
        match self.state {
            Some(state) if has_room(state, kind, fallback_source) => {
                let probe = ProbeId(self.next_handle);
                Step {
                    next: FallbackSrc {
                        state: Some(
                            state.with_branch(
                                kind,
                                fallback_source,
                                Some(
                                    StreamBranch {
                                        source_srcpad: pad,
                                        source_srcpad_block: Some(
                                            Block { probe, running_time: None },
                                        ),
                                        is_image,
                                    },
                                ),
                            ),
                        ),
                        next_handle: spec_count_up(self.next_handle),
                        ..self
                    },
                    actions: seq![Action::AddEosProbe { pad, fallback_source }].push(
                        Action::AddPadProbe { probe, kind, fallback_source },
                    ).push(Action::NotifyStatus),
                }
            },
            _ => self.stay(),
        }
    }

    /// What `add_pad_probe` does: a branch that exists and is not blocked
    /// gets a fresh block.
    pub open spec fn add_probe_step(self, kind: StreamKind, fallback_source: bool) -> Step {
        match self.state {
            Some(state) if state.branch_of(kind, fallback_source) is Some && state.block_of(
                kind,
                fallback_source,
            ) is None => {
                let probe = ProbeId(self.next_handle);
                Step {
                    next: FallbackSrc {
                        state: Some(
                            state.with_block(
                                kind,
                                fallback_source,
                                Some(Block { probe, running_time: None }),
                            ),
                        ),
                        next_handle: spec_count_up(self.next_handle),
                        ..self
                    },
                    actions: seq![Action::AddPadProbe { probe, kind, fallback_source }],
                }
            },
            _ => self.stay(),
        }
    }

    /// Which `handle_pad_blocked` fails on: a pad of a source that is not
    /// live, whose segment does not count time.
    pub open spec fn pad_blocked_fails(
        self,
        probe: ProbeId,
        fallback_source: bool,
        sample: BlockSample,
    ) -> bool {
        &&& self.state is Some
        &&& self.state->0.source_of(fallback_source) is Some
        &&& kind_of_probe(self.state->0, probe, fallback_source) is Some
        &&& !self.state->0.source_of(fallback_source)->0.is_live
        &&& sample == BlockSample::NoTimeSegment
    }

    /// What `handle_pad_blocked` does where it does not fail. A probe that
    /// holds no branch of the source is ignored. The pad of a live source
    /// is released at once. Else, without a segment nothing happens; with a
    /// running time, the block takes it, and the source's pads are released
    /// if they can be.
    pub open spec fn pad_blocked_step(
        self,
        probe: ProbeId,
        fallback_source: bool,
        sample: BlockSample,
        obs: Observation,
    ) -> Step {
        match self.state {
            Some(state) if state.source_of(fallback_source) is Some && kind_of_probe(
                state,
                probe,
                fallback_source,
            ) is Some => {
                let kind = kind_of_probe(state, probe, fallback_source)->0;
                if state.source_of(fallback_source)->0.is_live {
                    Step {
                        next: self.with_state(state.with_block(kind, fallback_source, None)),
                        actions: seq![Action::RemovePadProbe { probe }].push(Action::NotifyStatus),
                    }
                } else {
                    match sample {
                        BlockSample::RunningTime(running_time) => {
                            let timed = self.with_state(
                                state.with_block(
                                    kind,
                                    fallback_source,
                                    Some(Block { probe, running_time }),
                                ),
                            );
                            let released = timed.unblock_step(fallback_source, obs);
                            Step {
                                next: released.next,
                                actions: released.actions.push(Action::NotifyStatus),
                            }
                        },
                        _ => self.stay(),
                    }
                }
            },
            _ => self.stay(),
        }
    }

    /// What `handle_source_pad_removed` does. A pad that feeds no branch of
    /// the source is ignored. Else the branch goes, block first; then the
    /// source's pads are released if they can be.
    pub open spec fn pad_removed_step(
        self,
        pad: PadId,
        fallback_source: bool,
        obs: Observation,
    ) -> Step {
        match self.state {
            Some(state) if state.source_of(fallback_source) is Some && kind_of_pad(
                state,
                pad,
                fallback_source,
            ) is Some => {
                let kind = kind_of_pad(state, pad, fallback_source)->0;
                let removed = self.with_state(state.with_branch(kind, fallback_source, None));
                let released = removed.unblock_step(fallback_source, obs);
                Step {
                    next: released.next,
                    actions: (remove_branch_actions(state, kind, fallback_source)
                        + released.actions).push(Action::NotifyStatus),
                }
            },
            _ => self.stay(),
        }
    }

    /// Whether an end-of-stream on a source pad restarts the source. That
    /// is the case for a pad that feeds a branch of the source which is no
    /// still image, if the pad belongs to the fallback source or restarting
    /// at end-of-stream is configured.
    pub open spec fn eos_restarts(self, pad: PadId, fallback_source: bool) -> bool {
        &&& self.state is Some
        &&& kind_of_pad(self.state->0, pad, fallback_source) is Some
        &&& !self.state->0.branch_of(
            kind_of_pad(self.state->0, pad, fallback_source)->0,
            fallback_source,
        )->0.is_image
        &&& self.state->0.settings.restart_on_eos || fallback_source
    }

    /// Whether an end-of-stream on a source pad is to be dropped, so that
    /// it reaches neither the switch nor anything behind it. It is for a
    /// pad that feeds a branch of the source, if the branch shows a still
    /// image, which has no end, or if the end-of-stream restarts the
    /// source.
    pub open spec fn eos_dropped(self, pad: PadId, fallback_source: bool) -> bool {
        &&& self.state is Some
        &&& kind_of_pad(self.state->0, pad, fallback_source) is Some
        &&& self.state->0.branch_of(
            kind_of_pad(self.state->0, pad, fallback_source)->0,
            fallback_source,
        )->0.is_image || self.state->0.settings.restart_on_eos || fallback_source
    }

    /// What `handle_source_eos` does. A pad that feeds no branch of the
    /// source changes nothing. Nor does the pad of a still image, whose
    /// end-of-stream is swallowed. Where the end-of-stream restarts the
    /// source, it is handled as a source error. Else it is passed on into
    /// the switches.
    pub open spec fn eos_step(self, pad: PadId, fallback_source: bool) -> Step {
        match self.state {
            Some(state) if kind_of_pad(state, pad, fallback_source) is Some => {
                let kind = kind_of_pad(state, pad, fallback_source)->0;
                if state.branch_of(kind, fallback_source)->0.is_image {
                    self.stay()
                } else if state.settings.restart_on_eos || fallback_source {
                    let failed = self.source_error_step(RetryReason::Eos, fallback_source);
                    Step {
                        next: failed.next,
                        actions: failed.actions.push(Action::NotifyStatistics),
                    }
                } else {
                    Step { next: self, actions: forward_eos_actions(state, kind) }
                }
            },
            _ => self.stay(),
        }
    }

    /// Noting a new pad keeps a supervisor well formed.
    pub proof fn lemma_pad_added_keeps_wf(
        self,
        pad: PadId,
        kind: Option<StreamKind>,
        is_image: bool,
        fallback_source: bool,
    )
        requires
            self.wf(),
        ensures
            self.pad_added_step(pad, kind, is_image, fallback_source).next.wf(),
    {
        if self.state is Some && self.state->0.source_of(fallback_source) is Some {
            let state = self.state->0;
            let source = state.source_of(fallback_source)->0;
            state.lemma_source_of(fallback_source);
            state.lemma_with_source(fallback_source, with_image(source, is_image));
        }
    }

    /// Recording a branch keeps a supervisor well formed.
    pub proof fn lemma_pad_linked_keeps_wf(
        self,
        pad: PadId,
        kind: StreamKind,
        is_image: bool,
        fallback_source: bool,
    )
        requires
            self.wf(),
        ensures
            self.pad_linked_step(pad, kind, is_image, fallback_source).next.wf(),
    {
        if self.state is Some && has_room(self.state->0, kind, fallback_source) {
            let state = self.state->0;
            state.lemma_source_of(fallback_source);
            state.lemma_with_branch(
                kind,
                fallback_source,
                Some(
                    StreamBranch {
                        source_srcpad: pad,
                        source_srcpad_block: Some(
                            Block { probe: ProbeId(self.next_handle), running_time: None },
                        ),
                        is_image,
                    },
                ),
            );
        }
    }

    /// Blocking a branch keeps a supervisor well formed.
    pub proof fn lemma_add_probe_keeps_wf(self, kind: StreamKind, fallback_source: bool)
        requires
            self.wf(),
        ensures
            self.add_probe_step(kind, fallback_source).next.wf(),
    {
        if self.state is Some {
            self.state->0.lemma_with_block(
                kind,
                fallback_source,
                Some(Block { probe: ProbeId(self.next_handle), running_time: None }),
            );
        }
    }

    fn find_by_pad(state: &State, pad: PadId, fallback_source: bool) -> (kind: Option<StreamKind>)
        ensures
            kind == kind_of_pad(*state, pad, fallback_source),
    {
        match state.branch(StreamKind::Audio, fallback_source) {
            Some(branch) => {
                if branch.source_srcpad.0 == pad.0 {
                    return Some(StreamKind::Audio);
                }
            },
            None => {},
        }
        match state.branch(StreamKind::Video, fallback_source) {
            Some(branch) => {
                if branch.source_srcpad.0 == pad.0 {
                    return Some(StreamKind::Video);
                }
            },
            None => {},
        }
        None
    }

    fn find_by_probe(
        state: &State,
        probe: ProbeId,
        fallback_source: bool,
    ) -> (kind: Option<StreamKind>)
        ensures
            kind == kind_of_probe(*state, probe, fallback_source),
    {
        match state.block(StreamKind::Audio, fallback_source) {
            Some(block) => {
                if block.probe.0 == probe.0 {
                    return Some(StreamKind::Audio);
                }
            },
            None => {},
        }
        match state.block(StreamKind::Video, fallback_source) {
            Some(block) => {
                if block.probe.0 == probe.0 {
                    return Some(StreamKind::Video);
                }
            },
            None => {},
        }
        None
    }

    fn is_room(state: &State, kind: StreamKind, fallback_source: bool) -> (room: bool)
        ensures
            room == has_room(*state, kind, fallback_source),
    {
        state.source(fallback_source).is_some() && state.stream(kind).is_some() && state.branch(
            kind,
            fallback_source,
        ).is_none()
    }

    /// The preference of a branch at its switch.
    pub fn priority(fallback_source: bool) -> (p: u32)
        ensures
            p == spec_priority(fallback_source),
    {
        if fallback_source {
            1
        } else {
            0
        }
    }

    fn pad_added(
        &mut self,
        pad: PadId,
        kind: Option<StreamKind>,
        is_image: bool,
        fallback_source: bool,
    ) -> (actions: Vec<Action>)
        ensures
            *final(self) == old(self).pad_added_step(pad, kind, is_image, fallback_source).next,
            actions@ == old(self).pad_added_step(pad, kind, is_image, fallback_source).actions,
            old(self).wf() ==> final(self).wf(),
    {
        proof {
            if self.wf() {
                self.lemma_pad_added_keeps_wf(pad, kind, is_image, fallback_source);
            }
        }
        let mut state = match self.state {
            None => {
                return Vec::new();
            },
            Some(state) => state,
        };
        let mut source = match state.source(fallback_source) {
            None => {
                return Vec::new();
            },
            Some(source) => source,
        };
        let room = match kind {
            Some(kind) => Self::is_room(&state, kind, fallback_source),
            None => false,
        };
        let max_size_time = queue_max_size_time(state.settings.min_latency);
        let mut actions: Vec<Action> = Vec::new();
        if is_image {
            actions = cancel_timers(&mut source);
            source.is_image = true;
        }
        state.set_source(fallback_source, source);
        self.state = Some(state);
        match kind {
            Some(kind) => {
                if room {
                    actions.push(
                        Action::LinkBranch {
                            pad,
                            kind,
                            fallback_source,
                            is_image,
                            max_size_time,
                            priority: Self::priority(fallback_source),
                        },
                    );
                }
            },
            None => {},
        }
        actions
    }

    /// Handles a new pad of a source. The pad's kind is found from its
    /// name and, failing that, from the name of its media type; whether it
    /// is a still image, from the media type that its stream-start
    /// announced. The host is asked to build the chain behind the pad if
    /// the pad is of an enabled kind that has no branch from this source
    /// yet.
    pub fn handle_source_pad_added(
        &mut self,
        pad: PadId,
        pad_name: &str,
        media_type: Option<&str>,
        stream_media_type: Option<&str>,
        fallback_source: bool,
    ) -> (actions: Vec<Action>)
        ensures
            *final(self) == old(self).pad_added_step(
                pad,
                spec_classify_pad(pad_name.spec_bytes(), bytes_of(media_type)),
                spec_is_image(bytes_of(stream_media_type)),
                fallback_source,
            ).next,
            actions@ == old(self).pad_added_step(
                pad,
                spec_classify_pad(pad_name.spec_bytes(), bytes_of(media_type)),
                spec_is_image(bytes_of(stream_media_type)),
                fallback_source,
            ).actions,
            old(self).wf() ==> final(self).wf(),
    {
        let image = is_image(stream_media_type);
        let kind = classify_pad(pad_name, media_type);
        self.pad_added(pad, kind, image, fallback_source)
    }

    /// Records the branch behind a source pad, once the host has built and
    /// linked its chain, and has the branch's output blocked.
    pub fn handle_source_pad_linked(
        &mut self,
        pad: PadId,
        kind: StreamKind,
        is_image: bool,
        fallback_source: bool,
    ) -> (actions: Vec<Action>)
        ensures
            *final(self) == old(self).pad_linked_step(pad, kind, is_image, fallback_source).next,
            actions@ == old(self).pad_linked_step(pad, kind, is_image, fallback_source).actions,
            old(self).wf() ==> final(self).wf(),
    {
        proof {
            if self.wf() {
                self.lemma_pad_linked_keeps_wf(pad, kind, is_image, fallback_source);
            }
        }
        let mut state = match self.state {
            None => {
                return Vec::new();
            },
            Some(state) => state,
        };
        if !Self::is_room(&state, kind, fallback_source) {
            return Vec::new();
        }
        let probe = ProbeId(self.next_id());
        state.set_branch(
            kind,
            fallback_source,
            Some(
                StreamBranch {
                    source_srcpad: pad,
                    source_srcpad_block: Some(Block { probe, running_time: None }),
                    is_image,
                },
            ),
        );
        self.state = Some(state);
        let mut actions: Vec<Action> = Vec::new();
        actions.push(Action::AddEosProbe { pad, fallback_source });
        actions.push(Action::AddPadProbe { probe, kind, fallback_source });
        actions.push(Action::NotifyStatus);
        actions
    }

    /// Blocks the output of a branch that exists and is not blocked.
    pub fn add_pad_probe(
        &mut self,
        kind: StreamKind,
        fallback_source: bool,
    ) -> (actions: Vec<Action>)
        ensures
            *final(self) == old(self).add_probe_step(kind, fallback_source).next,
            actions@ == old(self).add_probe_step(kind, fallback_source).actions,
            old(self).wf() ==> final(self).wf(),
    {
        proof {
            if self.wf() {
                self.lemma_add_probe_keeps_wf(kind, fallback_source);
            }
        }
        let mut state = match self.state {
            None => {
                return Vec::new();
            },
            Some(state) => state,
        };
        if state.branch(kind, fallback_source).is_none() || state.block(
            kind,
            fallback_source,
        ).is_some() {
            return Vec::new();
        }
        let probe = ProbeId(self.next_id());
        state.set_block(kind, fallback_source, Some(Block { probe, running_time: None }));
        self.state = Some(state);
        let mut actions: Vec<Action> = Vec::new();
        actions.push(Action::AddPadProbe { probe, kind, fallback_source });
        actions
    }

    /// Handles the first buffer or gap at a blocked pad.
    pub fn handle_pad_blocked(
        &mut self,
        probe: ProbeId,
        fallback_source: bool,
        sample: BlockSample,
        obs: Observation,
    ) -> (result: Result<Vec<Action>, BlockError>)
        ensures
            match result {
                Ok(actions) => !old(self).pad_blocked_fails(probe, fallback_source, sample)
                    && *final(self) == old(self).pad_blocked_step(
                    probe,
                    fallback_source,
                    sample,
                    obs,
                ).next && actions@ == old(self).pad_blocked_step(
                    probe,
                    fallback_source,
                    sample,
                    obs,
                ).actions,
                Err(e) => old(self).pad_blocked_fails(probe, fallback_source, sample) && e
                    == BlockError::NoTimeSegment && *final(self) == *old(self),
            },
            old(self).wf() ==> final(self).wf(),
    {
        let mut state = match self.state {
            None => {
                return Ok(Vec::new());
            },
            Some(state) => state,
        };
        let source = match state.source(fallback_source) {
            None => {
                return Ok(Vec::new());
            },
            Some(source) => source,
        };
        let kind = match Self::find_by_probe(&state, probe, fallback_source) {
            None => {
                return Ok(Vec::new());
            },
            Some(kind) => kind,
        };
        proof {
            state.lemma_with_block(kind, fallback_source, None);
        }
        if source.is_live {
            state.set_block(kind, fallback_source, None);
            self.state = Some(state);
            let mut actions: Vec<Action> = Vec::new();
            actions.push(Action::RemovePadProbe { probe });
            actions.push(Action::NotifyStatus);
            return Ok(actions);
        }
        match sample {
            BlockSample::NoSegment => Ok(Vec::new()),
            BlockSample::NoTimeSegment => Err(BlockError::NoTimeSegment),
            BlockSample::RunningTime(running_time) => {
                proof {
                    state.lemma_with_block(
                        kind,
                        fallback_source,
                        Some(Block { probe, running_time }),
                    );
                }
                state.set_block(kind, fallback_source, Some(Block { probe, running_time }));
                self.state = Some(state);
                let mut actions = self.unblock_pads(fallback_source, obs);
                actions.push(Action::NotifyStatus);
                Ok(actions)
            },
        }
    }

    /// Handles the removal of a pad of a source.
    pub fn handle_source_pad_removed(
        &mut self,
        pad: PadId,
        fallback_source: bool,
        obs: Observation,
    ) -> (actions: Vec<Action>)
        ensures
            *final(self) == old(self).pad_removed_step(pad, fallback_source, obs).next,
            actions@ == old(self).pad_removed_step(pad, fallback_source, obs).actions,
            old(self).wf() ==> final(self).wf(),
    {
        let mut state = match self.state {
            None => {
                return Vec::new();
            },
            Some(state) => state,
        };
        if state.source(fallback_source).is_none() {
            return Vec::new();
        }
        let kind = match Self::find_by_pad(&state, pad, fallback_source) {
            None => {
                return Vec::new();
            },
            Some(kind) => kind,
        };
        proof {
            state.lemma_with_branch(kind, fallback_source, None);
        }
        let mut actions = Self::remove_branch_commands(&state, kind, fallback_source);
        state.set_branch(kind, fallback_source, None);
        self.state = Some(state);
        let mut released = self.unblock_pads(fallback_source, obs);
        actions.append(&mut released);
        actions.push(Action::NotifyStatus);
        actions
    }

    fn forward_eos(state: &State, kind: StreamKind) -> (actions: Vec<Action>)
        ensures
            actions@ == forward_eos_actions(*state, kind),
    {
        let mut actions: Vec<Action> = Vec::new();
        if state.stream(kind).is_some() {
            actions.push(Action::SendEosToSwitch { kind });
        }
        let mut other: Vec<Action> = Vec::new();
        if state.stream(kind.other()).is_some() && state.branch(kind.other(), false).is_none() {
            other.push(Action::SendEosToSwitch { kind: kind.other() });
        }
        actions.append(&mut other);
        actions
    }

    /// Handles an end-of-stream on a pad of a source. The result says
    /// whether the host is to drop the event; else it lets it pass. The
    /// end-of-stream of a still image is always dropped and never restarts
    /// anything.
    pub fn handle_source_eos(&mut self, pad: PadId, fallback_source: bool) -> (result: (
        bool,
        Vec<Action>,
    ))
        ensures
            result.0 == old(self).eos_dropped(pad, fallback_source),
            *final(self) == old(self).eos_step(pad, fallback_source).next,
            result.1@ == old(self).eos_step(pad, fallback_source).actions,
            old(self).wf() ==> final(self).wf(),
    {
        let state = match self.state {
            None => {
                return (false, Vec::new());
            },
            Some(state) => state,
        };
        let kind = match Self::find_by_pad(&state, pad, fallback_source) {
            None => {
                return (false, Vec::new());
            },
            Some(kind) => kind,
        };
        let branch = match state.branch(kind, fallback_source) {
            None => {
                return (false, Vec::new());
            },
            Some(branch) => branch,
        };
        if branch.is_image {
            (true, Vec::new())
        } else if state.settings.restart_on_eos || fallback_source {
            let mut actions = self.handle_source_error(RetryReason::Eos, fallback_source);
            actions.push(Action::NotifyStatistics);
            (true, actions)
        } else {
            (false, Self::forward_eos(&state, kind))
        }
    }
}

} // verus!
