//! The transitions of the supervisor: every entry point that can change
//! it, as one value, so that something can be said of all of them at once.

use crate::pads::BlockSample;
use crate::supervisor::{FallbackSrc, Step};
use crate::types::{
    Observation, Origin, PadId, ProbeId, RetryReason, Settings, StateChange, StateChangeSuccess,
    StreamKind, StreamType, TimerId,
};
use vstd::prelude::*;

verus! {

/// One transition of the supervisor: one of its entry points that can
/// change it, with what the entry point is given.
pub enum Transition {
    SetSettings { settings: Settings },
    Start,
    Stop,
    ChangeSourceState { transition: StateChange, fallback_source: bool },
    SourceStateChanged {
        transition: StateChange,
        fallback_source: bool,
        result: Option<StateChangeSuccess>,
    },
    SourcePadAdded {
        pad: PadId,
        found: Option<StreamKind>,
        is_image: bool,
        fallback_source: bool,
    },
    SourcePadLinked { pad: PadId, kind: StreamKind, is_image: bool, fallback_source: bool },
    AddPadProbe { kind: StreamKind, fallback_source: bool },
    PadBlocked { probe: ProbeId, fallback_source: bool, sample: BlockSample },
    SourcePadRemoved { pad: PadId, fallback_source: bool },
    SourceEos { pad: PadId, fallback_source: bool },
    Buffering { origin: Option<Origin>, percent: i32 },
    StreamsSelected { origin: Option<Origin>, streams: Seq<StreamType> },
    Error { origin: Option<Origin> },
    SourceError { reason: RetryReason, fallback_source: bool },
    DrainSource { fallback_source: bool },
    CoolDownSource { fallback_source: bool },
    RestartSource { fallback_source: bool },
    SourceRestarted { fallback_source: bool, success: bool },
    ScheduleRestartTimeout { elapsed: u64, fallback_source: bool },
    RestartTimeout { timer: TimerId },
    Timeout { timer: TimerId },
    ActivePadChange,
    Unblock,
    UnblockPads { fallback_source: bool },
}

impl Transition {
    /// The timer whose firing the transition stands for, if it stands for
    /// one.
    pub open spec fn fired(self) -> Option<TimerId> {
        match self {
            Transition::RestartTimeout { timer } => Some(timer),
            Transition::Timeout { timer } => Some(timer),
            _ => None,
        }
    }
}

impl FallbackSrc {
    /// What a transition does: what the contract of its entry point says.
    pub open spec fn transition_step(self, transition: Transition, obs: Observation) -> Step {
        match transition {
            Transition::SetSettings { settings } => Step {
                next: FallbackSrc { settings, ..self },
                actions: Seq::empty(),
            },
            Transition::Start => if self.start_error() is None {
                self.start_step()
            } else {
                self.stay()
            },
            Transition::Stop => self.stop_step(),
            Transition::ChangeSourceState {
                transition,
                fallback_source,
            } => self.change_source_state_step(transition, fallback_source),
            Transition::SourceStateChanged {
                transition,
                fallback_source,
                result,
            } => self.source_state_changed_step(transition, fallback_source, result),
            Transition::SourcePadAdded {
                pad,
                found,
                is_image,
                fallback_source,
            } => self.pad_added_step(pad, found, is_image, fallback_source),
            Transition::SourcePadLinked {
                pad,
                kind,
                is_image,
                fallback_source,
            } => self.pad_linked_step(pad, kind, is_image, fallback_source),
            Transition::AddPadProbe { kind, fallback_source } => self.add_probe_step(
                kind,
                fallback_source,
            ),
            Transition::PadBlocked { probe, fallback_source, sample } => if self.pad_blocked_fails(
                probe,
                fallback_source,
                sample,
            ) {
                self.stay()
            } else {
                self.pad_blocked_step(probe, fallback_source, sample, obs)
            },
            Transition::SourcePadRemoved { pad, fallback_source } => self.pad_removed_step(
                pad,
                fallback_source,
                obs,
            ),
            Transition::SourceEos { pad, fallback_source } => self.eos_step(pad, fallback_source),
            Transition::Buffering { origin, percent } => self.handle_buffering_step(
                origin,
                percent,
                obs,
            ),
            Transition::StreamsSelected { origin, streams } => self.handle_streams_selected_step(
                origin,
                streams,
                obs,
            ),
            Transition::Error { origin } => self.handle_error_step(origin),
            Transition::SourceError { reason, fallback_source } => self.source_error_step(
                reason,
                fallback_source,
            ),
            Transition::DrainSource { fallback_source } => self.drain_step(fallback_source),
            Transition::CoolDownSource { fallback_source } => self.cool_down_step(fallback_source),
            Transition::RestartSource { fallback_source } => self.restart_step(fallback_source),
            Transition::SourceRestarted { fallback_source, success } => self.restarted_step(
                fallback_source,
                success,
            ),
            Transition::ScheduleRestartTimeout { elapsed, fallback_source } => self.schedule_step(
                elapsed,
                fallback_source,
            ),
            Transition::RestartTimeout { timer } => self.restart_timeout_step(timer, obs),
            Transition::Timeout { timer } => self.timeout_step(timer, obs),
            Transition::ActivePadChange => self.active_pad_change_step(obs),
            Transition::Unblock => self.unblock_signal_step(obs),
            Transition::UnblockPads { fallback_source } => self.unblock_step(fallback_source, obs),
        }
    }
}

} // verus!
