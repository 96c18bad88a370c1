//! The commands that the supervisor hands to the host pipeline. The host
//! carries them out in the order given: those that cannot lead back into
//! the supervisor at once, the others after it has released the
//! supervisor's lock.

use crate::types::{PadId, ProbeId, Source, StateChange, StreamKind, TimerId};
use vstd::prelude::*;

verus! {

/// A step of the restart sequence that the host has to call back.
#[derive(Clone, Copy, Debug, PartialEq, Eq, Structural)]
pub enum Continuation {
    /// Call `drain_source` from another thread, after the current call has
    /// returned.
    Drain { fallback_source: bool },
    /// Call `cool_down_source` once the commands before this one are done.
    CoolDown { fallback_source: bool },
}

/// One command for the host pipeline.
#[derive(Clone, Copy, Debug, PartialEq, Eq, Structural)]
pub enum Action {
    /// Tell observers that the status may have changed.
    NotifyStatus,
    /// Tell observers that the statistics have changed.
    NotifyStatistics,
    /// Announce that no more output pads will appear.
    NoMorePads,
    /// Build the container of the primary source and add it.
    CreateMainInput { source: Source, buffer_duration: i64 },
    /// Build the container of the fallback source and add it.
    CreateFallbackInput { buffer_duration: i64 },
    /// Build the generator of silence or black and add it.
    CreateDummySource { kind: StreamKind, max_size_time: u64 },
    /// Build the switch of one kind with its output pad, and link the dummy
    /// source to it with the lowest preference.
    CreateStream { kind: StreamKind, timeout: u64, min_latency: u64, immediate_fallback: bool },
    /// Remove the primary source's container and build a new one in its
    /// place; let go of the old one only after the lock is released.
    RecreateMainInput { source: Source, buffer_duration: i64 },
    /// Build the chain from a new source pad to the switch; report success
    /// with `handle_source_pad_linked`.
    LinkBranch {
        pad: PadId,
        kind: StreamKind,
        fallback_source: bool,
        is_image: bool,
        max_size_time: u64,
        priority: u32,
    },
    /// Watch a source pad for end-of-stream, report it with
    /// `handle_source_eos`, and drop the event if that says so.
    AddEosProbe { pad: PadId, fallback_source: bool },
    /// Block the output of a branch and report the first buffer or gap with
    /// `handle_pad_blocked`.
    AddPadProbe { probe: ProbeId, kind: StreamKind, fallback_source: bool },
    /// Shift the pad that a probe blocks by a signed offset.
    SetPadOffset { probe: ProbeId, offset: i64 },
    /// Remove a blocking probe, which lets data through.
    RemovePadProbe { probe: ProbeId },
    /// Tear down the chain of a branch, release its switch input if the
    /// switch still owns it, and remove the branch's pad from the source's
    /// container.
    RemoveBranch { kind: StreamKind, fallback_source: bool },
    /// Remove the switch of one kind and its output pad.
    RemoveStream { kind: StreamKind },
    /// Take the application's source element out of its container, so that
    /// it can be used again.
    ReleaseSourceElement,
    /// Remove a source's container.
    RemoveSource { fallback_source: bool },
    /// Shut down and remove a dummy source.
    RemoveDummySource { kind: StreamKind },
    /// Drop end-of-stream events on every output pad of a source's
    /// container from now on.
    DropEos { fallback_source: bool },
    /// Send flush-start into a branch's switch input and release the input.
    FlushBranch { kind: StreamKind, fallback_source: bool },
    /// Take a source through a lifecycle transition and report how it went
    /// with `source_state_changed`.
    ChangeSourceState { fallback_source: bool, transition: StateChange },
    /// Set a source to the Null state, whatever comes of it.
    ShutDownSource { fallback_source: bool },
    /// Bring a source to the state of its parent and report how it went
    /// with `source_restarted`.
    SyncSourceState { fallback_source: bool },
    /// Arm a one-shot timer that fires after `delay` nanoseconds; report it
    /// with `handle_timeout`, from another thread.
    ScheduleTimer { timer: TimerId, delay: u64 },
    /// Disarm a timer.
    UnscheduleTimer { timer: TimerId },
    /// Send end-of-stream to a source's container.
    SendEosToSource { fallback_source: bool },
    /// Send end-of-stream to a dummy source.
    SendEosToDummySource { kind: StreamKind },
    /// Send end-of-stream into the queue of a branch.
    SendEosToBranch { kind: StreamKind, fallback_source: bool },
    /// Send end-of-stream into every input of a switch, from another
    /// thread.
    SendEosToSwitch { kind: StreamKind },
    /// Run a step of the restart sequence.
    Continue(Continuation),
}

impl Action {
    /// Whether the command can lead back into the supervisor: it changes
    /// the state of elements, adds or removes them, sends events into them,
    /// notifies observers or runs a step of the restart sequence. Such a
    /// command is to be carried out only after the supervisor's lock is
    /// released. Every other command only touches probes, pad offsets,
    /// timers and elements that nothing is linked to yet, and is carried
    /// out at once, while the lock is held, so that commands of different
    /// threads cannot overtake each other.
    pub open spec fn spec_reenters(self) -> bool {
        match self {
            Action::NotifyStatus
            | Action::NotifyStatistics
            | Action::NoMorePads
            | Action::RemoveBranch { .. }
            | Action::RemoveStream { .. }
            | Action::ReleaseSourceElement
            | Action::RemoveSource { .. }
            | Action::RemoveDummySource { .. }
            | Action::FlushBranch { .. }
            | Action::ChangeSourceState { .. }
            | Action::ShutDownSource { .. }
            | Action::SyncSourceState { .. }
            | Action::SendEosToSource { .. }
            | Action::SendEosToDummySource { .. }
            | Action::SendEosToBranch { .. }
            | Action::SendEosToSwitch { .. }
            | Action::Continue(_) => true,
            _ => false,
        }
    }

    /// Decides whether the command can lead back into the supervisor.
    pub fn reenters(&self) -> (b: bool)
        ensures
            b == self.spec_reenters(),
    {
        match self {
            Action::NotifyStatus
            | Action::NotifyStatistics
            | Action::NoMorePads
            | Action::RemoveBranch { .. }
            | Action::RemoveStream { .. }
            | Action::ReleaseSourceElement
            | Action::RemoveSource { .. }
            | Action::RemoveDummySource { .. }
            | Action::FlushBranch { .. }
            | Action::ChangeSourceState { .. }
            | Action::ShutDownSource { .. }
            | Action::SyncSourceState { .. }
            | Action::SendEosToSource { .. }
            | Action::SendEosToDummySource { .. }
            | Action::SendEosToBranch { .. }
            | Action::SendEosToSwitch { .. }
            | Action::Continue(_) => true,
            _ => false,
        }
    }
}

/// The commands of a list that can lead back into the supervisor, or those
/// that cannot, in the order of the list.
pub open spec fn selected(actions: Seq<Action>, reentering: bool) -> Seq<Action>
    decreases actions.len(),
{
    if actions.len() == 0 {
        Seq::empty()
    } else if actions.last().spec_reenters() == reentering {
        selected(actions.drop_last(), reentering).push(actions.last())
    } else {
        selected(actions.drop_last(), reentering)
    }
}

/// Splits a list of commands in two: those to carry out at once, while the
/// supervisor's lock is held, and those to carry out after it is released.
/// Each part keeps the order of the list.
pub fn split_actions(actions: &Vec<Action>) -> (parts: (Vec<Action>, Vec<Action>))
    ensures
        parts.0@ == selected(actions@, false),
        parts.1@ == selected(actions@, true),
{
    let mut at_once: Vec<Action> = Vec::new();
    let mut later: Vec<Action> = Vec::new();
    let mut i: usize = 0;
    while i < actions.len()
        invariant
            i <= actions.len(),
            at_once@ == selected(actions@.take(i as int), false),
            later@ == selected(actions@.take(i as int), true),
        decreases actions.len() - i,
    {
        proof {
            let next = actions@.take(i + 1);
            assert(next.drop_last() == actions@.take(i as int));
            assert(next.last() == actions@[i as int]);
        }
        let action = actions[i];
        if action.reenters() {
            later.push(action);
        } else {
            at_once.push(action);
        }
        i += 1;
    }
    proof {
        assert(actions@.take(actions.len() as int) == actions@);
    }
    (at_once, later)
}

/// A list with one more command holds what the list held, and that command.
pub proof fn lemma_push_contains(actions: Seq<Action>, last: Action, wanted: Action)
    ensures
        actions.push(last).contains(wanted) <==> actions.contains(wanted) || last == wanted,
{
    if actions.contains(wanted) {
        let i = choose|i: int| 0 <= i < actions.len() && actions[i] == wanted;
        assert(actions.push(last)[i] == wanted);
    }
    if last == wanted {
        assert(actions.push(last)[actions.len() as int] == wanted);
    }
    if actions.push(last).contains(wanted) {
        let i = choose|i: int| 0 <= i < actions.push(last).len() && actions.push(last)[i] == wanted;
        if i < actions.len() {
            assert(actions[i] == wanted);
        }
    }
}

/// Two lists put together hold what either of them held.
pub proof fn lemma_add_contains(first: Seq<Action>, second: Seq<Action>, wanted: Action)
    ensures
        (first + second).contains(wanted) <==> first.contains(wanted) || second.contains(wanted),
{
    if first.contains(wanted) {
        let i = choose|i: int| 0 <= i < first.len() && first[i] == wanted;
        assert((first + second)[i] == wanted);
    }
    if second.contains(wanted) {
        let i = choose|i: int| 0 <= i < second.len() && second[i] == wanted;
        assert((first + second)[first.len() + i] == wanted);
    }
    if (first + second).contains(wanted) {
        let i = choose|i: int| 0 <= i < (first + second).len() && (first + second)[i] == wanted;
        if i < first.len() {
            assert(first[i] == wanted);
        } else {
            assert(second[i - first.len()] == wanted);
        }
    }
}

} // verus!
