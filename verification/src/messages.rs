//! Messages from the sources and events from the application: buffering
//! reports, stream collections, errors, and the element-level
//! end-of-stream.

use crate::action::Action;
use crate::state::State;
use crate::supervisor::{FallbackSrc, Step};
use crate::types::{Observation, Origin, RetryReason, StreamCollection, StreamKind, StreamType};
use vstd::prelude::*;

verus! {

/// A message of the pipeline, as far as the supervisor reads it.
#[derive(Debug)]
pub enum Message {
    /// A source reports how full its buffers are, in percent.
    Buffering { origin: Option<Origin>, percent: i32 },
    /// A source announces the streams it has selected.
    StreamsSelected { origin: Option<Origin>, streams: Vec<StreamType> },
    /// An element reports an error.
    Error { origin: Option<Origin> },
    /// Anything else.
    Other,
}

/// An event that the application sends to the element.
#[derive(Clone, Copy, Debug, PartialEq, Eq, Structural)]
pub enum Event {
    Eos,
    Other,
}

/// The source that a buffering report or a stream collection is taken to
/// come from: the fallback source if there is one and the message comes
/// from inside it; else the primary source if the message comes from inside
/// that. A message from anywhere else, or without a sender, belongs to no
/// source.
pub open spec fn spec_attribute(state: State, origin: Option<Origin>) -> Option<bool> {
    match origin {
        None => None,
        Some(origin) => if state.fallback_source is Some && origin.in_fallback {
            Some(true)
        } else if origin.in_main {
            Some(false)
        } else {
            None
        },
    }
}

/// The source that an error is taken to come from: the primary source if
/// the error comes from inside it; else the fallback source if there is one
/// and the error comes from inside it.
pub open spec fn spec_attribute_error(state: State, origin: Option<Origin>) -> Option<bool> {
    match origin {
        None => None,
        Some(origin) => if origin.in_main {
            Some(false)
        } else if state.fallback_source is Some && origin.in_fallback {
            Some(true)
        } else {
            None
        },
    }
}

/// The command that sends end-of-stream into the queue of a branch, if the
/// branch exists.
pub open spec fn eos_to_branch(state: State, kind: StreamKind, fallback_source: bool) -> Seq<
    Action,
> {
    if state.branch_of(kind, fallback_source) is Some {
        seq![Action::SendEosToBranch { kind, fallback_source }]
    } else {
        Seq::empty()
    }
}

/// The commands that send an element-level end-of-stream on: to the
/// primary and the fallback source, to the audio and the video dummy
/// source, and into every branch, video first.
pub open spec fn send_eos_actions(state: State) -> Seq<Action> {
    seq![Action::SendEosToSource { fallback_source: false }] + (if state.fallback_source
        is Some {
        seq![Action::SendEosToSource { fallback_source: true }]
    } else {
        Seq::empty()
    }) + (if state.audio_dummy_source {
        seq![Action::SendEosToDummySource { kind: StreamKind::Audio }]
    } else {
        Seq::empty()
    }) + (if state.video_dummy_source {
        seq![Action::SendEosToDummySource { kind: StreamKind::Video }]
    } else {
        Seq::empty()
    }) + eos_to_branch(state, StreamKind::Video, false) + eos_to_branch(
        state,
        StreamKind::Video,
        true,
    ) + eos_to_branch(state, StreamKind::Audio, false) + eos_to_branch(
        state,
        StreamKind::Audio,
        true,
    )
}

impl FallbackSrc {
    /// What a buffering report of a source does, where no restart of the
    /// source is pending. The percentage and the time are noted. Below a
    /// hundred, the source's branches are blocked, audio first. At a
    /// hundred, the source's pads are released if they can be. Either way
    /// status and statistics are announced.
    pub open spec fn buffering_step(
        self,
        fallback_source: bool,
        percent: i32,
        obs: Observation,
    ) -> Step {
        match self.state {
            Some(state) if state.source_of(fallback_source) is Some && !state.source_of(
                fallback_source,
            )->0.pending_restart => {
                let noted = state.with_stats(
                    state.stats.with_buffering(fallback_source, percent),
                ).with_last_update(fallback_source, Some(obs.now));
                if percent < 100 {
                    let audio = self.with_state(noted).add_probe_step(
                        StreamKind::Audio,
                        fallback_source,
                    );
                    let video = audio.next.add_probe_step(StreamKind::Video, fallback_source);
                    Step {
                        next: video.next,
                        actions: (audio.actions + video.actions).push(Action::NotifyStatus).push(
                            Action::NotifyStatistics,
                        ),
                    }
                } else {
                    let released = self.with_state(noted).unblock_step(fallback_source, obs);
                    Step {
                        next: released.next,
                        actions: released.actions.push(Action::NotifyStatus).push(
                            Action::NotifyStatistics,
                        ),
                    }
                }
            },
            _ => self.stay(),
        }
    }

    /// What `handle_buffering` does: the report is handled for the source
    /// that it is taken to come from, if any.
    pub open spec fn handle_buffering_step(
        self,
        origin: Option<Origin>,
        percent: i32,
        obs: Observation,
    ) -> Step {
        match self.state {
            Some(state) => match spec_attribute(state, origin) {
                Some(fallback_source) => self.buffering_step(fallback_source, percent, obs),
                None => self.stay(),
            },
            None => self.stay(),
        }
    }

    /// What a stream collection of a source does, where the source exists:
    /// the collection is noted, the source's branches are blocked again,
    /// video first, the source's pads are released if they can be, and the
    /// status is announced.
    pub open spec fn streams_step(
        self,
        fallback_source: bool,
        streams: StreamCollection,
        obs: Observation,
    ) -> Step {
        match self.state {
            Some(state) if state.source_of(fallback_source) is Some => {
                let source = state.source_of(fallback_source)->0;
                let video = self.with_state(
                    state.with_source(
                        fallback_source,
                        crate::state::SourceBin { streams: Some(streams), ..source },
                    ),
                ).add_probe_step(StreamKind::Video, fallback_source);
                let audio = video.next.add_probe_step(StreamKind::Audio, fallback_source);
                let released = audio.next.unblock_step(fallback_source, obs);
                Step {
                    next: released.next,
                    actions: (video.actions + audio.actions + released.actions).push(
                        Action::NotifyStatus,
                    ),
                }
            },
            _ => self.stay(),
        }
    }

    /// What `handle_streams_selected` does: the collection is handled for
    /// the source that it is taken to come from, if any.
    pub open spec fn handle_streams_selected_step(
        self,
        origin: Option<Origin>,
        streams: Seq<StreamType>,
        obs: Observation,
    ) -> Step {
        match self.state {
            Some(state) => match spec_attribute(state, origin) {
                Some(fallback_source) => self.streams_step(
                    fallback_source,
                    StreamCollection::spec_from_types(streams),
                    obs,
                ),
                None => self.stay(),
            },
            None => self.stay(),
        }
    }

    /// Whether `handle_error` takes an error upon itself: it does while
    /// running, if the error comes from one of the two sources.
    pub open spec fn error_handled(self, origin: Option<Origin>) -> bool {
        self.state is Some && spec_attribute_error(self.state->0, origin) is Some
    }

    /// What `handle_error` does: an error from one of the sources is
    /// handled as a source error, and status and statistics are announced.
    pub open spec fn handle_error_step(self, origin: Option<Origin>) -> Step {
        match self.state {
            Some(state) => match spec_attribute_error(state, origin) {
                Some(fallback_source) => {
                    let failed = self.source_error_step(RetryReason::Error, fallback_source);
                    Step {
                        next: failed.next,
                        actions: failed.actions.push(Action::NotifyStatus).push(
                            Action::NotifyStatistics,
                        ),
                    }
                },
                None => self.stay(),
            },
            None => self.stay(),
        }
    }

    /// What `send_event` asks of the host: an end-of-stream is sent on to
    /// everything that a running supervisor has built; any other event asks
    /// for nothing.
    pub open spec fn send_event_actions(self, event: Event) -> Seq<Action> {
        match (event, self.state) {
            (Event::Eos, Some(state)) => send_eos_actions(state),
            _ => Seq::empty(),
        }
    }

    fn attribute(state: &State, origin: Option<Origin>) -> (source: Option<bool>)
        ensures
            source == spec_attribute(*state, origin),
    {
        match origin {
            None => None,
            Some(origin) => if state.fallback_source.is_some() && origin.in_fallback {
                Some(true)
            } else if origin.in_main {
                Some(false)
            } else {
                None
            },
        }
    }

    fn attribute_error(state: &State, origin: Option<Origin>) -> (source: Option<bool>)
        ensures
            source == spec_attribute_error(*state, origin),
    {
        match origin {
            None => None,
            Some(origin) => if origin.in_main {
                Some(false)
            } else if state.fallback_source.is_some() && origin.in_fallback {
                Some(true)
            } else {
                None
            },
        }
    }

    fn buffering(
        &mut self,
        fallback_source: bool,
        percent: i32,
        obs: Observation,
    ) -> (actions: Vec<Action>)
        ensures
            *final(self) == old(self).buffering_step(fallback_source, percent, obs).next,
            actions@ == old(self).buffering_step(fallback_source, percent, obs).actions,
            old(self).wf() ==> final(self).wf(),
    {
        let mut state = match self.state {
            None => {
                return Vec::new();
            },
            Some(state) => state,
        };
        match state.source(fallback_source) {
            None => {
                return Vec::new();
            },
            Some(source) => {
                if source.pending_restart {
                    return Vec::new();
                }
            },
        }
        state.stats.set_buffering(fallback_source, percent);
        proof {
            state.lemma_with_last_update(fallback_source, Some(obs.now));
        }
        state.set_last_update(fallback_source, Some(obs.now));
        if percent < 100 {
            self.state = Some(state);
            let mut actions = self.add_pad_probe(StreamKind::Audio, fallback_source);
            let mut video = self.add_pad_probe(StreamKind::Video, fallback_source);
            actions.append(&mut video);
            actions.push(Action::NotifyStatus);
            actions.push(Action::NotifyStatistics);
            actions
        } else {
            self.state = Some(state);
            let mut actions = self.unblock_pads(fallback_source, obs);
            actions.push(Action::NotifyStatus);
            actions.push(Action::NotifyStatistics);
            actions
        }
    }

    /// Handles a buffering report.
    pub fn handle_buffering(
        &mut self,
        origin: Option<Origin>,
        percent: i32,
        obs: Observation,
    ) -> (actions: Vec<Action>)
        ensures
            *final(self) == old(self).handle_buffering_step(origin, percent, obs).next,
            actions@ == old(self).handle_buffering_step(origin, percent, obs).actions,
            old(self).wf() ==> final(self).wf(),
    {
        let state = match self.state {
            None => {
                return Vec::new();
            },
            Some(state) => state,
        };
        match Self::attribute(&state, origin) {
            Some(fallback_source) => self.buffering(fallback_source, percent, obs),
            None => Vec::new(),
        }
    }

    fn streams(
        &mut self,
        fallback_source: bool,
        streams: StreamCollection,
        obs: Observation,
    ) -> (actions: Vec<Action>)
        ensures
            *final(self) == old(self).streams_step(fallback_source, streams, obs).next,
            actions@ == old(self).streams_step(fallback_source, streams, obs).actions,
            old(self).wf() ==> final(self).wf(),
    {
        let mut state = match self.state {
            None => {
                return Vec::new();
            },
            Some(state) => state,
        };
        let mut source = match state.source(fallback_source) {
            None => {
                return Vec::new();
            },
            Some(source) => source,
        };
        source.streams = Some(streams);
        proof {
            state.lemma_source_of(fallback_source);
            state.lemma_with_source(fallback_source, source);
        }
        state.set_source(fallback_source, source);
        self.state = Some(state);
        let mut actions = self.add_pad_probe(StreamKind::Video, fallback_source);
        let mut audio = self.add_pad_probe(StreamKind::Audio, fallback_source);
        actions.append(&mut audio);
        let mut released = self.unblock_pads(fallback_source, obs);
        actions.append(&mut released);
        actions.push(Action::NotifyStatus);
        actions
    }

    /// Handles the announcement of the streams that a source has selected.
    pub fn handle_streams_selected(
        &mut self,
        origin: Option<Origin>,
        streams: &Vec<StreamType>,
        obs: Observation,
    ) -> (actions: Vec<Action>)
        ensures
            *final(self) == old(self).handle_streams_selected_step(origin, streams@, obs).next,
            actions@ == old(self).handle_streams_selected_step(origin, streams@, obs).actions,
            old(self).wf() ==> final(self).wf(),
    {
        let state = match self.state {
            None => {
                return Vec::new();
            },
            Some(state) => state,
        };
        match Self::attribute(&state, origin) {
            Some(fallback_source) => {
                let collection = StreamCollection::from_types(streams);
                self.streams(fallback_source, collection, obs)
            },
            None => Vec::new(),
        }
    }

    /// Handles an error message. The result says whether the supervisor
    /// has taken the error upon itself; if not, the host passes it on.
    pub fn handle_error(&mut self, origin: Option<Origin>) -> (result: (bool, Vec<Action>))
        ensures
            result.0 == old(self).error_handled(origin),
            *final(self) == old(self).handle_error_step(origin).next,
            result.1@ == old(self).handle_error_step(origin).actions,
            old(self).wf() ==> final(self).wf(),
    {
        let state = match self.state {
            None => {
                return (false, Vec::new());
            },
            Some(state) => state,
        };
        match Self::attribute_error(&state, origin) {
            Some(fallback_source) => {
                let mut actions = self.handle_source_error(RetryReason::Error, fallback_source);
                actions.push(Action::NotifyStatus);
                actions.push(Action::NotifyStatistics);
                (true, actions)
            },
            None => (false, Vec::new()),
        }
    }

    /// Whether the host is to pass a message on: a buffering report and a
    /// stream collection are kept; an error is passed on unless the
    /// supervisor takes it upon itself; anything else is passed on.
    pub open spec fn message_forwarded(self, message: Message) -> bool {
        match message {
            Message::Buffering { .. } => false,
            Message::StreamsSelected { .. } => false,
            Message::Error { origin } => !self.error_handled(origin),
            Message::Other => true,
        }
    }

    /// What `handle_message` does: what the handler of the message's kind
    /// does.
    pub open spec fn handle_message_step(self, message: Message, obs: Observation) -> Step {
        match message {
            Message::Buffering { origin, percent } => self.handle_buffering_step(
                origin,
                percent,
                obs,
            ),
            Message::StreamsSelected { origin, streams } => self.handle_streams_selected_step(
                origin,
                streams@,
                obs,
            ),
            Message::Error { origin } => self.handle_error_step(origin),
            Message::Other => self.stay(),
        }
    }

    /// Handles a message of the pipeline. The result says whether the host
    /// is to pass the message on.
    pub fn handle_message(&mut self, message: &Message, obs: Observation) -> (result: (
        bool,
        Vec<Action>,
    ))
        ensures
            result.0 == old(self).message_forwarded(*message),
            *final(self) == old(self).handle_message_step(*message, obs).next,
            result.1@ == old(self).handle_message_step(*message, obs).actions,
            old(self).wf() ==> final(self).wf(),
    {
        match message {
            Message::Buffering { origin, percent } => (
                false,
                self.handle_buffering(*origin, *percent, obs),
            ),
            Message::StreamsSelected { origin, streams } => (
                false,
                self.handle_streams_selected(*origin, streams, obs),
            ),
            Message::Error { origin } => {
                let (handled, actions) = self.handle_error(*origin);
                (!handled, actions)
            },
            Message::Other => (true, Vec::new()),
        }
    }

    fn eos_to(state: &State, kind: StreamKind, fallback_source: bool, actions: &mut Vec<Action>)
        ensures
            final(actions)@ == old(actions)@ + eos_to_branch(*state, kind, fallback_source),
    {
        let mut branch: Vec<Action> = Vec::new();
        if state.branch(kind, fallback_source).is_some() {
            branch.push(Action::SendEosToBranch { kind, fallback_source });
        }
        actions.append(&mut branch);
    }

    /// Handles an event that the application sends to the element. The
    /// supervisor itself does not change.
    pub fn send_event(&self, event: Event) -> (actions: Vec<Action>)
        ensures
            actions@ == self.send_event_actions(event),
    {
        let state = match self.state {
            None => {
                return Vec::new();
            },
            Some(state) => state,
        };
        match event {
            Event::Other => {
                return Vec::new();
            },
            Event::Eos => {},
        }
        let mut actions: Vec<Action> = Vec::new();
        actions.push(Action::SendEosToSource { fallback_source: false });
        let mut part: Vec<Action> = Vec::new();
        if state.fallback_source.is_some() {
            part.push(Action::SendEosToSource { fallback_source: true });
        }
        actions.append(&mut part);
        if state.audio_dummy_source {
            part.push(Action::SendEosToDummySource { kind: StreamKind::Audio });
        }
        actions.append(&mut part);
        if state.video_dummy_source {
            part.push(Action::SendEosToDummySource { kind: StreamKind::Video });
        }
        actions.append(&mut part);
        Self::eos_to(&state, StreamKind::Video, false, &mut actions);
        Self::eos_to(&state, StreamKind::Video, true, &mut actions);
        Self::eos_to(&state, StreamKind::Audio, false, &mut actions);
        Self::eos_to(&state, StreamKind::Audio, true, &mut actions);
        actions
    }
}

} // verus!
