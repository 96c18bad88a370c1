//! The supervisor itself: its value, how it starts and stops, and what it
//! shows of itself.

use crate::action::{lemma_add_contains, Action};
use crate::state::{SourceBin, State, Stream};
use crate::time::{queue_max_size_time, spec_queue_max_size_time};
use crate::types::{
    count_up, spec_count_up, Settings, Source, StateChange, StateChangeSuccess, Stats, Status,
    StreamKind, TimerId,
};
use vstd::prelude::*;

verus! {

/// Why the supervisor could not start.
#[derive(Clone, Copy, Debug, PartialEq, Eq, Structural)]
pub enum StartError {
    /// It has started already.
    AlreadyStarted,
    /// Neither a URI nor a source element is configured.
    NoSource,
}

/// The fallback-source supervisor.
///
/// It holds the settings, the state while it runs, and the next handle that
/// it will give to a timer or a probe. Every entry point is to be called
/// with the supervisor's lock held. Of the commands it returns, those that
/// can lead back into the supervisor are to be carried out after the lock
/// is released, the others while it is held.
#[derive(Clone, Copy, Debug, PartialEq, Eq, Structural)]
pub struct FallbackSrc {
    pub settings: Settings,
    pub state: Option<State>,
    pub next_handle: u64,
}

impl Default for FallbackSrc {
    fn default() -> (src: FallbackSrc)
        ensures
            src == FallbackSrc::stopped(Settings::initial()),
    {
        FallbackSrc { settings: Settings::default(), state: None, next_handle: 0 }
    }
}

/// The outcome of one event in the model: the supervisor afterwards, and
/// the commands for the host.
pub struct Step {
    pub next: FallbackSrc,
    pub actions: Seq<Action>,
}

/// The command that disarms a timer, if there is one.
pub open spec fn unschedule(timer: Option<TimerId>) -> Seq<Action> {
    match timer {
        Some(timer) => seq![Action::UnscheduleTimer { timer }],
        None => Seq::empty(),
    }
}

/// The command that disarms a timer, if there is one, as a list.
pub fn unschedule_one(timer: Option<TimerId>) -> (actions: Vec<Action>)
    ensures
        actions@ == unschedule(timer),
{
    let mut actions: Vec<Action> = Vec::new();
    match timer {
        Some(timer) => {
            actions.push(Action::UnscheduleTimer { timer });
        },
        None => {},
    }
    actions
}

/// Appends the command that disarms a timer, if there is one.
pub fn push_unschedule(actions: &mut Vec<Action>, timer: Option<TimerId>)
    ensures
        final(actions)@ == old(actions)@ + unschedule(timer),
{
    match timer {
        Some(timer) => {
            actions.push(Action::UnscheduleTimer { timer });
        },
        None => {},
    }
}

/// The state right after a start with these settings and this source.
pub open spec fn initial_state(settings: Settings, source: Source) -> State {
    State {
        source: SourceBin::initial(),
        fallback_source: if settings.has_fallback_uri {
            Some(SourceBin::initial())
        } else {
            None
        },
        audio_dummy_source: settings.enable_audio,
        video_dummy_source: settings.enable_video,
        video_stream: if settings.enable_video {
            Some(Stream { main_branch: None, fallback_branch: None })
        } else {
            None
        },
        audio_stream: if settings.enable_audio {
            Some(Stream { main_branch: None, fallback_branch: None })
        } else {
            None
        },
        last_buffering_update: None,
        fallback_last_buffering_update: None,
        settings,
        configured_source: source,
        stats: Stats::initial(),
        manually_blocked: settings.manual_unblock,
        schedule_restart_on_unblock: false,
    }
}

/// The commands that build the dummy source and the switch of one kind, if
/// that kind is enabled.
pub open spec fn create_stream_actions(settings: Settings, kind: StreamKind) -> Seq<Action> {
    if settings.spec_enabled(kind) {
        seq![
            Action::CreateDummySource {
                kind,
                max_size_time: spec_queue_max_size_time(settings.min_latency),
            },
        ].push(
            Action::CreateStream {
                kind,
                timeout: settings.timeout,
                min_latency: settings.min_latency,
                immediate_fallback: settings.immediate_fallback,
            },
        )
    } else {
        Seq::empty()
    }
}

/// The commands of a start: the primary input, the fallback input if a
/// fallback URI is set, video and then audio, and the two announcements.
pub open spec fn start_actions(settings: Settings, source: Source) -> Seq<Action> {
    seq![Action::CreateMainInput { source, buffer_duration: settings.buffer_duration }] + (
    if settings.has_fallback_uri {
        seq![Action::CreateFallbackInput { buffer_duration: settings.buffer_duration }]
    } else {
        Seq::empty()
    }) + create_stream_actions(settings, StreamKind::Video) + create_stream_actions(
        settings,
        StreamKind::Audio,
    ) + seq![Action::NoMorePads].push(Action::NotifyStatus)
}

/// The commands that take down one branch: its block first, then its chain.
pub open spec fn remove_branch_actions(
    state: State,
    kind: StreamKind,
    fallback_source: bool,
) -> Seq<Action> {
    match state.branch_of(kind, fallback_source) {
        Some(branch) => (match branch.source_srcpad_block {
            Some(block) => seq![Action::RemovePadProbe { probe: block.probe }],
            None => Seq::empty(),
        }) + seq![Action::RemoveBranch { kind, fallback_source }],
        None => Seq::empty(),
    }
}

/// The commands that take down the stream of one kind with its branches.
pub open spec fn remove_stream_actions(state: State, kind: StreamKind) -> Seq<Action> {
    if state.stream_of(kind) is Some {
        remove_branch_actions(state, kind, false) + remove_branch_actions(state, kind, true)
            + seq![Action::RemoveStream { kind }]
    } else {
        Seq::empty()
    }
}

/// The commands that take down one source: its container, then each of its
/// timers that is armed.
pub open spec fn remove_source_actions(state: State, fallback_source: bool) -> Seq<Action> {
    match state.source_of(fallback_source) {
        Some(source) => seq![Action::RemoveSource { fallback_source }] + unschedule(
            source.pending_restart_timeout,
        ) + unschedule(source.retry_timeout) + unschedule(source.restart_timeout),
        None => Seq::empty(),
    }
}

/// The commands that take down the dummy source of one kind, if there is
/// one.
pub open spec fn remove_dummy_actions(state: State, kind: StreamKind) -> Seq<Action> {
    if match kind {
        StreamKind::Audio => state.audio_dummy_source,
        StreamKind::Video => state.video_dummy_source,
    } {
        seq![Action::RemoveDummySource { kind }]
    } else {
        Seq::empty()
    }
}

/// The commands of a stop: the announcement, the streams, the sources with
/// their timers, the dummy sources.
pub open spec fn stop_actions(state: State) -> Seq<Action> {
    seq![Action::NotifyStatus] + remove_stream_actions(state, StreamKind::Video)
        + remove_stream_actions(state, StreamKind::Audio) + (if state.configured_source
        == Source::Element {
        seq![Action::ReleaseSourceElement]
    } else {
        Seq::empty()
    }) + remove_source_actions(state, false) + remove_source_actions(state, true)
        + remove_dummy_actions(state, StreamKind::Video) + remove_dummy_actions(
        state,
        StreamKind::Audio,
    )
}

/// A stop asks what the take-down of each stream and of each source asks.
pub proof fn lemma_stop_contains(state: State, action: Action)
    ensures
        remove_stream_actions(state, StreamKind::Video).contains(action) ==> stop_actions(
            state,
        ).contains(action),
        remove_stream_actions(state, StreamKind::Audio).contains(action) ==> stop_actions(
            state,
        ).contains(action),
        remove_source_actions(state, false).contains(action) ==> stop_actions(state).contains(
            action,
        ),
        remove_source_actions(state, true).contains(action) ==> stop_actions(state).contains(
            action,
        ),
{
    let head = seq![Action::NotifyStatus];
    let video = remove_stream_actions(state, StreamKind::Video);
    let audio = remove_stream_actions(state, StreamKind::Audio);
    let release = if state.configured_source == Source::Element {
        seq![Action::ReleaseSourceElement]
    } else {
        Seq::empty()
    };
    let main = remove_source_actions(state, false);
    let fallback = remove_source_actions(state, true);
    let black = remove_dummy_actions(state, StreamKind::Video);
    let silence = remove_dummy_actions(state, StreamKind::Audio);
    lemma_add_contains(head, video, action);
    lemma_add_contains(head + video, audio, action);
    lemma_add_contains(head + video + audio, release, action);
    lemma_add_contains(head + video + audio + release, main, action);
    lemma_add_contains(head + video + audio + release + main, fallback, action);
    lemma_add_contains(head + video + audio + release + main + fallback, black, action);
    lemma_add_contains(
        head + video + audio + release + main + fallback + black,
        silence,
        action,
    );
}

impl FallbackSrc {
    /// A stopped supervisor with these settings.
    pub open spec fn stopped(settings: Settings) -> FallbackSrc {
        FallbackSrc { settings, state: None, next_handle: 0 }
    }

    /// The supervisor with its running state replaced.
    pub open spec fn with_state(self, state: State) -> FallbackSrc {
        FallbackSrc { state: Some(state), ..self }
    }

    /// The step that changes nothing and asks for nothing.
    pub open spec fn stay(self) -> Step {
        Step { next: self, actions: Seq::empty() }
    }

    /// What holds of every supervisor that was made by `new` and changed
    /// through its entry points only.
    pub open spec fn wf(self) -> bool {
        self.state is Some ==> self.state->0.wf()
    }

    /// Whether a timer with this handle is armed.
    pub open spec fn timer_armed(self, timer: TimerId) -> bool {
        self.state is Some && (self.state->0.source.holds_timer(timer) || (
        self.state->0.fallback_source is Some && self.state->0.fallback_source->0.holds_timer(
            timer,
        )))
    }

    /// Why a start would fail, if it would.
    pub open spec fn start_error(self) -> Option<StartError> {
        if self.state is Some {
            Some(StartError::AlreadyStarted)
        } else if self.settings.spec_configured_source() is None {
            Some(StartError::NoSource)
        } else {
            None
        }
    }

    /// What a start that succeeds does.
    pub open spec fn start_step(self) -> Step {
        let source = self.settings.spec_configured_source()->0;
        Step {
            next: self.with_state(initial_state(self.settings, source)),
            actions: start_actions(self.settings, source),
        }
    }

    /// What a stop does: nothing to a stopped supervisor; else the state
    /// goes and everything that was built is taken down.
    pub open spec fn stop_step(self) -> Step {
        match self.state {
            None => self.stay(),
            Some(state) => Step {
                next: FallbackSrc { state: None, ..self },
                actions: stop_actions(state),
            },
        }
    }

    /// Whether the branch of this kind from the primary source is missing
    /// or held back.
    pub open spec fn main_branch_waiting(state: State, kind: StreamKind) -> bool {
        match state.branch_of(kind, false) {
            Some(branch) => branch.source_srcpad_block is Some,
            None => true,
        }
    }

    /// The status. A stopped supervisor is stopped. It is retrying while a
    /// restart of the primary source is pending or a pause or retry timer
    /// of it is armed. Else it is buffering while the primary source is
    /// below full buffers, is watched by a restart timeout, has announced
    /// no streams, or has announced a kind whose branch is missing or held
    /// back. Else it is running.
    pub open spec fn spec_status(self) -> Status {
        match self.state {
            None => Status::Stopped,
            Some(state) => if state.source.pending_restart
                || state.source.pending_restart_timeout is Some
                || state.source.retry_timeout is Some {
                Status::Retrying
            } else if state.stats.buffering_percent < 100 || state.source.restart_timeout is Some
                || state.source.streams is None || (state.source.spec_has(StreamKind::Audio)
                && Self::main_branch_waiting(state, StreamKind::Audio)) || (
            state.source.spec_has(StreamKind::Video) && Self::main_branch_waiting(
                state,
                StreamKind::Video,
            )) {
                Status::Buffering
            } else {
                Status::Running
            },
        }
    }

    /// The statistics: those of the running state, or the initial ones
    /// while stopped.
    pub open spec fn spec_stats(self) -> Stats {
        match self.state {
            Some(state) => state.stats,
            None => Stats::initial(),
        }
    }

    /// What the element's own state change returns once the sources have
    /// been driven: no preroll on the way into Paused, success otherwise.
    pub open spec fn spec_state_change_result(transition: StateChange) -> StateChangeSuccess {
        match transition {
            StateChange::ReadyToPaused | StateChange::PlayingToPaused =>
                StateChangeSuccess::NoPreroll,
            _ => StateChangeSuccess::Success,
        }
    }

    /// Makes a stopped supervisor.
    pub fn new(settings: Settings) -> (src: FallbackSrc)
        ensures
            src == FallbackSrc::stopped(settings),
            src.wf(),
    {
        FallbackSrc { settings, state: None, next_handle: 0 }
    }

    /// Reads the settings.
    pub fn settings(&self) -> (settings: Settings)
        ensures
            settings == self.settings,
    {
        self.settings
    }

    /// Replaces the settings. A running supervisor goes on with the
    /// settings it was started with; the new ones count from the next
    /// start.
    pub fn set_settings(&mut self, settings: Settings)
        ensures
            *final(self) == (FallbackSrc { settings, ..*old(self) }),
            old(self).wf() ==> final(self).wf(),
    {
        self.settings = settings;
    }

    /// Gives out a fresh handle.
    pub(crate) fn next_id(&mut self) -> (id: u64)
        ensures
            id == old(self).next_handle,
            *final(self) == (FallbackSrc { next_handle: spec_count_up(id), ..*old(self) }),
    {
        let id = self.next_handle;
        self.next_handle = count_up(id);
        id
    }

    /// Starts the supervisor: checks that a primary source is configured,
    /// sets up the state and asks the host to build the inputs, the dummy
    /// sources and the switches.
    pub fn start(&mut self) -> (result: Result<Vec<Action>, StartError>)
        ensures
            match result {
                Ok(actions) => old(self).start_error() is None && *final(self) == old(
                    self,
                ).start_step().next && actions@ == old(self).start_step().actions,
                Err(e) => old(self).start_error() == Some(e) && *final(self) == *old(self),
            },
            old(self).wf() ==> final(self).wf(),
    {
        if self.state.is_some() {
            return Err(StartError::AlreadyStarted);
        }
        let settings = self.settings;
        let source = match settings.configured_source() {
            Some(source) => source,
            None => {
                return Err(StartError::NoSource);
            },
        };
        let mut actions: Vec<Action> = Vec::new();
        actions.push(Action::CreateMainInput { source, buffer_duration: settings.buffer_duration });
        let fallback_source = if settings.has_fallback_uri {
            actions.push(Action::CreateFallbackInput { buffer_duration: settings.buffer_duration });
            Some(SourceBin::new())
        } else {
            None
        };
        let video_stream = Self::create_stream(&settings, StreamKind::Video, &mut actions);
        let audio_stream = Self::create_stream(&settings, StreamKind::Audio, &mut actions);
        actions.push(Action::NoMorePads);
        actions.push(Action::NotifyStatus);
        self.state = Some(
            State {
                source: SourceBin::new(),
                fallback_source,
                audio_dummy_source: settings.enable_audio,
                video_dummy_source: settings.enable_video,
                video_stream,
                audio_stream,
                last_buffering_update: None,
                fallback_last_buffering_update: None,
                settings,
                configured_source: source,
                stats: Stats::default(),
                manually_blocked: settings.manual_unblock,
                schedule_restart_on_unblock: false,
            },
        );
        Ok(actions)
    }

    /// Sets up the stream of one kind, if that kind is enabled, and asks
    /// the host for its dummy source and its switch.
    pub fn create_stream(
        settings: &Settings,
        kind: StreamKind,
        actions: &mut Vec<Action>,
    ) -> (stream: Option<Stream>)
        ensures
            final(actions)@ == old(actions)@ + create_stream_actions(*settings, kind),
            stream == if settings.spec_enabled(kind) {
                Some(Stream { main_branch: None, fallback_branch: None })
            } else {
                None
            },
    {
        if settings.enabled(kind) {
            actions.push(
                Action::CreateDummySource {
                    kind,
                    max_size_time: queue_max_size_time(settings.min_latency),
                },
            );
            actions.push(
                Action::CreateStream {
                    kind,
                    timeout: settings.timeout,
                    min_latency: settings.min_latency,
                    immediate_fallback: settings.immediate_fallback,
                },
            );
            Some(Stream { main_branch: None, fallback_branch: None })
        } else {
            None
        }
    }

    /// Stops the supervisor. A stopped supervisor stays as it is and
    /// nothing is asked of the host. Else the state goes, and the host is
    /// asked to remove every block, branch, switch, source and dummy source
    /// and to disarm every timer that is armed.
    pub fn stop(&mut self) -> (actions: Vec<Action>)
        ensures
            *final(self) == old(self).stop_step().next,
            actions@ == old(self).stop_step().actions,
            final(self).state is None,
            final(self).wf(),
    {
        let mut actions: Vec<Action> = Vec::new();
        let state = match self.state {
            None => {
                return actions;
            },
            Some(state) => state,
        };
        self.state = None;
        actions.push(Action::NotifyStatus);
        Self::remove_stream(&state, StreamKind::Video, &mut actions);
        Self::remove_stream(&state, StreamKind::Audio, &mut actions);
        match state.configured_source {
            Source::Element => {
                actions.push(Action::ReleaseSourceElement);
            },
            Source::Uri => {},
        }
        Self::remove_source(&state, false, &mut actions);
        Self::remove_source(&state, true, &mut actions);
        if state.video_dummy_source {
            actions.push(Action::RemoveDummySource { kind: StreamKind::Video });
        }
        if state.audio_dummy_source {
            actions.push(Action::RemoveDummySource { kind: StreamKind::Audio });
        }
        actions
    }

    /// The commands that take down one branch, as a list.
    pub(crate) fn remove_branch_commands(
        state: &State,
        kind: StreamKind,
        fallback_source: bool,
    ) -> (actions: Vec<Action>)
        ensures
            actions@ == remove_branch_actions(*state, kind, fallback_source),
    {
        let mut actions: Vec<Action> = Vec::new();
        match state.branch(kind, fallback_source) {
            Some(branch) => {
                match branch.source_srcpad_block {
                    Some(block) => {
                        actions.push(Action::RemovePadProbe { probe: block.probe });
                    },
                    None => {},
                }
                actions.push(Action::RemoveBranch { kind, fallback_source });
            },
            None => {},
        }
        actions
    }

    fn remove_stream(state: &State, kind: StreamKind, actions: &mut Vec<Action>)
        ensures
            final(actions)@ == old(actions)@ + remove_stream_actions(*state, kind),
    {
        if state.stream(kind).is_some() {
            let mut main = Self::remove_branch_commands(state, kind, false);
            let mut fallback = Self::remove_branch_commands(state, kind, true);
            actions.append(&mut main);
            actions.append(&mut fallback);
            actions.push(Action::RemoveStream { kind });
        }
    }

    fn remove_source(state: &State, fallback_source: bool, actions: &mut Vec<Action>)
        ensures
            final(actions)@ == old(actions)@ + remove_source_actions(*state, fallback_source),
    {
        match state.source(fallback_source) {
            Some(source) => {
                actions.push(Action::RemoveSource { fallback_source });
                push_unschedule(actions, source.pending_restart_timeout);
                push_unschedule(actions, source.retry_timeout);
                push_unschedule(actions, source.restart_timeout);
            },
            None => {},
        }
    }

    /// Reads the status.
    pub fn status(&self) -> (status: Status)
        ensures
            status == self.spec_status(),
    {
        let state = match self.state {
            None => {
                return Status::Stopped;
            },
            Some(state) => state,
        };
        if state.source.pending_restart || state.source.pending_restart_timeout.is_some()
            || state.source.retry_timeout.is_some() {
            return Status::Retrying;
        }
        if state.stats.buffering_percent < 100 || state.source.restart_timeout.is_some()
            || state.source.streams.is_none() {
            return Status::Buffering;
        }
        if state.source.has(StreamKind::Audio) && Self::is_main_branch_waiting(
            &state,
            StreamKind::Audio,
        ) {
            return Status::Buffering;
        }
        if state.source.has(StreamKind::Video) && Self::is_main_branch_waiting(
            &state,
            StreamKind::Video,
        ) {
            return Status::Buffering;
        }
        Status::Running
    }

    fn is_main_branch_waiting(state: &State, kind: StreamKind) -> (waiting: bool)
        ensures
            waiting == Self::main_branch_waiting(*state, kind),
    {
        match state.branch(kind, false) {
            Some(branch) => branch.source_srcpad_block.is_some(),
            None => true,
        }
    }

    /// Reads the statistics.
    pub fn stats(&self) -> (stats: Stats)
        ensures
            stats == self.spec_stats(),
    {
        match self.state {
            Some(state) => state.stats,
            None => Stats::default(),
        }
    }

    /// What the element's own state change returns once the sources have
    /// been driven.
    pub fn state_change_result(transition: StateChange) -> (result: StateChangeSuccess)
        ensures
            result == Self::spec_state_change_result(transition),
    {
        match transition {
            StateChange::ReadyToPaused | StateChange::PlayingToPaused =>
                StateChangeSuccess::NoPreroll,
            _ => StateChangeSuccess::Success,
        }
    }
}

} // verus!
