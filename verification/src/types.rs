//! Plain values shared by the whole supervisor: stream kinds, element
//! states, retry reasons, statistics, the settings snapshot and what the
//! host reports of the running pipeline.

use vstd::prelude::*;

verus! {

/// Why a source was last restarted.
#[derive(Clone, Copy, Debug, PartialEq, Eq, Structural)]
pub enum RetryReason {
    /// No restart has happened yet.
    NoRetry,
    /// The source or one of its descendants posted an error.
    Error,
    /// The source ended although it was expected to go on.
    Eos,
    /// The source stalled while the fallback was shown.
    Timeout,
    /// The source did not complete a state change.
    StateChangeFailure,
}

/// What the supervisor is doing, as shown to the application.
#[derive(Clone, Copy, Debug, PartialEq, Eq, Structural)]
pub enum Status {
    Stopped,
    Buffering,
    Retrying,
    Running,
}

/// The two kinds of stream that the supervisor can output.
#[derive(Clone, Copy, Debug, PartialEq, Eq, Structural)]
pub enum StreamKind {
    Audio,
    Video,
}

impl StreamKind {
    /// The other kind.
    pub open spec fn spec_other(self) -> StreamKind {
        match self {
            StreamKind::Audio => StreamKind::Video,
            StreamKind::Video => StreamKind::Audio,
        }
    }

    /// The other kind.
    pub fn other(self) -> (k: StreamKind)
        ensures
            k == self.spec_other(),
    {
        match self {
            StreamKind::Audio => StreamKind::Video,
            StreamKind::Video => StreamKind::Audio,
        }
    }
}

/// The lifecycle state of an element or container.
#[derive(Clone, Copy, Debug, PartialEq, Eq, Structural)]
pub enum ElementState {
    Null,
    Ready,
    Paused,
    Playing,
}

impl ElementState {
    /// The position of the state in the order Null, Ready, Paused, Playing.
    pub open spec fn spec_rank(self) -> int {
        match self {
            ElementState::Null => 0,
            ElementState::Ready => 1,
            ElementState::Paused => 2,
            ElementState::Playing => 3,
        }
    }

    /// The position of the state in the order Null, Ready, Paused, Playing.
    pub fn rank(self) -> (r: u8)
        ensures
            r == self.spec_rank(),
    {
        match self {
            ElementState::Null => 0,
            ElementState::Ready => 1,
            ElementState::Paused => 2,
            ElementState::Playing => 3,
        }
    }
}

/// A lifecycle transition between two neighbouring states, or from a state
/// to itself.
#[derive(Clone, Copy, Debug, PartialEq, Eq, Structural)]
pub enum StateChange {
    NullToReady,
    ReadyToPaused,
    PausedToPlaying,
    PlayingToPaused,
    PausedToReady,
    ReadyToNull,
    NullToNull,
    ReadyToReady,
    PausedToPaused,
    PlayingToPlaying,
}

impl StateChange {
    /// The state that the transition leaves.
    pub open spec fn spec_current(self) -> ElementState {
        match self {
            StateChange::NullToReady | StateChange::NullToNull => ElementState::Null,
            StateChange::ReadyToPaused | StateChange::ReadyToNull | StateChange::ReadyToReady =>
                ElementState::Ready,
            StateChange::PausedToPlaying | StateChange::PausedToReady
            | StateChange::PausedToPaused => ElementState::Paused,
            StateChange::PlayingToPaused | StateChange::PlayingToPlaying => ElementState::Playing,
        }
    }

    /// The state that the transition reaches.
    pub open spec fn spec_next(self) -> ElementState {
        match self {
            StateChange::ReadyToNull | StateChange::NullToNull => ElementState::Null,
            StateChange::NullToReady | StateChange::PausedToReady | StateChange::ReadyToReady =>
                ElementState::Ready,
            StateChange::ReadyToPaused | StateChange::PlayingToPaused
            | StateChange::PausedToPaused => ElementState::Paused,
            StateChange::PausedToPlaying | StateChange::PlayingToPlaying => ElementState::Playing,
        }
    }

    /// Whether the transition does not go down: its target is at least its
    /// origin.
    pub open spec fn spec_is_upward(self) -> bool {
        self.spec_current().spec_rank() <= self.spec_next().spec_rank()
    }

    /// Whether the transition ends in Ready or below.
    pub open spec fn spec_is_shutdown(self) -> bool {
        self.spec_next().spec_rank() <= ElementState::Ready.spec_rank()
    }

    /// The state that the transition leaves.
    pub fn current(self) -> (s: ElementState)
        ensures
            s == self.spec_current(),
    {
        match self {
            StateChange::NullToReady | StateChange::NullToNull => ElementState::Null,
            StateChange::ReadyToPaused | StateChange::ReadyToNull | StateChange::ReadyToReady =>
                ElementState::Ready,
            StateChange::PausedToPlaying | StateChange::PausedToReady
            | StateChange::PausedToPaused => ElementState::Paused,
            StateChange::PlayingToPaused | StateChange::PlayingToPlaying => ElementState::Playing,
        }
    }

    /// The state that the transition reaches.
    pub fn next(self) -> (s: ElementState)
        ensures
            s == self.spec_next(),
    {
        match self {
            StateChange::ReadyToNull | StateChange::NullToNull => ElementState::Null,
            StateChange::NullToReady | StateChange::PausedToReady | StateChange::ReadyToReady =>
                ElementState::Ready,
            StateChange::ReadyToPaused | StateChange::PlayingToPaused
            | StateChange::PausedToPaused => ElementState::Paused,
            StateChange::PausedToPlaying | StateChange::PlayingToPlaying => ElementState::Playing,
        }
    }

    /// Whether the transition does not go down.
    pub fn is_upward(self) -> (b: bool)
        ensures
            b == self.spec_is_upward(),
    {
        self.current().rank() <= self.next().rank()
    }

    /// Whether the transition ends in Ready or below.
    pub fn is_shutdown(self) -> (b: bool)
        ensures
            b == self.spec_is_shutdown(),
    {
        self.next().rank() <= ElementState::Ready.rank()
    }
}

/// How a state change that did not fail came out.
#[derive(Clone, Copy, Debug, PartialEq, Eq, Structural)]
pub enum StateChangeSuccess {
    Success,
    Async,
    NoPreroll,
}

/// Handle of a one-shot timer that the supervisor asked the host to arm.
#[derive(Clone, Copy, Debug, PartialEq, Eq, Structural)]
pub struct TimerId(pub u64);

/// Handle of a blocking probe that the supervisor asked the host to install.
#[derive(Clone, Copy, Debug, PartialEq, Eq, Structural)]
pub struct ProbeId(pub u64);

/// Handle of a pad, given out by the host.
#[derive(Clone, Copy, Debug, PartialEq, Eq, Structural)]
pub struct PadId(pub u64);

/// Which kind of source is configured as the primary one.
#[derive(Clone, Copy, Debug, PartialEq, Eq, Structural)]
pub enum Source {
    /// A URI, decoded by a container that cannot be reused after a failure.
    Uri,
    /// A source element supplied by the application.
    Element,
}

/// The successor of a counter or handle. After the greatest value comes
/// zero.
pub open spec fn spec_count_up(n: u64) -> u64 {
    if n == u64::MAX {
        0
    } else {
        (n + 1) as u64
    }
}

/// Computes the successor of a counter or handle.
pub fn count_up(n: u64) -> (m: u64)
    ensures
        m == spec_count_up(n),
{
    if n == u64::MAX {
        0
    } else {
        n + 1
    }
}

/// Counters and gauges that the application can read.
#[derive(Clone, Copy, Debug, PartialEq, Eq, Structural)]
pub struct Stats {
    pub num_retry: u64,
    pub num_fallback_retry: u64,
    pub last_retry_reason: RetryReason,
    pub last_fallback_retry_reason: RetryReason,
    pub buffering_percent: i32,
    pub fallback_buffering_percent: i32,
}

impl Stats {
    /// The statistics of a supervisor that has not retried anything and is
    /// not buffering.
    pub open spec fn initial() -> Stats {
        Stats {
            num_retry: 0,
            num_fallback_retry: 0,
            last_retry_reason: RetryReason::NoRetry,
            last_fallback_retry_reason: RetryReason::NoRetry,
            buffering_percent: 100,
            fallback_buffering_percent: 100,
        }
    }

    /// The retry counter of the primary or of the fallback source.
    pub open spec fn retries(self, fallback_source: bool) -> u64 {
        if fallback_source {
            self.num_fallback_retry
        } else {
            self.num_retry
        }
    }

    /// The last retry reason of the primary or of the fallback source.
    pub open spec fn last_reason(self, fallback_source: bool) -> RetryReason {
        if fallback_source {
            self.last_fallback_retry_reason
        } else {
            self.last_retry_reason
        }
    }

    /// The buffering percentage of the primary or of the fallback source.
    pub open spec fn buffering(self, fallback_source: bool) -> i32 {
        if fallback_source {
            self.fallback_buffering_percent
        } else {
            self.buffering_percent
        }
    }

    /// The statistics with a retry reason noted for one source.
    #[verifier::opaque]
    pub open spec fn with_last_reason(self, fallback_source: bool, reason: RetryReason) -> Stats {
        if fallback_source {
            Stats { last_fallback_retry_reason: reason, ..self }
        } else {
            Stats { last_retry_reason: reason, ..self }
        }
    }

    /// The statistics with one more retry counted for one source.
    #[verifier::opaque]
    pub open spec fn with_retry_counted(self, fallback_source: bool) -> Stats {
        if fallback_source {
            Stats { num_fallback_retry: spec_count_up(self.num_fallback_retry), ..self }
        } else {
            Stats { num_retry: spec_count_up(self.num_retry), ..self }
        }
    }

    /// The statistics with the buffering percentage of one source replaced.
    #[verifier::opaque]
    pub open spec fn with_buffering(self, fallback_source: bool, percent: i32) -> Stats {
        if fallback_source {
            Stats { fallback_buffering_percent: percent, ..self }
        } else {
            Stats { buffering_percent: percent, ..self }
        }
    }

    /// What the updates of the statistics stand for, all at once: for
    /// proofs that look inside.
    pub proof fn lemma_updates()
        ensures
            forall|s: Stats, fallback: bool, reason: RetryReason| #[trigger]
                s.with_last_reason(fallback, reason) == if fallback {
                    Stats { last_fallback_retry_reason: reason, ..s }
                } else {
                    Stats { last_retry_reason: reason, ..s }
                },
            forall|s: Stats, fallback: bool| #[trigger]
                s.with_retry_counted(fallback) == if fallback {
                    Stats { num_fallback_retry: spec_count_up(s.num_fallback_retry), ..s }
                } else {
                    Stats { num_retry: spec_count_up(s.num_retry), ..s }
                },
            forall|s: Stats, fallback: bool, percent: i32| #[trigger]
                s.with_buffering(fallback, percent) == if fallback {
                    Stats { fallback_buffering_percent: percent, ..s }
                } else {
                    Stats { buffering_percent: percent, ..s }
                },
    {
        reveal(Stats::with_last_reason);
        reveal(Stats::with_retry_counted);
        reveal(Stats::with_buffering);
    }

    /// Notes a retry reason for one source.
    pub fn set_last_reason(&mut self, fallback_source: bool, reason: RetryReason)
        ensures
            *final(self) == old(self).with_last_reason(fallback_source, reason),
    {
        reveal(Stats::with_last_reason);
        if fallback_source {
            self.last_fallback_retry_reason = reason;
        } else {
            self.last_retry_reason = reason;
        }
    }

    /// Counts one more retry for one source.
    pub fn count_retry(&mut self, fallback_source: bool)
        ensures
            *final(self) == old(self).with_retry_counted(fallback_source),
    {
        reveal(Stats::with_retry_counted);
        if fallback_source {
            self.num_fallback_retry = count_up(self.num_fallback_retry);
        } else {
            self.num_retry = count_up(self.num_retry);
        }
    }

    /// Replaces the buffering percentage of one source.
    pub fn set_buffering(&mut self, fallback_source: bool, percent: i32)
        ensures
            *final(self) == old(self).with_buffering(fallback_source, percent),
    {
        reveal(Stats::with_buffering);
        if fallback_source {
            self.fallback_buffering_percent = percent;
        } else {
            self.buffering_percent = percent;
        }
    }
}

impl Default for Stats {
    fn default() -> (s: Stats)
        ensures
            s == Stats::initial(),
    {
        Stats {
            num_retry: 0,
            num_fallback_retry: 0,
            last_retry_reason: RetryReason::NoRetry,
            last_fallback_retry_reason: RetryReason::NoRetry,
            buffering_percent: 100,
            fallback_buffering_percent: 100,
        }
    }
}

/// The configuration that the supervisor reads. Times are nanoseconds.
///
/// The URIs, the source element and the fallback caps themselves stay with
/// the host, which needs them to build elements; the supervisor only has to
/// know which of them are set.
#[derive(Clone, Copy, Debug, PartialEq, Eq, Structural)]
pub struct Settings {
    pub enable_audio: bool,
    pub enable_video: bool,
    /// A primary URI is set.
    pub has_uri: bool,
    /// A primary source element is set.
    pub has_source: bool,
    /// A fallback URI is set.
    pub has_fallback_uri: bool,
    pub timeout: u64,
    pub restart_timeout: u64,
    pub retry_timeout: u64,
    pub restart_on_eos: bool,
    pub min_latency: u64,
    pub buffer_duration: i64,
    pub immediate_fallback: bool,
    pub manual_unblock: bool,
}

impl Settings {
    /// Audio and video enabled, nothing configured, five seconds for the
    /// switch and restart timeouts and a minute for the retry timeout.
    pub open spec fn initial() -> Settings {
        Settings {
            enable_audio: true,
            enable_video: true,
            has_uri: false,
            has_source: false,
            has_fallback_uri: false,
            timeout: 5_000_000_000,
            restart_timeout: 5_000_000_000,
            retry_timeout: 60_000_000_000,
            restart_on_eos: false,
            min_latency: 0,
            buffer_duration: -1i64,
            immediate_fallback: false,
            manual_unblock: false,
        }
    }

    /// The primary source that these settings select: the URI if one is
    /// set, else the source element if one is set.
    pub open spec fn spec_configured_source(self) -> Option<Source> {
        if self.has_uri {
            Some(Source::Uri)
        } else if self.has_source {
            Some(Source::Element)
        } else {
            None
        }
    }

    /// Whether streams of this kind are enabled.
    pub open spec fn spec_enabled(self, kind: StreamKind) -> bool {
        match kind {
            StreamKind::Audio => self.enable_audio,
            StreamKind::Video => self.enable_video,
        }
    }

    /// The primary source that these settings select.
    pub fn configured_source(&self) -> (source: Option<Source>)
        ensures
            source == self.spec_configured_source(),
    {
        if self.has_uri {
            Some(Source::Uri)
        } else if self.has_source {
            Some(Source::Element)
        } else {
            None
        }
    }

    /// Whether streams of this kind are enabled.
    pub fn enabled(&self, kind: StreamKind) -> (b: bool)
        ensures
            b == self.spec_enabled(kind),
    {
        match kind {
            StreamKind::Audio => self.enable_audio,
            StreamKind::Video => self.enable_video,
        }
    }
}

impl Default for Settings {
    fn default() -> (s: Settings)
        ensures
            s == Settings::initial(),
    {
        Settings {
            enable_audio: true,
            enable_video: true,
            has_uri: false,
            has_source: false,
            has_fallback_uri: false,
            timeout: 5_000_000_000,
            restart_timeout: 5_000_000_000,
            retry_timeout: 60_000_000_000,
            restart_on_eos: false,
            min_latency: 0,
            buffer_duration: -1,
            immediate_fallback: false,
            manual_unblock: false,
        }
    }
}

/// What one stream of a stream collection carries.
#[derive(Clone, Copy, Debug, PartialEq, Eq, Structural)]
pub struct StreamType {
    pub audio: bool,
    pub video: bool,
}

/// What a source's stream collection holds, as far as the supervisor reads
/// it: whether any stream carries audio, and whether any carries video.
#[derive(Clone, Copy, Debug, PartialEq, Eq, Structural)]
pub struct StreamCollection {
    pub have_audio: bool,
    pub have_video: bool,
}

impl StreamCollection {
    /// Whether the collection has a stream of this kind.
    pub open spec fn spec_has(self, kind: StreamKind) -> bool {
        match kind {
            StreamKind::Audio => self.have_audio,
            StreamKind::Video => self.have_video,
        }
    }

    /// The collection made of these streams.
    pub open spec fn spec_from_types(types: Seq<StreamType>) -> StreamCollection {
        StreamCollection {
            have_audio: exists|i: int| 0 <= i < types.len() && (#[trigger] types[i]).audio,
            have_video: exists|i: int| 0 <= i < types.len() && (#[trigger] types[i]).video,
        }
    }

    /// Whether the collection has a stream of this kind.
    pub fn has(&self, kind: StreamKind) -> (b: bool)
        ensures
            b == self.spec_has(kind),
    {
        match kind {
            StreamKind::Audio => self.have_audio,
            StreamKind::Video => self.have_video,
        }
    }

    /// Summarises the streams of a collection.
    pub fn from_types(types: &Vec<StreamType>) -> (c: StreamCollection)
        ensures
            c == StreamCollection::spec_from_types(types@),
    {
        let mut have_audio = false;
        let mut have_video = false;
        let mut i: usize = 0;
        while i < types.len()
            invariant
                i <= types.len(),
                have_audio == (exists|j: int| 0 <= j < i && (#[trigger] types@[j]).audio),
                have_video == (exists|j: int| 0 <= j < i && (#[trigger] types@[j]).video),
            decreases types.len() - i,
        {
            have_audio = have_audio || types[i].audio;
            have_video = have_video || types[i].video;
            i += 1;
        }
        StreamCollection { have_audio, have_video }
    }
}

/// Where a message of the pipeline came from.
#[derive(Clone, Copy, Debug, PartialEq, Eq, Structural)]
pub struct Origin {
    /// The sender is the primary source's container or inside it.
    pub in_main: bool,
    /// The sender is the fallback source's container or inside it.
    pub in_fallback: bool,
}

/// What the host reads off the running pipeline just before it hands an
/// event to the supervisor. Times are nanoseconds.
#[derive(Clone, Copy, Debug, PartialEq, Eq, Structural)]
pub struct Observation {
    /// The reading of a monotonic clock.
    pub now: u64,
    /// The pipeline's running time, if it has a clock and a base time.
    pub current_running_time: Option<u64>,
    /// The priority of the input that the audio switch has selected.
    pub audio_active_priority: Option<u32>,
    /// The priority of the input that the video switch has selected.
    pub video_active_priority: Option<u32>,
    /// The primary source's audio pad has seen end-of-stream.
    pub main_audio_eos: bool,
    /// The primary source's video pad has seen end-of-stream.
    pub main_video_eos: bool,
    /// The fallback source's audio pad has seen end-of-stream.
    pub fallback_audio_eos: bool,
    /// The fallback source's video pad has seen end-of-stream.
    pub fallback_video_eos: bool,
}

impl Observation {
    /// The end-of-stream flag of one source pad.
    pub open spec fn spec_is_eos(self, kind: StreamKind, fallback_source: bool) -> bool {
        match kind {
            StreamKind::Audio => if fallback_source {
                self.fallback_audio_eos
            } else {
                self.main_audio_eos
            },
            StreamKind::Video => if fallback_source {
                self.fallback_video_eos
            } else {
                self.main_video_eos
            },
        }
    }

    /// The end-of-stream flag of one source pad.
    pub fn is_eos(&self, kind: StreamKind, fallback_source: bool) -> (b: bool)
        ensures
            b == self.spec_is_eos(kind, fallback_source),
    {
        match kind {
            StreamKind::Audio => if fallback_source {
                self.fallback_audio_eos
            } else {
                self.main_audio_eos
            },
            StreamKind::Video => if fallback_source {
                self.fallback_video_eos
            } else {
                self.main_video_eos
            },
        }
    }
}

} // verus!
