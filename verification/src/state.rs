//! The supervisor's state while it runs: one record per source, per stream
//! and per branch, all plain values.

use crate::types::{
    PadId, ProbeId, Settings, Source, Stats, StreamCollection, StreamKind, TimerId,
};
use vstd::prelude::*;

verus! {

/// A pending block on the output of a branch.
#[derive(Clone, Copy, Debug, PartialEq, Eq, Structural)]
pub struct Block {
    /// The blocking probe.
    pub probe: ProbeId,
    /// The running time of the first buffer or gap seen at the block.
    pub running_time: Option<u64>,
}

/// The chain from one source pad into a switch.
#[derive(Clone, Copy, Debug, PartialEq, Eq, Structural)]
pub struct StreamBranch {
    /// The pad of the source that feeds the branch.
    pub source_srcpad: PadId,
    /// The block on the branch's output, while it is held back.
    pub source_srcpad_block: Option<Block>,
    /// The branch shows a still image and holds it with a freeze stage.
    pub is_image: bool,
}

/// The switch of one kind and the branches that lead into it.
#[derive(Clone, Copy, Debug, PartialEq, Eq, Structural)]
pub struct Stream {
    pub main_branch: Option<StreamBranch>,
    pub fallback_branch: Option<StreamBranch>,
}

impl Stream {
    /// The branch that comes from the primary or from the fallback source.
    pub open spec fn branch_of(self, fallback_source: bool) -> Option<StreamBranch> {
        if fallback_source {
            self.fallback_branch
        } else {
            self.main_branch
        }
    }

    /// The stream with one branch replaced.
    pub open spec fn with_branch(
        self,
        fallback_source: bool,
        branch: Option<StreamBranch>,
    ) -> Stream {
        if fallback_source {
            Stream { fallback_branch: branch, ..self }
        } else {
            Stream { main_branch: branch, ..self }
        }
    }
}

/// One source, primary or fallback, as the supervisor tracks it.
#[derive(Clone, Copy, Debug, PartialEq, Eq, Structural)]
pub struct SourceBin {
    /// A restart of this source is under way.
    pub pending_restart: bool,
    pub is_live: bool,
    pub is_image: bool,
    /// Fires when the source has to be restarted because it went silent.
    pub restart_timeout: Option<TimerId>,
    /// Fires when the pause before a restart is over.
    pub pending_restart_timeout: Option<TimerId>,
    /// Fires when retrying has gone on for too long.
    pub retry_timeout: Option<TimerId>,
    /// The stream collection that the source announced.
    pub streams: Option<StreamCollection>,
}

impl SourceBin {
    /// A source that was just built.
    pub open spec fn initial() -> SourceBin {
        SourceBin {
            pending_restart: false,
            is_live: false,
            is_image: false,
            restart_timeout: None,
            pending_restart_timeout: None,
            retry_timeout: None,
            streams: None,
        }
    }

    /// Whether the announced streams include one of this kind. Nothing is
    /// included before the announcement.
    pub open spec fn spec_has(self, kind: StreamKind) -> bool {
        self.streams is Some && self.streams->0.spec_has(kind)
    }

    /// Whether a timer of this source carries this handle.
    pub open spec fn holds_timer(self, timer: TimerId) -> bool {
        self.restart_timeout == Some(timer) || self.pending_restart_timeout == Some(timer)
            || self.retry_timeout == Some(timer)
    }

    /// Whether the timers of this source are in order. The pause timer of
    /// a restart is armed only while the restart is pending. A restart
    /// timeout is armed only for the primary source, and only while that
    /// source is not being restarted, is no still image and is not held
    /// back by the application.
    pub open spec fn timers_ok(self, fallback_source: bool, manually_blocked: bool) -> bool {
        &&& self.pending_restart_timeout is Some ==> self.pending_restart
        &&& self.restart_timeout is Some ==> !fallback_source && !self.pending_restart
            && !self.is_image && !manually_blocked
    }

    /// A source that was just built.
    pub fn new() -> (source: SourceBin)
        ensures
            source == SourceBin::initial(),
    {
        SourceBin {
            pending_restart: false,
            is_live: false,
            is_image: false,
            restart_timeout: None,
            pending_restart_timeout: None,
            retry_timeout: None,
            streams: None,
        }
    }

    /// Whether the announced streams include one of this kind.
    pub fn has(&self, kind: StreamKind) -> (b: bool)
        ensures
            b == self.spec_has(kind),
    {
        match self.streams {
            Some(streams) => streams.has(kind),
            None => false,
        }
    }
}

/// Everything the supervisor holds between start and stop.
#[derive(Clone, Copy, Debug, PartialEq, Eq, Structural)]
pub struct State {
    pub source: SourceBin,
    pub fallback_source: Option<SourceBin>,
    /// A generator of silence exists.
    pub audio_dummy_source: bool,
    /// A generator of black exists.
    pub video_dummy_source: bool,
    pub video_stream: Option<Stream>,
    pub audio_stream: Option<Stream>,
    /// When the primary source last reported on its buffering.
    pub last_buffering_update: Option<u64>,
    /// When the fallback source last reported on its buffering.
    pub fallback_last_buffering_update: Option<u64>,
    /// The settings as they were at start.
    pub settings: Settings,
    pub configured_source: Source,
    pub stats: Stats,
    /// The application has not yet released the primary source's pads.
    pub manually_blocked: bool,
    /// The primary source has come far enough for a restart timeout to be
    /// armed when the application releases its pads.
    pub schedule_restart_on_unblock: bool,
}

impl State {
    /// The primary source, or the fallback source if there is one.
    #[verifier::opaque]
    pub open spec fn source_of(self, fallback_source: bool) -> Option<SourceBin> {
        if fallback_source {
            self.fallback_source
        } else {
            Some(self.source)
        }
    }

    /// The state with one source replaced.
    #[verifier::opaque]
    pub open spec fn with_source(self, fallback_source: bool, source: SourceBin) -> State {
        if fallback_source {
            State { fallback_source: Some(source), ..self }
        } else {
            State { source, ..self }
        }
    }

    /// The stream of one kind, if that kind is enabled.
    pub open spec fn stream_of(self, kind: StreamKind) -> Option<Stream> {
        match kind {
            StreamKind::Audio => self.audio_stream,
            StreamKind::Video => self.video_stream,
        }
    }

    /// The branch of one kind from one source.
    #[verifier::opaque]
    pub open spec fn branch_of(self, kind: StreamKind, fallback_source: bool) -> Option<
        StreamBranch,
    > {
        match self.stream_of(kind) {
            Some(stream) => stream.branch_of(fallback_source),
            None => None,
        }
    }

    /// The block on the branch of one kind from one source.
    #[verifier::opaque]
    pub open spec fn block_of(self, kind: StreamKind, fallback_source: bool) -> Option<Block> {
        match self.branch_of(kind, fallback_source) {
            Some(branch) => branch.source_srcpad_block,
            None => None,
        }
    }

    /// The state with one branch replaced. Without a stream of that kind
    /// there is no place for a branch, and the state stays as it is.
    #[verifier::opaque]
    pub open spec fn with_branch(
        self,
        kind: StreamKind,
        fallback_source: bool,
        branch: Option<StreamBranch>,
    ) -> State {
        match self.stream_of(kind) {
            Some(stream) => match kind {
                StreamKind::Audio => State {
                    audio_stream: Some(stream.with_branch(fallback_source, branch)),
                    ..self
                },
                StreamKind::Video => State {
                    video_stream: Some(stream.with_branch(fallback_source, branch)),
                    ..self
                },
            },
            None => self,
        }
    }

    /// The state with the block of one branch replaced. Without that branch
    /// the state stays as it is.
    #[verifier::opaque]
    pub open spec fn with_block(
        self,
        kind: StreamKind,
        fallback_source: bool,
        block: Option<Block>,
    ) -> State {
        match self.branch_of(kind, fallback_source) {
            Some(branch) => self.with_branch(
                kind,
                fallback_source,
                Some(StreamBranch { source_srcpad_block: block, ..branch }),
            ),
            None => self,
        }
    }

    /// The state with the statistics replaced.
    pub open spec fn with_stats(self, stats: Stats) -> State {
        State { stats, ..self }
    }

    /// The state with the time of one source's last buffering report
    /// replaced.
    #[verifier::opaque]
    pub open spec fn with_last_update(self, fallback_source: bool, at: Option<u64>) -> State {
        if fallback_source {
            State { fallback_last_buffering_update: at, ..self }
        } else {
            State { last_buffering_update: at, ..self }
        }
    }

    /// What holds of every state that the supervisor reaches.
    ///
    /// A stream and its dummy source exist exactly for the enabled kinds. A
    /// branch from the fallback source needs a fallback source. The timers
    /// of each source are in order.
    pub open spec fn wf(self) -> bool {
        &&& self.audio_stream is Some <==> self.settings.enable_audio
        &&& self.video_stream is Some <==> self.settings.enable_video
        &&& self.audio_dummy_source <==> self.audio_stream is Some
        &&& self.video_dummy_source <==> self.video_stream is Some
        &&& self.fallback_source is None && self.audio_stream is Some
            ==> self.audio_stream->0.fallback_branch is None
        &&& self.fallback_source is None && self.video_stream is Some
            ==> self.video_stream->0.fallback_branch is None
        &&& self.source.timers_ok(false, self.manually_blocked)
        &&& self.fallback_source is Some ==> self.fallback_source->0.timers_ok(
            true,
            self.manually_blocked,
        )
    }

    /// Where the branch and the block of one kind from one source are
    /// found: the branch in the stream of that kind, the block in the
    /// branch.
    pub proof fn lemma_branch_and_block(self, kind: StreamKind, fallback_source: bool)
        ensures
            self.branch_of(kind, fallback_source) == match self.stream_of(kind) {
                Some(stream) => stream.branch_of(fallback_source),
                None => None,
            },
            self.block_of(kind, fallback_source) == match self.branch_of(kind, fallback_source) {
                Some(branch) => branch.source_srcpad_block,
                None => None,
            },
    {
        reveal(State::branch_of);
        reveal(State::block_of);
    }

    /// What a well-formed state says of each of its sources, and how the
    /// primary source is reached.
    pub proof fn lemma_source_of(self, fallback_source: bool)
        ensures
            self.source_of(false) == Some(self.source),
            self.source_of(true) == self.fallback_source,
            self.wf() && self.source_of(fallback_source) is Some ==> self.source_of(
                fallback_source,
            )->0.timers_ok(fallback_source, self.manually_blocked),
    {
        reveal(State::source_of);
    }

    /// Replacing a source by one whose timers are in order keeps a state
    /// well formed, and changes nothing but that source.
    pub proof fn lemma_with_source(self, fallback_source: bool, source: SourceBin)
        ensures
            self.wf() && source.timers_ok(fallback_source, self.manually_blocked)
                ==> self.with_source(fallback_source, source).wf(),
            self.with_source(fallback_source, source).source_of(fallback_source) == Some(source),
            self.with_source(fallback_source, source).source_of(!fallback_source)
                == self.source_of(!fallback_source),
            self.with_source(false, source) == (State { source, ..self }),
            self.with_source(true, source) == (State { fallback_source: Some(source), ..self }),
            self.with_source(fallback_source, source).stats == self.stats,
            self.with_source(fallback_source, source).settings == self.settings,
            self.with_source(fallback_source, source).audio_stream == self.audio_stream,
            self.with_source(fallback_source, source).video_stream == self.video_stream,
            self.with_source(fallback_source, source).manually_blocked == self.manually_blocked,
            self.with_source(fallback_source, source).configured_source == self.configured_source,
    {
        reveal(State::source_of);
        reveal(State::with_source);
    }

    /// Replacing a branch keeps a state well formed, as long as a branch
    /// from the fallback source is only put where there is such a source.
    /// It changes nothing but that branch.
    pub proof fn lemma_with_branch(
        self,
        kind: StreamKind,
        fallback_source: bool,
        branch: Option<StreamBranch>,
    )
        ensures
            self.wf() && (fallback_source && branch is Some ==> self.fallback_source is Some)
                ==> self.with_branch(kind, fallback_source, branch).wf(),
            self.stream_of(kind) is Some ==> self.with_branch(
                kind,
                fallback_source,
                branch,
            ).branch_of(kind, fallback_source) == branch,
            self.stream_of(kind) is None ==> self.with_branch(kind, fallback_source, branch)
                == self,
            forall|k: StreamKind, f: bool|
                k != kind || f != fallback_source ==> #[trigger] self.with_branch(
                    kind,
                    fallback_source,
                    branch,
                ).branch_of(k, f) == self.branch_of(k, f),
            forall|k: StreamKind| #[trigger]
                self.with_branch(kind, fallback_source, branch).stream_of(k) is Some
                    <==> self.stream_of(k) is Some,
            self.with_branch(kind, fallback_source, branch).source == self.source,
            self.with_branch(kind, fallback_source, branch).fallback_source
                == self.fallback_source,
            forall|f: bool| #[trigger]
                self.with_branch(kind, fallback_source, branch).source_of(f) == self.source_of(f),
            self.with_branch(kind, fallback_source, branch).stats == self.stats,
            self.with_branch(kind, fallback_source, branch).settings == self.settings,
            self.with_branch(kind, fallback_source, branch).manually_blocked
                == self.manually_blocked,
            self.with_branch(kind, fallback_source, branch).configured_source
                == self.configured_source,
            self.with_branch(kind, fallback_source, branch).last_buffering_update
                == self.last_buffering_update,
            self.with_branch(kind, fallback_source, branch).fallback_last_buffering_update
                == self.fallback_last_buffering_update,
    {
        reveal(State::source_of);
        reveal(State::branch_of);
        reveal(State::with_branch);
    }

    /// Replacing the block of a branch keeps a state well formed, and
    /// changes nothing but that block.
    pub proof fn lemma_with_block(
        self,
        kind: StreamKind,
        fallback_source: bool,
        block: Option<Block>,
    )
        ensures
            self.wf() ==> self.with_block(kind, fallback_source, block).wf(),
            self.branch_of(kind, fallback_source) is Some ==> self.with_block(
                kind,
                fallback_source,
                block,
            ).block_of(kind, fallback_source) == block,
            self.branch_of(kind, fallback_source) is None ==> self.with_block(
                kind,
                fallback_source,
                block,
            ) == self,
            self.block_of(kind, fallback_source) == block ==> self.with_block(
                kind,
                fallback_source,
                block,
            ) == self,
            forall|k: StreamKind, f: bool|
                k != kind || f != fallback_source ==> #[trigger] self.with_block(
                    kind,
                    fallback_source,
                    block,
                ).block_of(k, f) == self.block_of(k, f),
            forall|k: StreamKind, f: bool|
                k != kind || f != fallback_source ==> #[trigger] self.with_block(
                    kind,
                    fallback_source,
                    block,
                ).branch_of(k, f) == self.branch_of(k, f),
            forall|k: StreamKind, f: bool| #[trigger]
                self.with_block(kind, fallback_source, block).branch_of(k, f) is Some
                    <==> self.branch_of(k, f) is Some,
            forall|k: StreamKind| #[trigger]
                self.with_block(kind, fallback_source, block).stream_of(k) is Some
                    <==> self.stream_of(k) is Some,
            self.with_block(kind, fallback_source, block).source == self.source,
            self.with_block(kind, fallback_source, block).fallback_source == self.fallback_source,
            forall|f: bool| #[trigger]
                self.with_block(kind, fallback_source, block).source_of(f) == self.source_of(f),
            self.with_block(kind, fallback_source, block).stats == self.stats,
            self.with_block(kind, fallback_source, block).settings == self.settings,
            self.with_block(kind, fallback_source, block).manually_blocked
                == self.manually_blocked,
            self.with_block(kind, fallback_source, block).configured_source
                == self.configured_source,
            self.with_block(kind, fallback_source, block).last_buffering_update
                == self.last_buffering_update,
            self.with_block(kind, fallback_source, block).fallback_last_buffering_update
                == self.fallback_last_buffering_update,
    {
        reveal(State::source_of);
        reveal(State::branch_of);
        reveal(State::block_of);
        reveal(State::with_branch);
        reveal(State::with_block);
    }

    /// Replacing the time of a source's last buffering report keeps a state
    /// well formed, and changes nothing but that time.
    pub proof fn lemma_with_last_update(self, fallback_source: bool, at: Option<u64>)
        ensures
            self.wf() ==> self.with_last_update(fallback_source, at).wf(),
            self.with_last_update(false, at) == (State { last_buffering_update: at, ..self }),
            self.with_last_update(true, at) == (State {
                fallback_last_buffering_update: at,
                ..self
            }),
    {
        reveal(State::with_last_update);
    }

    /// What the accessors of a state stand for, all at once: for proofs
    /// that look inside a state.
    pub proof fn lemma_accessors()
        ensures
            forall|s: State, fallback: bool| #[trigger]
                s.source_of(fallback) == if fallback {
                    s.fallback_source
                } else {
                    Some(s.source)
                },
            forall|s: State, fallback: bool, source: SourceBin| #[trigger]
                s.with_source(fallback, source) == if fallback {
                    State { fallback_source: Some(source), ..s }
                } else {
                    State { source, ..s }
                },
            forall|s: State, kind: StreamKind, fallback: bool| #[trigger]
                s.branch_of(kind, fallback) == match s.stream_of(kind) {
                    Some(stream) => stream.branch_of(fallback),
                    None => None,
                },
            forall|s: State, kind: StreamKind, fallback: bool| #[trigger]
                s.block_of(kind, fallback) == match s.branch_of(kind, fallback) {
                    Some(branch) => branch.source_srcpad_block,
                    None => None,
                },
            forall|s: State, kind: StreamKind, fallback: bool, branch: Option<StreamBranch>|
                #[trigger]
                s.with_branch(kind, fallback, branch) == match s.stream_of(kind) {
                    Some(stream) => match kind {
                        StreamKind::Audio => State {
                            audio_stream: Some(stream.with_branch(fallback, branch)),
                            ..s
                        },
                        StreamKind::Video => State {
                            video_stream: Some(stream.with_branch(fallback, branch)),
                            ..s
                        },
                    },
                    None => s,
                },
            forall|s: State, kind: StreamKind, fallback: bool, block: Option<Block>| #[trigger]
                s.with_block(kind, fallback, block) == match s.branch_of(kind, fallback) {
                    Some(branch) => s.with_branch(
                        kind,
                        fallback,
                        Some(StreamBranch { source_srcpad_block: block, ..branch }),
                    ),
                    None => s,
                },
            forall|s: State, fallback: bool, at: Option<u64>| #[trigger]
                s.with_last_update(fallback, at) == if fallback {
                    State { fallback_last_buffering_update: at, ..s }
                } else {
                    State { last_buffering_update: at, ..s }
                },
    {
        reveal(State::source_of);
        reveal(State::with_source);
        reveal(State::branch_of);
        reveal(State::block_of);
        reveal(State::with_branch);
        reveal(State::with_block);
        reveal(State::with_last_update);
    }

    /// The primary source, or the fallback source if there is one.
    pub fn source(&self, fallback_source: bool) -> (source: Option<SourceBin>)
        ensures
            source == self.source_of(fallback_source),
    {
        reveal(State::source_of);
        if fallback_source {
            self.fallback_source
        } else {
            Some(self.source)
        }
    }

    /// Replaces one source.
    pub fn set_source(&mut self, fallback_source: bool, source: SourceBin)
        ensures
            *final(self) == old(self).with_source(fallback_source, source),
    {
        reveal(State::with_source);
        if fallback_source {
            self.fallback_source = Some(source);
        } else {
            self.source = source;
        }
    }

    /// Replaces the time of one source's last buffering report.
    pub fn set_last_update(&mut self, fallback_source: bool, at: Option<u64>)
        ensures
            *final(self) == old(self).with_last_update(fallback_source, at),
    {
        reveal(State::with_last_update);
        if fallback_source {
            self.fallback_last_buffering_update = at;
        } else {
            self.last_buffering_update = at;
        }
    }

    /// The stream of one kind, if that kind is enabled.
    pub fn stream(&self, kind: StreamKind) -> (stream: Option<Stream>)
        ensures
            stream == self.stream_of(kind),
    {
        match kind {
            StreamKind::Audio => self.audio_stream,
            StreamKind::Video => self.video_stream,
        }
    }

    /// The branch of one kind from one source.
    pub fn branch(&self, kind: StreamKind, fallback_source: bool) -> (branch: Option<StreamBranch>)
        ensures
            branch == self.branch_of(kind, fallback_source),
    {
        reveal(State::branch_of);
        match self.stream(kind) {
            Some(stream) => if fallback_source {
                stream.fallback_branch
            } else {
                stream.main_branch
            },
            None => None,
        }
    }

    /// The block on the branch of one kind from one source.
    pub fn block(&self, kind: StreamKind, fallback_source: bool) -> (block: Option<Block>)
        ensures
            block == self.block_of(kind, fallback_source),
    {
        reveal(State::block_of);
        match self.branch(kind, fallback_source) {
            Some(branch) => branch.source_srcpad_block,
            None => None,
        }
    }

    /// Replaces one branch, if there is a stream of that kind.
    pub fn set_branch(
        &mut self,
        kind: StreamKind,
        fallback_source: bool,
        branch: Option<StreamBranch>,
    )
        ensures
            *final(self) == old(self).with_branch(kind, fallback_source, branch),
    {
        reveal(State::with_branch);
        match self.stream(kind) {
            Some(stream) => {
                let stream = if fallback_source {
                    Stream { fallback_branch: branch, ..stream }
                } else {
                    Stream { main_branch: branch, ..stream }
                };
                match kind {
                    StreamKind::Audio => {
                        self.audio_stream = Some(stream);
                    },
                    StreamKind::Video => {
                        self.video_stream = Some(stream);
                    },
                }
            },
            None => {},
        }
    }

    /// Replaces the block of one branch, if there is such a branch.
    pub fn set_block(&mut self, kind: StreamKind, fallback_source: bool, block: Option<Block>)
        ensures
            *final(self) == old(self).with_block(kind, fallback_source, block),
    {
        reveal(State::with_block);
        match self.branch(kind, fallback_source) {
            Some(branch) => {
                self.set_branch(
                    kind,
                    fallback_source,
                    Some(StreamBranch { source_srcpad_block: block, ..branch }),
                );
            },
            None => {},
        }
    }
}

} // verus!
