use fallbacksrc::action::{Action, Continuation};
use fallbacksrc::messages::{Event, Message};
use fallbacksrc::pads::{BlockError, BlockSample};
use fallbacksrc::state::SourceBin;
use fallbacksrc::supervisor::{FallbackSrc, StartError};
use fallbacksrc::types::{
    Observation, Origin, PadId, ProbeId, RetryReason, Settings, Source, StateChange,
    StateChangeSuccess, Stats, Status, StreamCollection, StreamKind, StreamType, TimerId,
};

fn quiet() -> Observation {
    Observation {
        now: 0,
        current_running_time: Some(1_000),
        audio_active_priority: Some(0),
        video_active_priority: Some(0),
        main_audio_eos: false,
        main_video_eos: false,
        fallback_audio_eos: false,
        fallback_video_eos: false,
    }
}

fn on_fallback() -> Observation {
    Observation { audio_active_priority: Some(1), video_active_priority: Some(2), ..quiet() }
}

fn from_main() -> Option<Origin> {
    Some(Origin { in_main: true, in_fallback: false })
}

fn from_fallback() -> Option<Origin> {
    Some(Origin { in_main: false, in_fallback: true })
}

fn from_elsewhere() -> Option<Origin> {
    Some(Origin { in_main: false, in_fallback: false })
}

fn with_uri() -> Settings {
    Settings { has_uri: true, ..Settings::default() }
}

fn with_both() -> Settings {
    Settings { has_uri: true, has_fallback_uri: true, ..Settings::default() }
}

fn started(settings: Settings) -> FallbackSrc {
    let mut src = FallbackSrc::new(settings);
    src.start().unwrap();
    src
}

/// A running supervisor whose primary source has an audio and a video
/// branch, both blocked: video by probe 0, audio by probe 1.
fn with_branches(settings: Settings) -> FallbackSrc {
    let mut src = started(settings);
    src.handle_source_pad_added(PadId(1), "video_0", None, None, false);
    src.handle_source_pad_linked(PadId(1), StreamKind::Video, false, false);
    src.handle_source_pad_added(PadId(2), "audio_0", None, None, false);
    src.handle_source_pad_linked(PadId(2), StreamKind::Audio, false, false);
    src
}

fn both_kinds() -> Vec<StreamType> {
    vec![StreamType { audio: true, video: true }]
}

#[test]
fn defaults_are_as_documented() {
    let settings = Settings::default();
    assert!(settings.enable_audio);
    assert!(settings.enable_video);
    assert!(!settings.has_uri);
    assert!(!settings.has_source);
    assert!(!settings.has_fallback_uri);
    assert_eq!(settings.timeout, 5_000_000_000);
    assert_eq!(settings.restart_timeout, 5_000_000_000);
    assert_eq!(settings.retry_timeout, 60_000_000_000);
    assert!(!settings.restart_on_eos);
    assert_eq!(settings.min_latency, 0);
    assert_eq!(settings.buffer_duration, -1);
    assert!(!settings.immediate_fallback);
    assert!(!settings.manual_unblock);
    let stats = Stats::default();
    assert_eq!(stats.num_retry, 0);
    assert_eq!(stats.num_fallback_retry, 0);
    assert_eq!(stats.last_retry_reason, RetryReason::NoRetry);
    assert_eq!(stats.last_fallback_retry_reason, RetryReason::NoRetry);
    assert_eq!(stats.buffering_percent, 100);
    assert_eq!(stats.fallback_buffering_percent, 100);
    let src = FallbackSrc::default();
    assert_eq!(src.settings(), settings);
    assert_eq!(src.state, None);
    assert_eq!(src.status(), Status::Stopped);
    assert_eq!(src.stats(), stats);
    assert_eq!(SourceBin::new().restart_timeout, None);
    assert!(!SourceBin::new().pending_restart);
}

#[test]
fn settings_select_the_primary_source() {
    assert_eq!(Settings::default().configured_source(), None);
    assert_eq!(with_uri().configured_source(), Some(Source::Uri));
    let element = Settings { has_source: true, ..Settings::default() };
    assert_eq!(element.configured_source(), Some(Source::Element));
    let both = Settings { has_uri: true, has_source: true, ..Settings::default() };
    assert_eq!(both.configured_source(), Some(Source::Uri));
    assert!(Settings::default().enabled(StreamKind::Audio));
    let mute = Settings { enable_audio: false, ..Settings::default() };
    assert!(!mute.enabled(StreamKind::Audio));
    assert!(mute.enabled(StreamKind::Video));
}

#[test]
fn start_without_a_source_fails() {
    let mut src = FallbackSrc::new(Settings::default());
    assert_eq!(src.start(), Err(StartError::NoSource));
    assert_eq!(src.state, None);
    assert_eq!(src.status(), Status::Stopped);
    let mut src = FallbackSrc::new(Settings { has_fallback_uri: true, ..Settings::default() });
    assert_eq!(src.start(), Err(StartError::NoSource));
}

#[test]
fn start_twice_fails() {
    let mut src = started(with_uri());
    let before = src;
    assert_eq!(src.start(), Err(StartError::AlreadyStarted));
    assert_eq!(src, before);
}

#[test]
fn start_builds_what_is_configured() {
    let mut src = FallbackSrc::new(Settings {
        has_source: true,
        has_fallback_uri: true,
        enable_video: false,
        min_latency: 3_000_000_000,
        timeout: 7,
        buffer_duration: 9,
        immediate_fallback: true,
        manual_unblock: true,
        ..Settings::default()
    });
    let actions = src.start().unwrap();
    assert_eq!(
        actions,
        vec![
            Action::CreateMainInput { source: Source::Element, buffer_duration: 9 },
            Action::CreateFallbackInput { buffer_duration: 9 },
            Action::CreateDummySource { kind: StreamKind::Audio, max_size_time: 3_000_000_000 },
            Action::CreateStream {
                kind: StreamKind::Audio,
                timeout: 7,
                min_latency: 3_000_000_000,
                immediate_fallback: true,
            },
            Action::NoMorePads,
            Action::NotifyStatus,
        ]
    );
    let state = src.state.unwrap();
    assert_eq!(state.source, SourceBin::new());
    assert_eq!(state.fallback_source, Some(SourceBin::new()));
    assert!(state.audio_stream.is_some());
    assert!(state.video_stream.is_none());
    assert!(state.audio_dummy_source);
    assert!(!state.video_dummy_source);
    assert_eq!(state.configured_source, Source::Element);
    assert!(state.manually_blocked);
    assert!(!state.schedule_restart_on_unblock);
    assert_eq!(state.stats, Stats::default());
    assert_eq!(state.last_buffering_update, None);
}

#[test]
fn settings_changed_while_running_count_from_the_next_start() {
    let mut src = started(with_uri());
    src.set_settings(Settings { has_uri: true, enable_audio: false, ..Settings::default() });
    assert!(src.state.unwrap().settings.enable_audio);
    assert!(src.state.unwrap().audio_stream.is_some());
    src.stop();
    src.start().unwrap();
    assert!(!src.state.unwrap().settings.enable_audio);
    assert!(src.state.unwrap().audio_stream.is_none());
}

#[test]
fn stop_of_a_stopped_supervisor_is_a_no_op() {
    let mut src = FallbackSrc::new(with_uri());
    let before = src;
    assert!(src.stop().is_empty());
    assert_eq!(src, before);

    let mut src = started(with_both());
    assert!(!src.stop().is_empty());
    let stopped = src;
    assert!(src.stop().is_empty());
    assert_eq!(src, stopped);
    assert_eq!(src.state, None);
    assert_eq!(src.status(), Status::Stopped);
}

#[test]
fn stop_takes_everything_down_and_disarms_every_timer() {
    let mut src = with_branches(with_both());
    src.source_state_changed(
        StateChange::ReadyToPaused,
        false,
        Some(StateChangeSuccess::Success),
    );
    let restart_timeout = src.state.unwrap().source.restart_timeout.unwrap();
    assert_eq!(restart_timeout, TimerId(2));
    // The fallback source fails and gets as far as its pause.
    src.handle_source_error(RetryReason::Error, true);
    src.drain_source(true);
    src.cool_down_source(true);
    let pause = src.state.unwrap().fallback_source.unwrap().pending_restart_timeout.unwrap();
    assert_eq!(pause, TimerId(3));

    let actions = src.stop();
    assert_eq!(
        actions,
        vec![
            Action::NotifyStatus,
            Action::RemovePadProbe { probe: ProbeId(0) },
            Action::RemoveBranch { kind: StreamKind::Video, fallback_source: false },
            Action::RemoveStream { kind: StreamKind::Video },
            Action::RemovePadProbe { probe: ProbeId(1) },
            Action::RemoveBranch { kind: StreamKind::Audio, fallback_source: false },
            Action::RemoveStream { kind: StreamKind::Audio },
            Action::RemoveSource { fallback_source: false },
            Action::UnscheduleTimer { timer: TimerId(2) },
            Action::RemoveSource { fallback_source: true },
            Action::UnscheduleTimer { timer: TimerId(3) },
            Action::RemoveDummySource { kind: StreamKind::Video },
            Action::RemoveDummySource { kind: StreamKind::Audio },
        ]
    );
    assert_eq!(src.state, None);
    // Timers that fire late are ignored.
    assert!(src.handle_timeout(TimerId(2), quiet()).is_empty());
    assert!(src.handle_timeout(TimerId(3), quiet()).is_empty());
    assert_eq!(src.state, None);
}

#[test]
fn stop_releases_a_source_element() {
    let mut src = started(Settings { has_source: true, ..Settings::default() });
    let actions = src.stop();
    assert!(actions.contains(&Action::ReleaseSourceElement));
    let mut src = started(with_uri());
    assert!(!src.stop().contains(&Action::ReleaseSourceElement));
}

#[test]
fn handles_are_not_reused_across_restarts_of_the_supervisor() {
    let mut src = started(with_uri());
    src.source_state_changed(
        StateChange::ReadyToPaused,
        false,
        Some(StateChangeSuccess::Success),
    );
    assert_eq!(src.state.unwrap().source.restart_timeout, Some(TimerId(0)));
    src.stop();
    src.start().unwrap();
    src.source_state_changed(
        StateChange::ReadyToPaused,
        false,
        Some(StateChangeSuccess::Success),
    );
    assert_eq!(src.state.unwrap().source.restart_timeout, Some(TimerId(1)));
    assert!(src.handle_timeout(TimerId(0), on_fallback()).is_empty());
}

#[test]
fn handles_wrap_around() {
    let mut src = started(with_uri());
    src.next_handle = u64::MAX;
    let actions = src.schedule_source_restart_timeout(0, false);
    assert_eq!(
        actions,
        vec![Action::ScheduleTimer { timer: TimerId(u64::MAX), delay: 5_000_000_000 }]
    );
    assert_eq!(src.next_handle, 0);
}

#[test]
fn status_follows_the_primary_source() {
    let mut src = with_branches(with_both());
    assert_eq!(src.status(), Status::Buffering);
    src.handle_streams_selected(from_main(), &both_kinds(), quiet());
    assert_eq!(src.status(), Status::Buffering);
    let obs = quiet();
    src.handle_pad_blocked(ProbeId(0), false, BlockSample::RunningTime(Some(1)), obs).unwrap();
    assert_eq!(src.status(), Status::Buffering);
    src.handle_pad_blocked(ProbeId(1), false, BlockSample::RunningTime(Some(1)), obs).unwrap();
    assert_eq!(src.status(), Status::Running);

    // Less than full buffers: buffering.
    src.handle_buffering(from_main(), 99, obs);
    assert_eq!(src.status(), Status::Buffering);
    src.handle_buffering(from_main(), 100, obs);
    // The branches were blocked again and have no running time yet.
    assert_eq!(src.status(), Status::Buffering);

    // A failure of the fallback source does not show.
    let mut src = started(with_both());
    src.handle_source_error(RetryReason::Error, true);
    assert_eq!(src.status(), Status::Buffering);
    // A failure of the primary source does.
    src.handle_source_error(RetryReason::Error, false);
    assert_eq!(src.status(), Status::Retrying);
}

#[test]
fn status_is_retrying_while_a_retry_timer_is_armed() {
    let mut src = with_branches(with_uri());
    let mut state = src.state.unwrap();
    state.source.retry_timeout = Some(TimerId(77));
    src.state = Some(state);
    assert_eq!(src.status(), Status::Retrying);
    // Going back to the main content disarms it.
    src.handle_streams_selected(from_main(), &both_kinds(), quiet());
    let actions = src.handle_switch_active_pad_change(quiet());
    assert_eq!(
        actions,
        vec![Action::UnscheduleTimer { timer: TimerId(77) }, Action::NotifyStatus]
    );
    assert_eq!(src.state.unwrap().source.retry_timeout, None);
}

#[test]
fn state_change_results() {
    assert_eq!(
        FallbackSrc::state_change_result(StateChange::ReadyToPaused),
        StateChangeSuccess::NoPreroll
    );
    assert_eq!(
        FallbackSrc::state_change_result(StateChange::PlayingToPaused),
        StateChangeSuccess::NoPreroll
    );
    for transition in [
        StateChange::NullToReady,
        StateChange::PausedToPlaying,
        StateChange::PausedToReady,
        StateChange::ReadyToNull,
        StateChange::NullToNull,
        StateChange::ReadyToReady,
        StateChange::PausedToPaused,
        StateChange::PlayingToPlaying,
    ] {
        assert_eq!(FallbackSrc::state_change_result(transition), StateChangeSuccess::Success);
    }
}

#[test]
fn everything_is_ignored_while_stopped() {
    let mut src = FallbackSrc::new(with_both());
    let before = src;
    let obs = quiet();
    assert!(src.change_source_state(StateChange::ReadyToPaused, false).is_empty());
    assert!(src
        .source_state_changed(StateChange::ReadyToPaused, false, Some(StateChangeSuccess::Success))
        .is_empty());
    assert!(src.source_state_changed(StateChange::ReadyToPaused, false, None).is_empty());
    assert!(src.handle_source_pad_added(PadId(1), "audio", None, None, false).is_empty());
    assert!(src.handle_source_pad_linked(PadId(1), StreamKind::Audio, false, false).is_empty());
    assert!(src.add_pad_probe(StreamKind::Audio, false).is_empty());
    assert_eq!(
        src.handle_pad_blocked(ProbeId(0), false, BlockSample::NoTimeSegment, obs),
        Ok(vec![])
    );
    assert!(src.handle_source_pad_removed(PadId(1), false, obs).is_empty());
    assert_eq!(src.handle_source_eos(PadId(1), true), (false, vec![]));
    assert!(src.handle_buffering(from_main(), 10, obs).is_empty());
    assert!(src.handle_streams_selected(from_main(), &both_kinds(), obs).is_empty());
    assert_eq!(src.handle_error(from_main()), (false, vec![]));
    assert!(src.handle_source_error(RetryReason::Error, false).is_empty());
    assert!(src.drain_source(false).is_empty());
    assert!(src.cool_down_source(false).is_empty());
    assert!(src.restart_source(false).is_empty());
    assert!(src.source_restarted(false, true).is_empty());
    assert!(src.source_restarted(false, false).is_empty());
    assert!(src.schedule_source_restart_timeout(0, false).is_empty());
    assert!(src.handle_restart_timeout(TimerId(0), obs).is_empty());
    assert!(src.handle_timeout(TimerId(0), obs).is_empty());
    assert!(src.handle_switch_active_pad_change(obs).is_empty());
    assert!(src.unblock(obs).is_empty());
    assert!(src.unblock_pads(false, obs).is_empty());
    assert!(src.send_event(Event::Eos).is_empty());
    assert!(!src.have_fallback_activated(obs));
    assert_eq!(src, before);
}

#[test]
fn the_fallback_is_activated_when_every_kind_is_away_from_the_main_content() {
    let mut src = with_branches(with_both());
    // No streams announced yet.
    assert!(src.have_fallback_activated(quiet()));
    assert!(src.have_fallback_activated(on_fallback()));
    src.handle_streams_selected(from_main(), &both_kinds(), quiet());
    assert!(!src.have_fallback_activated(quiet()));
    assert!(src.have_fallback_activated(on_fallback()));
    // One switch away from the main content is not enough.
    let audio_only = Observation { audio_active_priority: Some(1), ..quiet() };
    assert!(!src.have_fallback_activated(audio_only));
    let video_dummy = Observation { video_active_priority: Some(2), ..quiet() };
    assert!(!src.have_fallback_activated(video_dummy));
    // A switch that has selected nothing shows no main content.
    let nothing = Observation { video_active_priority: None, ..quiet() };
    assert!(!src.have_fallback_activated(nothing));
    let nothing_at_all =
        Observation { audio_active_priority: None, video_active_priority: None, ..quiet() };
    assert!(src.have_fallback_activated(nothing_at_all));
    let dummy_and_nothing =
        Observation { audio_active_priority: Some(2), video_active_priority: None, ..quiet() };
    assert!(src.have_fallback_activated(dummy_and_nothing));

    // Only the kinds that the source has announced count.
    src.handle_streams_selected(
        from_main(),
        &vec![StreamType { audio: true, video: false }],
        quiet(),
    );
    assert!(src.have_fallback_activated(audio_only));
    assert!(!src.have_fallback_activated(video_dummy));

    // A kind that is not enabled does not count: nothing is left that
    // could show the main content.
    let mut src = started(Settings { enable_audio: false, ..with_uri() });
    src.handle_streams_selected(
        from_main(),
        &vec![StreamType { audio: true, video: false }],
        quiet(),
    );
    assert!(src.have_fallback_activated(on_fallback()));
    assert!(src.have_fallback_activated(quiet()));
}

#[test]
fn one_switch_on_the_fallback_arms_no_restart_timeout_but_lets_an_armed_one_fire() {
    let mut src = with_branches(Settings { restart_timeout: 10, ..with_both() });
    src.handle_streams_selected(from_main(), &both_kinds(), quiet());
    let audio_only = Observation { audio_active_priority: Some(1), ..quiet() };

    // Not every kind is away from the main content: whatever watches the
    // source is disarmed.
    src.schedule_source_restart_timeout(0, false);
    let armed = src.state.unwrap().source.restart_timeout.unwrap();
    let actions = src.handle_switch_active_pad_change(audio_only);
    assert_eq!(actions, vec![Action::UnscheduleTimer { timer: armed }, Action::NotifyStatus]);
    assert_eq!(src.state.unwrap().source.restart_timeout, None);
    let actions = src.handle_switch_active_pad_change(audio_only);
    assert_eq!(actions, vec![Action::NotifyStatus]);

    // A restart timeout that fires while one kind shows the fallback
    // restarts the source: the main content is not delivered.
    src.schedule_source_restart_timeout(0, false);
    let armed = src.state.unwrap().source.restart_timeout.unwrap();
    let actions = src.handle_restart_timeout(armed, audio_only);
    assert_eq!(
        actions,
        vec![
            Action::DropEos { fallback_source: false },
            Action::Continue(Continuation::Drain { fallback_source: false }),
            Action::NotifyStatistics,
        ]
    );
    assert_eq!(src.stats().num_retry, 1);
    assert_eq!(src.stats().last_retry_reason, RetryReason::Timeout);
}

#[test]
fn a_restart_timeout_does_nothing_when_the_only_announced_kind_is_disabled() {
    let mut src = started(Settings { enable_audio: false, ..with_uri() });
    src.handle_streams_selected(
        from_main(),
        &vec![StreamType { audio: true, video: false }],
        quiet(),
    );
    // The fallback counts as activated, so a timeout is armed.
    let actions = src.handle_switch_active_pad_change(on_fallback());
    assert_eq!(
        actions,
        vec![
            Action::ScheduleTimer { timer: TimerId(0), delay: 5_000_000_000 },
            Action::NotifyStatus,
        ]
    );
    // But no enabled kind misses its main content, so it restarts nothing.
    assert!(src.handle_restart_timeout(TimerId(0), on_fallback()).is_empty());
    assert_eq!(src.state.unwrap().source.restart_timeout, None);
    assert_eq!(src.stats().num_retry, 0);
}

#[test]
fn switching_to_the_fallback_arms_one_restart_timeout_and_back_disarms_it() {
    let mut src = with_branches(with_both());
    src.handle_streams_selected(from_main(), &both_kinds(), quiet());
    assert_eq!(src.state.unwrap().source.restart_timeout, None);

    let actions = src.handle_switch_active_pad_change(on_fallback());
    assert_eq!(
        actions,
        vec![
            Action::ScheduleTimer { timer: TimerId(2), delay: 5_000_000_000 },
            Action::NotifyStatus,
        ]
    );
    assert_eq!(src.state.unwrap().source.restart_timeout, Some(TimerId(2)));

    // The other switch follows: no second timer.
    let actions = src.handle_switch_active_pad_change(on_fallback());
    assert_eq!(actions, vec![Action::NotifyStatus]);
    assert_eq!(src.state.unwrap().source.restart_timeout, Some(TimerId(2)));

    let actions = src.handle_switch_active_pad_change(quiet());
    assert_eq!(
        actions,
        vec![Action::UnscheduleTimer { timer: TimerId(2) }, Action::NotifyStatus]
    );
    assert_eq!(src.state.unwrap().source.restart_timeout, None);

    // The disarmed timer is ignored if it fires all the same.
    assert!(src.handle_timeout(TimerId(2), on_fallback()).is_empty());
    assert_eq!(src.stats().num_retry, 0);
}

#[test]
fn no_restart_timeout_for_the_fallback_an_image_a_restart_or_a_held_source() {
    let mut src = started(with_both());
    assert!(src.schedule_source_restart_timeout(0, true).is_empty());
    assert_eq!(src.state.unwrap().fallback_source.unwrap().restart_timeout, None);

    let mut src = started(with_uri());
    src.handle_source_pad_added(PadId(1), "video_0", None, Some("image/png"), false);
    assert!(src.state.unwrap().source.is_image);
    assert!(src.schedule_source_restart_timeout(0, false).is_empty());
    assert!(src.handle_switch_active_pad_change(on_fallback()) == vec![Action::NotifyStatus]);
    assert_eq!(src.state.unwrap().source.restart_timeout, None);

    let mut src = started(with_uri());
    src.handle_source_error(RetryReason::Error, false);
    assert!(src.schedule_source_restart_timeout(0, false).is_empty());

    let mut src = started(Settings { manual_unblock: true, ..with_uri() });
    assert!(src.schedule_source_restart_timeout(0, false).is_empty());
    assert_eq!(src.state.unwrap().source.restart_timeout, None);
}

#[test]
fn a_restart_timeout_that_is_armed_again_replaces_the_old_one() {
    let mut src = started(Settings { restart_timeout: 10, ..with_uri() });
    assert_eq!(
        src.schedule_source_restart_timeout(0, false),
        vec![Action::ScheduleTimer { timer: TimerId(0), delay: 10 }]
    );
    assert_eq!(
        src.schedule_source_restart_timeout(4, false),
        vec![
            Action::UnscheduleTimer { timer: TimerId(0) },
            Action::ScheduleTimer { timer: TimerId(1), delay: 6 },
        ]
    );
    assert_eq!(
        src.schedule_source_restart_timeout(25, false),
        vec![
            Action::UnscheduleTimer { timer: TimerId(1) },
            Action::ScheduleTimer { timer: TimerId(2), delay: 0 },
        ]
    );
    assert_eq!(src.state.unwrap().source.restart_timeout, Some(TimerId(2)));
}

#[test]
fn the_restart_timeout_does_nothing_while_the_main_content_is_shown() {
    let mut src = with_branches(with_both());
    src.handle_streams_selected(from_main(), &both_kinds(), quiet());
    src.schedule_source_restart_timeout(0, false);
    let timer = src.state.unwrap().source.restart_timeout.unwrap();
    let actions = src.handle_restart_timeout(timer, quiet());
    assert!(actions.is_empty());
    assert_eq!(src.state.unwrap().source.restart_timeout, None);
    assert_eq!(src.stats().num_retry, 0);
    assert!(!src.state.unwrap().source.pending_restart);
}

#[test]
fn the_restart_timeout_fires_for_a_source_with_full_buffers() {
    let mut src = started(Settings { restart_timeout: 10, ..with_uri() });
    // The last report is recent, but it said a hundred percent.
    src.handle_buffering(from_main(), 100, Observation { now: 8, ..quiet() });
    assert_eq!(src.state.unwrap().last_buffering_update, Some(8));
    src.schedule_source_restart_timeout(0, false);
    let actions =
        src.handle_restart_timeout(TimerId(0), Observation { now: 10, ..on_fallback() });
    assert_eq!(
        actions,
        vec![
            Action::DropEos { fallback_source: false },
            Action::Continue(Continuation::Drain { fallback_source: false }),
            Action::NotifyStatistics,
        ]
    );
    assert_eq!(src.stats().num_retry, 1);
    assert_eq!(src.stats().last_retry_reason, RetryReason::Timeout);
}

#[test]
fn the_restart_timeout_gives_a_buffering_source_the_rest_of_the_window() {
    let mut src = started(Settings { restart_timeout: 10, ..with_uri() });
    src.handle_buffering(from_main(), 70, Observation { now: 4, ..quiet() });
    src.schedule_source_restart_timeout(0, false);
    let actions =
        src.handle_restart_timeout(TimerId(0), Observation { now: 11, ..on_fallback() });
    assert_eq!(actions, vec![Action::ScheduleTimer { timer: TimerId(1), delay: 3 }]);
    assert_eq!(src.stats().num_retry, 0);
    // A report that is a whole window old does not hold the restart back.
    let actions =
        src.handle_restart_timeout(TimerId(1), Observation { now: 14, ..on_fallback() });
    assert_eq!(actions.len(), 3);
    assert_eq!(src.stats().num_retry, 1);
}

#[test]
fn the_restart_timeout_waits_for_a_source_below_full_buffers() {
    let mut src = started(Settings { restart_timeout: 10, ..with_uri() });
    // Below a hundred percent without a time of the last report.
    let mut state = src.state.unwrap();
    state.stats.buffering_percent = 30;
    src.state = Some(state);
    src.schedule_source_restart_timeout(0, false);
    let actions = src.handle_restart_timeout(TimerId(0), on_fallback());
    assert_eq!(actions, vec![Action::ScheduleTimer { timer: TimerId(1), delay: 10 }]);
    assert_eq!(src.stats().num_retry, 0);
}

#[test]
fn concurrent_errors_collapse_into_one_restart() {
    let mut src = started(with_both());
    src.schedule_source_restart_timeout(0, false);
    let first = src.handle_source_error(RetryReason::Error, false);
    assert_eq!(
        first,
        vec![
            Action::UnscheduleTimer { timer: TimerId(0) },
            Action::DropEos { fallback_source: false },
            Action::Continue(Continuation::Drain { fallback_source: false }),
        ]
    );
    assert_eq!(src.stats().num_retry, 1);
    assert_eq!(src.stats().last_retry_reason, RetryReason::Error);
    assert!(src.state.unwrap().source.pending_restart);
    assert_eq!(src.state.unwrap().source.restart_timeout, None);

    for reason in [RetryReason::Eos, RetryReason::Timeout, RetryReason::StateChangeFailure] {
        assert!(src.handle_source_error(reason, false).is_empty());
        assert_eq!(src.stats().num_retry, 1);
        assert_eq!(src.stats().last_retry_reason, reason);
    }
    // The fallback source has its own counter and its own restart.
    assert_eq!(src.stats().num_fallback_retry, 0);
    assert_eq!(src.stats().last_fallback_retry_reason, RetryReason::NoRetry);
    let fallback = src.handle_source_error(RetryReason::Eos, true);
    assert_eq!(
        fallback,
        vec![
            Action::DropEos { fallback_source: true },
            Action::Continue(Continuation::Drain { fallback_source: true }),
        ]
    );
    assert_eq!(src.stats().num_fallback_retry, 1);
    assert_eq!(src.stats().last_fallback_retry_reason, RetryReason::Eos);
    assert_eq!(src.stats().num_retry, 1);
}

#[test]
fn an_error_of_a_source_that_does_not_exist_is_ignored() {
    let mut src = started(with_uri());
    let before = src;
    assert!(src.handle_source_error(RetryReason::Error, true).is_empty());
    assert_eq!(src, before);
}

#[test]
fn the_retry_counter_wraps() {
    let mut src = started(with_uri());
    let mut state = src.state.unwrap();
    state.stats.num_retry = u64::MAX;
    src.state = Some(state);
    src.handle_source_error(RetryReason::Error, false);
    assert_eq!(src.stats().num_retry, 0);
}

#[test]
fn a_uri_source_is_restarted_with_a_new_container() {
    let mut src = with_branches(with_uri());
    src.handle_streams_selected(from_main(), &both_kinds(), quiet());
    src.handle_buffering(from_main(), 60, Observation { now: 5, ..quiet() });
    src.handle_source_error(RetryReason::Error, false);

    let actions = src.drain_source(false);
    assert_eq!(
        actions,
        vec![
            Action::RemovePadProbe { probe: ProbeId(0) },
            Action::RemovePadProbe { probe: ProbeId(1) },
            Action::FlushBranch { kind: StreamKind::Audio, fallback_source: false },
            Action::FlushBranch { kind: StreamKind::Video, fallback_source: false },
            Action::ShutDownSource { fallback_source: false },
            Action::Continue(Continuation::CoolDown { fallback_source: false }),
        ]
    );
    let state = src.state.unwrap();
    assert_eq!(state.video_stream.unwrap().main_branch.unwrap().source_srcpad_block, None);
    assert_eq!(state.audio_stream.unwrap().main_branch.unwrap().source_srcpad_block, None);

    let actions = src.cool_down_source(false);
    assert_eq!(
        actions,
        vec![Action::ScheduleTimer { timer: TimerId(2), delay: 1_000_000_000 }]
    );
    assert_eq!(src.state.unwrap().source.pending_restart_timeout, Some(TimerId(2)));
    assert_eq!(src.status(), Status::Retrying);

    // A second cool-down does not arm a second timer.
    assert!(src.cool_down_source(false).is_empty());

    let actions = src.handle_timeout(TimerId(2), quiet());
    assert_eq!(
        actions,
        vec![
            Action::UnscheduleTimer { timer: TimerId(2) },
            Action::RecreateMainInput { source: Source::Uri, buffer_duration: -1 },
            Action::SyncSourceState { fallback_source: false },
        ]
    );
    let state = src.state.unwrap();
    assert_eq!(state.source, SourceBin::new());
    // What was known of the buffering stays.
    assert_eq!(state.stats.buffering_percent, 60);
    assert_eq!(state.last_buffering_update, Some(5));
    assert_eq!(state.stats.num_retry, 1);

    let actions = src.source_restarted(false, true);
    assert_eq!(
        actions,
        vec![Action::ScheduleTimer { timer: TimerId(3), delay: 5_000_000_000 }]
    );
    assert_eq!(src.state.unwrap().source.restart_timeout, Some(TimerId(3)));
}

#[test]
fn any_other_source_is_restarted_in_place() {
    let mut src = started(Settings { has_source: true, has_fallback_uri: true, ..Settings::default() });
    src.handle_streams_selected(from_main(), &both_kinds(), quiet());
    src.handle_streams_selected(from_fallback(), &both_kinds(), quiet());
    src.handle_buffering(from_main(), 60, Observation { now: 5, ..quiet() });
    src.handle_buffering(from_fallback(), 70, Observation { now: 6, ..quiet() });

    for fallback_source in [false, true] {
        src.handle_source_error(RetryReason::Error, fallback_source);
        src.drain_source(fallback_source);
        src.cool_down_source(fallback_source);
    }
    let main_timer = src.state.unwrap().source.pending_restart_timeout.unwrap();
    let fallback_timer =
        src.state.unwrap().fallback_source.unwrap().pending_restart_timeout.unwrap();
    assert_ne!(main_timer, fallback_timer);

    let actions = src.handle_timeout(fallback_timer, quiet());
    assert_eq!(
        actions,
        vec![
            Action::UnscheduleTimer { timer: fallback_timer },
            Action::SyncSourceState { fallback_source: true },
        ]
    );
    let state = src.state.unwrap();
    let fallback = state.fallback_source.unwrap();
    assert!(!fallback.pending_restart);
    assert_eq!(fallback.pending_restart_timeout, None);
    assert_eq!(fallback.streams, Some(StreamCollection { have_audio: true, have_video: true }));
    assert_eq!(state.stats.fallback_buffering_percent, 100);
    assert_eq!(state.fallback_last_buffering_update, None);
    assert_eq!(state.stats.buffering_percent, 60);
    assert_eq!(state.last_buffering_update, Some(5));
    assert!(state.source.pending_restart);

    let actions = src.handle_timeout(main_timer, quiet());
    assert_eq!(
        actions,
        vec![
            Action::UnscheduleTimer { timer: main_timer },
            Action::SyncSourceState { fallback_source: false },
        ]
    );
    let state = src.state.unwrap();
    assert!(!state.source.pending_restart);
    assert_eq!(state.stats.buffering_percent, 100);
    assert_eq!(state.last_buffering_update, None);
    assert!(state.source.streams.is_some());

    // The fallback source is not watched by a restart timeout.
    assert!(src.source_restarted(true, true).is_empty());
    assert_eq!(src.source_restarted(false, true).len(), 1);
}

#[test]
fn the_steps_of_a_restart_stop_once_the_restart_is_given_up() {
    let mut src = with_branches(with_uri());
    src.handle_source_error(RetryReason::Error, false);
    src.drain_source(false);
    src.cool_down_source(false);
    let timer = src.state.unwrap().source.pending_restart_timeout.unwrap();

    // The element shuts down.
    let actions = src.change_source_state(StateChange::PausedToReady, false);
    assert_eq!(
        actions,
        vec![
            Action::UnscheduleTimer { timer },
            Action::NotifyStatus,
            Action::ChangeSourceState {
                fallback_source: false,
                transition: StateChange::PausedToReady,
            },
        ]
    );
    assert!(!src.state.unwrap().source.pending_restart);
    assert_eq!(src.state.unwrap().source.pending_restart_timeout, None);

    let before = src;
    assert!(src.drain_source(false).is_empty());
    assert!(src.cool_down_source(false).is_empty());
    assert!(src.restart_source(false).is_empty());
    assert!(src.handle_timeout(timer, quiet()).is_empty());
    assert_eq!(src, before);
}

#[test]
fn a_failed_restart_begins_the_next_one() {
    let mut src = started(with_uri());
    src.handle_source_error(RetryReason::Error, false);
    src.drain_source(false);
    src.cool_down_source(false);
    src.restart_source(false);
    assert_eq!(src.stats().num_retry, 1);
    let actions = src.source_restarted(false, false);
    assert_eq!(
        actions,
        vec![
            Action::ShutDownSource { fallback_source: false },
            Action::DropEos { fallback_source: false },
            Action::Continue(Continuation::Drain { fallback_source: false }),
            Action::NotifyStatistics,
        ]
    );
    assert_eq!(src.stats().num_retry, 2);
    assert_eq!(src.stats().last_retry_reason, RetryReason::StateChangeFailure);
    assert!(src.state.unwrap().source.pending_restart);
}

#[test]
fn a_source_with_a_pending_restart_is_not_taken_upwards() {
    let mut src = started(with_both());
    src.handle_source_error(RetryReason::Error, false);
    let before = src;
    for transition in [
        StateChange::NullToReady,
        StateChange::ReadyToPaused,
        StateChange::PausedToPlaying,
        StateChange::PausedToPaused,
    ] {
        assert!(src.change_source_state(transition, false).is_empty());
        assert_eq!(src, before);
    }
    // The other source goes on.
    assert_eq!(
        src.change_source_state(StateChange::ReadyToPaused, true),
        vec![
            Action::NotifyStatus,
            Action::ChangeSourceState {
                fallback_source: true,
                transition: StateChange::ReadyToPaused,
            },
        ]
    );
    // Down to Paused the restart stays pending.
    assert_eq!(
        src.change_source_state(StateChange::PlayingToPaused, false),
        vec![
            Action::NotifyStatus,
            Action::ChangeSourceState {
                fallback_source: false,
                transition: StateChange::PlayingToPaused,
            },
        ]
    );
    assert!(src.state.unwrap().source.pending_restart);
    // Down to Null it is given up.
    src.change_source_state(StateChange::ReadyToNull, false);
    assert!(!src.state.unwrap().source.pending_restart);
}

#[test]
fn liveness_is_settled_on_the_way_to_paused() {
    let mut src = started(with_both());
    let actions = src.source_state_changed(
        StateChange::ReadyToPaused,
        false,
        Some(StateChangeSuccess::NoPreroll),
    );
    assert!(actions.is_empty());
    let state = src.state.unwrap();
    assert!(state.source.is_live);
    assert!(!state.schedule_restart_on_unblock);
    assert_eq!(state.source.restart_timeout, None);

    // A live source is watched from Playing on.
    let actions = src.source_state_changed(
        StateChange::PausedToPlaying,
        false,
        Some(StateChangeSuccess::Success),
    );
    assert_eq!(
        actions,
        vec![Action::ScheduleTimer { timer: TimerId(0), delay: 5_000_000_000 }]
    );
    assert!(src.state.unwrap().source.is_live);
    assert!(src.state.unwrap().schedule_restart_on_unblock);

    // And no more once it is back in Paused.
    let actions = src.source_state_changed(
        StateChange::PlayingToPaused,
        false,
        Some(StateChangeSuccess::NoPreroll),
    );
    assert_eq!(actions, vec![Action::UnscheduleTimer { timer: TimerId(0) }]);
    assert_eq!(src.state.unwrap().source.restart_timeout, None);
    assert!(src.state.unwrap().source.is_live);

    // An asynchronous result means: not live.
    let actions = src.source_state_changed(
        StateChange::ReadyToPaused,
        true,
        Some(StateChangeSuccess::Async),
    );
    assert!(actions.is_empty());
    let state = src.state.unwrap();
    assert!(!state.fallback_source.unwrap().is_live);
    assert_eq!(state.fallback_source.unwrap().restart_timeout, None);
}

#[test]
fn a_failed_state_change_restarts_the_source_unless_it_shuts_down() {
    let mut src = started(with_both());
    let before = src;
    assert!(src.source_state_changed(StateChange::ReadyToNull, false, None).is_empty());
    assert_eq!(src, before);

    let actions = src.source_state_changed(StateChange::ReadyToPaused, true, None);
    assert_eq!(
        actions,
        vec![
            Action::ShutDownSource { fallback_source: true },
            Action::DropEos { fallback_source: true },
            Action::Continue(Continuation::Drain { fallback_source: true }),
            Action::NotifyStatistics,
        ]
    );
    assert_eq!(src.stats().num_fallback_retry, 1);
    assert_eq!(src.stats().last_fallback_retry_reason, RetryReason::StateChangeFailure);

    // For a source that does not exist nothing happens.
    let mut src = started(with_uri());
    let before = src;
    assert!(src.source_state_changed(StateChange::ReadyToPaused, true, None).is_empty());
    assert_eq!(src, before);
}

#[test]
fn new_pads_get_a_branch_if_there_is_room() {
    let mut src = started(Settings { enable_audio: false, min_latency: 4_000_000_000, ..with_both() });
    // Audio is not enabled.
    assert!(src.handle_source_pad_added(PadId(1), "audio_0", None, None, false).is_empty());
    // A pad of no known kind.
    assert!(src.handle_source_pad_added(PadId(2), "src_0", Some("text/x-raw"), None, false).is_empty());
    assert!(src.handle_source_pad_added(PadId(2), "src_0", None, None, false).is_empty());
    // Video from the fallback source, found by its media type.
    let actions = src.handle_source_pad_added(PadId(3), "src_1", Some("video/x-raw"), None, true);
    assert_eq!(
        actions,
        vec![Action::LinkBranch {
            pad: PadId(3),
            kind: StreamKind::Video,
            fallback_source: true,
            is_image: false,
            max_size_time: 4_000_000_000,
            priority: 1,
        }]
    );
    // Nothing is recorded before the chain is linked.
    assert_eq!(src.state.unwrap().video_stream.unwrap().fallback_branch, None);
    let actions = src.handle_source_pad_linked(PadId(3), StreamKind::Video, false, true);
    assert_eq!(
        actions,
        vec![
            Action::AddEosProbe { pad: PadId(3), fallback_source: true },
            Action::AddPadProbe { probe: ProbeId(0), kind: StreamKind::Video, fallback_source: true },
            Action::NotifyStatus,
        ]
    );
    let branch = src.state.unwrap().video_stream.unwrap().fallback_branch.unwrap();
    assert_eq!(branch.source_srcpad, PadId(3));
    assert!(!branch.is_image);
    assert_eq!(branch.source_srcpad_block.unwrap().probe, ProbeId(0));
    assert_eq!(branch.source_srcpad_block.unwrap().running_time, None);
    // A second video pad of the same source finds no room.
    assert!(src.handle_source_pad_added(PadId(4), "video_1", None, None, true).is_empty());
    assert!(src.handle_source_pad_linked(PadId(4), StreamKind::Video, false, true).is_empty());
    assert_eq!(src.state.unwrap().video_stream.unwrap().fallback_branch.unwrap().source_srcpad, PadId(3));
    // The primary source still has room.
    assert_eq!(src.handle_source_pad_added(PadId(5), "video_0", None, None, false).len(), 1);
    assert_eq!(FallbackSrc::priority(false), 0);
    assert_eq!(FallbackSrc::priority(true), 1);
}

#[test]
fn pads_of_a_fallback_source_that_does_not_exist_are_ignored() {
    let mut src = started(with_uri());
    let before = src;
    assert!(src.handle_source_pad_added(PadId(1), "video_0", None, Some("image/png"), true).is_empty());
    assert!(src.handle_source_pad_linked(PadId(1), StreamKind::Video, false, true).is_empty());
    assert_eq!(src, before);
}

#[test]
fn a_still_image_disarms_the_timers_of_its_source() {
    let mut src = started(with_uri());
    src.schedule_source_restart_timeout(0, false);
    let mut state = src.state.unwrap();
    state.source.retry_timeout = Some(TimerId(50));
    src.state = Some(state);
    let actions = src.handle_source_pad_added(PadId(1), "video_0", None, Some("image/jpeg"), false);
    assert_eq!(
        actions,
        vec![
            Action::UnscheduleTimer { timer: TimerId(50) },
            Action::UnscheduleTimer { timer: TimerId(0) },
            Action::LinkBranch {
                pad: PadId(1),
                kind: StreamKind::Video,
                fallback_source: false,
                is_image: true,
                max_size_time: 1_000_000_000,
                priority: 0,
            },
        ]
    );
    let source = src.state.unwrap().source;
    assert!(source.is_image);
    assert_eq!(source.restart_timeout, None);
    assert_eq!(source.retry_timeout, None);
    // A later pad that is no image leaves the mark.
    src.handle_source_pad_added(PadId(2), "audio_0", None, Some("audio/x-raw"), false);
    assert!(src.state.unwrap().source.is_image);
}

#[test]
fn the_end_of_a_still_image_is_swallowed_and_never_restarts_its_source() {
    for restart_on_eos in [false, true] {
        for fallback_source in [false, true] {
            let mut src = started(Settings { restart_on_eos, ..with_both() });
            src.handle_source_pad_added(PadId(1), "video_0", None, Some("image/png"), fallback_source);
            src.handle_source_pad_linked(PadId(1), StreamKind::Video, true, fallback_source);
            let before = src;
            // The event is dropped, and nothing else happens.
            assert_eq!(src.handle_source_eos(PadId(1), fallback_source), (true, vec![]));
            assert_eq!(src, before);
            assert_eq!(src.stats().num_retry, 0);
            assert_eq!(src.stats().num_fallback_retry, 0);
            assert_eq!(src.stats().last_retry_reason, RetryReason::NoRetry);
            assert_eq!(src.stats().last_fallback_retry_reason, RetryReason::NoRetry);
            assert!(!src.state.unwrap().source.pending_restart);
            // Again, as often as it comes.
            assert_eq!(src.handle_source_eos(PadId(1), fallback_source), (true, vec![]));
            assert_eq!(src, before);
            assert!(src.handle_switch_active_pad_change(on_fallback()).iter().all(
                |a| !matches!(a, Action::ScheduleTimer { .. })
            ) || fallback_source);
        }
    }
}

#[test]
fn the_end_of_a_stream_restarts_or_passes() {
    // The primary source, restart at end-of-stream configured.
    let mut src = with_branches(Settings { restart_on_eos: true, ..with_both() });
    let (drop, actions) = src.handle_source_eos(PadId(1), false);
    assert!(drop);
    assert_eq!(
        actions,
        vec![
            Action::DropEos { fallback_source: false },
            Action::Continue(Continuation::Drain { fallback_source: false }),
            Action::NotifyStatistics,
        ]
    );
    assert_eq!(src.stats().last_retry_reason, RetryReason::Eos);
    assert_eq!(src.stats().num_retry, 1);

    // The primary source, not configured: the end is passed on.
    let mut src = with_branches(with_both());
    let before = src;
    let (drop, actions) = src.handle_source_eos(PadId(1), false);
    assert!(!drop);
    assert_eq!(actions, vec![Action::SendEosToSwitch { kind: StreamKind::Video }]);
    assert_eq!(src, before);

    // The other stream has no branch from the primary source: it is told too.
    let mut src = started(with_both());
    src.handle_source_pad_added(PadId(2), "audio_0", None, None, false);
    src.handle_source_pad_linked(PadId(2), StreamKind::Audio, false, false);
    let (drop, actions) = src.handle_source_eos(PadId(2), false);
    assert!(!drop);
    assert_eq!(
        actions,
        vec![
            Action::SendEosToSwitch { kind: StreamKind::Audio },
            Action::SendEosToSwitch { kind: StreamKind::Video },
        ]
    );

    // The fallback source is always restarted.
    let mut src = started(with_both());
    src.handle_source_pad_added(PadId(3), "video_0", None, None, true);
    src.handle_source_pad_linked(PadId(3), StreamKind::Video, false, true);
    let (drop, actions) = src.handle_source_eos(PadId(3), true);
    assert!(drop);
    assert_eq!(actions.len(), 3);
    assert_eq!(src.stats().last_fallback_retry_reason, RetryReason::Eos);
    assert_eq!(src.stats().num_fallback_retry, 1);

    // A pad that feeds no branch.
    let before = src;
    assert_eq!(src.handle_source_eos(PadId(99), true), (false, vec![]));
    assert_eq!(src.handle_source_eos(PadId(3), false), (false, vec![]));
    assert_eq!(src, before);
}

#[test]
fn the_pad_of_a_live_source_is_released_at_once() {
    let mut src = with_branches(with_uri());
    src.source_state_changed(
        StateChange::ReadyToPaused,
        false,
        Some(StateChangeSuccess::NoPreroll),
    );
    for sample in [BlockSample::NoTimeSegment, BlockSample::NoSegment] {
        let mut src = src;
        let actions = src.handle_pad_blocked(ProbeId(1), false, sample, quiet()).unwrap();
        assert_eq!(
            actions,
            vec![Action::RemovePadProbe { probe: ProbeId(1) }, Action::NotifyStatus]
        );
        let state = src.state.unwrap();
        assert_eq!(state.audio_stream.unwrap().main_branch.unwrap().source_srcpad_block, None);
        assert!(state.video_stream.unwrap().main_branch.unwrap().source_srcpad_block.is_some());
    }
}

#[test]
fn a_blocked_pad_needs_a_time_segment() {
    let mut src = with_branches(with_uri());
    let before = src;
    assert_eq!(
        src.handle_pad_blocked(ProbeId(0), false, BlockSample::NoTimeSegment, quiet()),
        Err(BlockError::NoTimeSegment)
    );
    assert_eq!(src, before);
    assert_eq!(src.handle_pad_blocked(ProbeId(0), false, BlockSample::NoSegment, quiet()), Ok(vec![]));
    assert_eq!(src, before);
    // A probe that holds no branch of that source.
    assert_eq!(
        src.handle_pad_blocked(ProbeId(9), false, BlockSample::NoTimeSegment, quiet()),
        Ok(vec![])
    );
    assert_eq!(
        src.handle_pad_blocked(ProbeId(0), true, BlockSample::NoTimeSegment, quiet()),
        Ok(vec![])
    );
    assert_eq!(src, before);
}

#[test]
fn pads_are_released_when_all_needed_kinds_have_reported() {
    let mut src = with_branches(with_uri());
    src.handle_streams_selected(from_main(), &both_kinds(), quiet());
    let obs = Observation { current_running_time: Some(50), ..quiet() };
    let actions =
        src.handle_pad_blocked(ProbeId(0), false, BlockSample::RunningTime(Some(70)), obs).unwrap();
    assert_eq!(actions, vec![Action::NotifyStatus]);
    assert!(src.unblock_pads(false, obs).is_empty());
    let actions =
        src.handle_pad_blocked(ProbeId(1), false, BlockSample::RunningTime(Some(90)), obs).unwrap();
    assert_eq!(
        actions,
        vec![
            Action::SetPadOffset { probe: ProbeId(1), offset: -20 },
            Action::RemovePadProbe { probe: ProbeId(1) },
            Action::SetPadOffset { probe: ProbeId(0), offset: -20 },
            Action::RemovePadProbe { probe: ProbeId(0) },
            Action::NotifyStatus,
        ]
    );
    // Nothing is left to release.
    let after = src;
    assert!(src.unblock_pads(false, obs).is_empty());
    assert_eq!(src, after);
}

#[test]
fn the_release_does_not_depend_on_the_order_of_the_reports() {
    let obs = Observation { current_running_time: Some(500), ..quiet() };
    let mut audio_first = with_branches(with_uri());
    audio_first.handle_streams_selected(from_main(), &both_kinds(), obs);
    let mut video_first = audio_first;

    audio_first.handle_pad_blocked(ProbeId(1), false, BlockSample::RunningTime(Some(40)), obs).unwrap();
    let a = audio_first
        .handle_pad_blocked(ProbeId(0), false, BlockSample::RunningTime(Some(60)), obs)
        .unwrap();
    video_first.handle_pad_blocked(ProbeId(0), false, BlockSample::RunningTime(Some(60)), obs).unwrap();
    let b = video_first
        .handle_pad_blocked(ProbeId(1), false, BlockSample::RunningTime(Some(40)), obs)
        .unwrap();
    assert_eq!(a, b);
    assert_eq!(audio_first, video_first);
    assert!(a.contains(&Action::SetPadOffset { probe: ProbeId(0), offset: 460 }));
    assert!(a.contains(&Action::SetPadOffset { probe: ProbeId(1), offset: 460 }));
}

#[test]
fn nothing_is_released_while_a_gate_is_shut() {
    let ready = {
        let mut src = with_branches(with_both());
        src.handle_streams_selected(from_main(), &both_kinds(), quiet());
        let never = Observation { current_running_time: None, ..quiet() };
        src.handle_pad_blocked(ProbeId(0), false, BlockSample::RunningTime(Some(1)), never).unwrap();
        src.handle_pad_blocked(ProbeId(1), false, BlockSample::RunningTime(Some(2)), never).unwrap();
        src
    };
    // No running time of the pipeline.
    let mut src = ready;
    assert!(src.unblock_pads(false, Observation { current_running_time: None, ..quiet() }).is_empty());
    assert_eq!(src, ready);
    // The application holds the source.
    let mut src = ready;
    let mut state = src.state.unwrap();
    state.manually_blocked = true;
    src.state = Some(state);
    assert!(src.unblock_pads(false, quiet()).is_empty());
    // Less than full buffers.
    let mut src = ready;
    let mut state = src.state.unwrap();
    state.stats.buffering_percent = 99;
    src.state = Some(state);
    assert!(src.unblock_pads(false, quiet()).is_empty());
    // No streams announced.
    let mut src = ready;
    let mut state = src.state.unwrap();
    state.source.streams = None;
    src.state = Some(state);
    assert!(src.unblock_pads(false, quiet()).is_empty());
    // The other source has nothing to release.
    let mut src = ready;
    assert!(src.unblock_pads(true, quiet()).is_empty());
    assert_eq!(src, ready);
    // All gates open.
    let mut src = ready;
    assert_eq!(
        src.unblock_pads(false, quiet()),
        vec![
            Action::SetPadOffset { probe: ProbeId(1), offset: 999 },
            Action::RemovePadProbe { probe: ProbeId(1) },
            Action::SetPadOffset { probe: ProbeId(0), offset: 999 },
            Action::RemovePadProbe { probe: ProbeId(0) },
        ]
    );
}

#[test]
fn a_pad_that_has_ended_is_released_without_an_offset() {
    let mut src = with_branches(with_uri());
    src.handle_streams_selected(from_main(), &both_kinds(), quiet());
    let obs = Observation { main_audio_eos: true, current_running_time: Some(100), ..quiet() };
    let actions =
        src.handle_pad_blocked(ProbeId(0), false, BlockSample::RunningTime(Some(30)), obs).unwrap();
    assert_eq!(
        actions,
        vec![
            Action::RemovePadProbe { probe: ProbeId(1) },
            Action::SetPadOffset { probe: ProbeId(0), offset: 70 },
            Action::RemovePadProbe { probe: ProbeId(0) },
            Action::NotifyStatus,
        ]
    );
}

#[test]
fn the_fallback_source_wants_only_the_kinds_it_has() {
    let mut src = started(with_both());
    src.handle_source_pad_added(PadId(1), "video_0", None, None, true);
    src.handle_source_pad_linked(PadId(1), StreamKind::Video, false, true);
    src.handle_streams_selected(
        from_fallback(),
        &vec![StreamType { audio: false, video: true }],
        quiet(),
    );
    let actions =
        src.handle_pad_blocked(ProbeId(0), true, BlockSample::RunningTime(Some(400)), quiet()).unwrap();
    assert_eq!(
        actions,
        vec![
            Action::SetPadOffset { probe: ProbeId(0), offset: 600 },
            Action::RemovePadProbe { probe: ProbeId(0) },
            Action::NotifyStatus,
        ]
    );
}

#[test]
fn buffering_blocks_and_full_buffers_release() {
    let mut src = with_branches(with_both());
    src.handle_streams_selected(from_main(), &both_kinds(), quiet());
    src.handle_pad_blocked(ProbeId(0), false, BlockSample::RunningTime(Some(1)), quiet()).unwrap();
    src.handle_pad_blocked(ProbeId(1), false, BlockSample::RunningTime(Some(1)), quiet()).unwrap();
    assert_eq!(src.state.unwrap().video_stream.unwrap().main_branch.unwrap().source_srcpad_block, None);

    let actions = src.handle_buffering(from_main(), 30, Observation { now: 77, ..quiet() });
    assert_eq!(
        actions,
        vec![
            Action::AddPadProbe { probe: ProbeId(2), kind: StreamKind::Audio, fallback_source: false },
            Action::AddPadProbe { probe: ProbeId(3), kind: StreamKind::Video, fallback_source: false },
            Action::NotifyStatus,
            Action::NotifyStatistics,
        ]
    );
    assert_eq!(src.stats().buffering_percent, 30);
    assert_eq!(src.stats().fallback_buffering_percent, 100);
    assert_eq!(src.state.unwrap().last_buffering_update, Some(77));

    // Again below a hundred: the branches are blocked already.
    let actions = src.handle_buffering(from_main(), 60, Observation { now: 80, ..quiet() });
    assert_eq!(actions, vec![Action::NotifyStatus, Action::NotifyStatistics]);
    assert_eq!(src.state.unwrap().last_buffering_update, Some(80));

    // A report of the fallback source.
    let actions = src.handle_buffering(from_fallback(), 10, Observation { now: 81, ..quiet() });
    assert_eq!(actions, vec![Action::NotifyStatus, Action::NotifyStatistics]);
    assert_eq!(src.stats().fallback_buffering_percent, 10);
    assert_eq!(src.state.unwrap().fallback_last_buffering_update, Some(81));
    assert_eq!(src.stats().buffering_percent, 60);

    // Full buffers, but the new blocks have no running time yet.
    let actions = src.handle_buffering(from_main(), 100, Observation { now: 90, ..quiet() });
    assert_eq!(actions, vec![Action::NotifyStatus, Action::NotifyStatistics]);
    assert_eq!(src.state.unwrap().last_buffering_update, Some(90));
    src.handle_pad_blocked(ProbeId(2), false, BlockSample::RunningTime(Some(10)), quiet()).unwrap();
    let actions =
        src.handle_pad_blocked(ProbeId(3), false, BlockSample::RunningTime(Some(20)), quiet()).unwrap();
    assert_eq!(actions.len(), 5);
    assert!(actions.contains(&Action::SetPadOffset { probe: ProbeId(3), offset: 990 }));
}

#[test]
fn buffering_is_ignored_during_a_restart_and_from_strangers() {
    let mut src = started(with_uri());
    let before = src;
    assert!(src.handle_buffering(None, 10, quiet()).is_empty());
    assert!(src.handle_buffering(from_elsewhere(), 10, quiet()).is_empty());
    assert!(src.handle_buffering(from_fallback(), 10, quiet()).is_empty());
    assert_eq!(src, before);
    src.handle_source_error(RetryReason::Error, false);
    let before = src;
    assert!(src.handle_buffering(from_main(), 10, quiet()).is_empty());
    assert_eq!(src, before);

    // With a fallback source too, what comes from neither source counts
    // for none.
    let mut src = with_branches(with_both());
    src.handle_streams_selected(from_main(), &both_kinds(), quiet());
    src.handle_pad_blocked(ProbeId(0), false, BlockSample::RunningTime(Some(1)), quiet()).unwrap();
    src.handle_pad_blocked(ProbeId(1), false, BlockSample::RunningTime(Some(1)), quiet()).unwrap();
    let before = src;
    assert!(src.handle_buffering(from_elsewhere(), 10, quiet()).is_empty());
    assert!(src.handle_buffering(None, 10, quiet()).is_empty());
    assert_eq!(src, before);
    assert_eq!(src.stats().buffering_percent, 100);
    assert_eq!(src.stats().fallback_buffering_percent, 100);
    assert_eq!(src.state.unwrap().last_buffering_update, None);
    assert_eq!(src.state.unwrap().fallback_last_buffering_update, None);

    // What comes from inside both is the fallback source's.
    src.handle_buffering(Some(Origin { in_main: true, in_fallback: true }), 20, quiet());
    assert_eq!(src.stats().fallback_buffering_percent, 20);
    assert_eq!(src.stats().buffering_percent, 100);
}

#[test]
fn a_stream_collection_from_a_stranger_is_ignored() {
    let mut src = with_branches(with_both());
    src.handle_streams_selected(from_main(), &both_kinds(), quiet());
    src.handle_pad_blocked(ProbeId(0), false, BlockSample::RunningTime(Some(1)), quiet()).unwrap();
    src.handle_pad_blocked(ProbeId(1), false, BlockSample::RunningTime(Some(1)), quiet()).unwrap();
    let before = src;
    let only_audio = vec![StreamType { audio: true, video: false }];
    assert!(src.handle_streams_selected(from_elsewhere(), &only_audio, quiet()).is_empty());
    assert!(src.handle_streams_selected(None, &only_audio, quiet()).is_empty());
    assert_eq!(src, before);
    assert_eq!(
        src.state.unwrap().source.streams,
        Some(StreamCollection { have_audio: true, have_video: true })
    );
    assert_eq!(src.state.unwrap().fallback_source.unwrap().streams, None);
    // Without a fallback source it is the same.
    let mut src = started(with_uri());
    let before = src;
    assert!(src.handle_streams_selected(from_elsewhere(), &only_audio, quiet()).is_empty());
    assert!(src.handle_streams_selected(from_fallback(), &only_audio, quiet()).is_empty());
    assert_eq!(src, before);
}

#[test]
fn a_new_stream_collection_blocks_the_branches_again() {
    let mut src = with_branches(with_uri());
    src.handle_streams_selected(from_main(), &both_kinds(), quiet());
    src.handle_pad_blocked(ProbeId(0), false, BlockSample::RunningTime(Some(1)), quiet()).unwrap();
    src.handle_pad_blocked(ProbeId(1), false, BlockSample::RunningTime(Some(1)), quiet()).unwrap();
    let actions = src.handle_streams_selected(
        from_main(),
        &vec![StreamType { audio: true, video: false }],
        quiet(),
    );
    assert_eq!(
        actions,
        vec![
            Action::AddPadProbe { probe: ProbeId(2), kind: StreamKind::Video, fallback_source: false },
            Action::AddPadProbe { probe: ProbeId(3), kind: StreamKind::Audio, fallback_source: false },
            Action::NotifyStatus,
        ]
    );
    assert_eq!(
        src.state.unwrap().source.streams,
        Some(StreamCollection { have_audio: true, have_video: false })
    );
    assert!(src.handle_streams_selected(None, &both_kinds(), quiet()).is_empty());
}

#[test]
fn a_removed_pad_takes_its_branch_along() {
    let mut src = with_branches(with_uri());
    src.handle_streams_selected(from_main(), &vec![StreamType { audio: true, video: false }], quiet());
    let before = src;
    assert!(src.handle_source_pad_removed(PadId(9), false, quiet()).is_empty());
    assert!(src.handle_source_pad_removed(PadId(1), true, quiet()).is_empty());
    assert_eq!(src, before);

    let actions = src.handle_source_pad_removed(PadId(1), false, quiet());
    assert_eq!(
        actions,
        vec![
            Action::RemovePadProbe { probe: ProbeId(0) },
            Action::RemoveBranch { kind: StreamKind::Video, fallback_source: false },
            Action::NotifyStatus,
        ]
    );
    assert_eq!(src.state.unwrap().video_stream.unwrap().main_branch, None);
    assert!(src.state.unwrap().audio_stream.unwrap().main_branch.is_some());

    // The removal can let the rest go.
    src.handle_pad_blocked(
        ProbeId(1),
        false,
        BlockSample::RunningTime(Some(5)),
        Observation { current_running_time: None, ..quiet() },
    )
    .unwrap();
    let mut src = with_branches(with_uri());
    src.handle_streams_selected(from_main(), &both_kinds(), quiet());
    src.handle_pad_blocked(ProbeId(1), false, BlockSample::RunningTime(Some(5)), quiet()).unwrap();
    let obs = Observation { main_video_eos: true, ..quiet() };
    let actions = src.handle_source_pad_removed(PadId(1), false, obs);
    assert_eq!(
        actions,
        vec![
            Action::RemovePadProbe { probe: ProbeId(0) },
            Action::RemoveBranch { kind: StreamKind::Video, fallback_source: false },
            Action::NotifyStatus,
        ]
    );
}

#[test]
fn errors_are_taken_from_the_sources_only() {
    let mut src = started(with_both());
    let before = src;
    assert_eq!(src.handle_error(None), (false, vec![]));
    assert_eq!(src.handle_error(from_elsewhere()), (false, vec![]));
    assert_eq!(src, before);

    let (handled, actions) = src.handle_error(from_fallback());
    assert!(handled);
    assert_eq!(
        actions,
        vec![
            Action::DropEos { fallback_source: true },
            Action::Continue(Continuation::Drain { fallback_source: true }),
            Action::NotifyStatus,
            Action::NotifyStatistics,
        ]
    );
    assert_eq!(src.stats().last_fallback_retry_reason, RetryReason::Error);

    let (handled, actions) = src.handle_error(from_main());
    assert!(handled);
    assert_eq!(actions.len(), 4);
    assert_eq!(src.stats().last_retry_reason, RetryReason::Error);
    assert_eq!(src.stats().num_retry, 1);

    // Without a fallback source its errors are nobody's.
    let mut src = started(with_uri());
    assert_eq!(src.handle_error(from_fallback()), (false, vec![]));
    // What comes from both is the primary source's.
    let (handled, _) = src.handle_error(Some(Origin { in_main: true, in_fallback: true }));
    assert!(handled);
    assert_eq!(src.stats().num_retry, 1);
}

#[test]
fn messages_are_kept_or_passed_on() {
    let mut src = started(with_both());
    let (forward, actions) =
        src.handle_message(&Message::Buffering { origin: from_main(), percent: 20 }, quiet());
    assert!(!forward);
    assert_eq!(actions, vec![Action::NotifyStatus, Action::NotifyStatistics]);
    assert_eq!(src.stats().buffering_percent, 20);

    let (forward, actions) = src.handle_message(
        &Message::StreamsSelected { origin: from_fallback(), streams: both_kinds() },
        quiet(),
    );
    assert!(!forward);
    assert_eq!(actions, vec![Action::NotifyStatus]);
    assert!(src.state.unwrap().fallback_source.unwrap().streams.is_some());
    assert!(src.state.unwrap().source.streams.is_none());

    let (forward, actions) = src.handle_message(&Message::Error { origin: from_elsewhere() }, quiet());
    assert!(forward);
    assert!(actions.is_empty());
    let (forward, actions) = src.handle_message(&Message::Error { origin: from_main() }, quiet());
    assert!(!forward);
    assert_eq!(actions.len(), 4);

    let before = src;
    let (forward, actions) = src.handle_message(&Message::Other, quiet());
    assert!(forward);
    assert!(actions.is_empty());
    assert_eq!(src, before);

    let mut stopped = FallbackSrc::default();
    let (forward, _) = stopped.handle_message(&Message::Error { origin: from_main() }, quiet());
    assert!(forward);
    let (forward, _) =
        stopped.handle_message(&Message::Buffering { origin: from_main(), percent: 1 }, quiet());
    assert!(!forward);
}

#[test]
fn an_end_of_stream_from_the_application_goes_everywhere() {
    let mut src = with_branches(with_both());
    src.handle_source_pad_added(PadId(3), "audio_0", None, None, true);
    src.handle_source_pad_linked(PadId(3), StreamKind::Audio, false, true);
    let before = src;
    assert_eq!(
        src.send_event(Event::Eos),
        vec![
            Action::SendEosToSource { fallback_source: false },
            Action::SendEosToSource { fallback_source: true },
            Action::SendEosToDummySource { kind: StreamKind::Audio },
            Action::SendEosToDummySource { kind: StreamKind::Video },
            Action::SendEosToBranch { kind: StreamKind::Video, fallback_source: false },
            Action::SendEosToBranch { kind: StreamKind::Audio, fallback_source: false },
            Action::SendEosToBranch { kind: StreamKind::Audio, fallback_source: true },
        ]
    );
    assert!(src.send_event(Event::Other).is_empty());
    assert_eq!(src, before);

    let src = started(Settings { enable_video: false, ..with_uri() });
    assert_eq!(
        src.send_event(Event::Eos),
        vec![
            Action::SendEosToSource { fallback_source: false },
            Action::SendEosToDummySource { kind: StreamKind::Audio },
        ]
    );
}

#[test]
fn the_release_command_arms_the_restart_timeout_if_the_source_was_marked() {
    let mut src = started(Settings { manual_unblock: true, ..with_uri() });
    // The source reaches Paused while the application holds it: no timer.
    let actions = src.source_state_changed(
        StateChange::ReadyToPaused,
        false,
        Some(StateChangeSuccess::Success),
    );
    assert!(actions.is_empty());
    assert!(src.state.unwrap().schedule_restart_on_unblock);
    assert_eq!(src.state.unwrap().source.restart_timeout, None);

    let actions = src.unblock(on_fallback());
    assert_eq!(
        actions,
        vec![Action::ScheduleTimer { timer: TimerId(0), delay: 5_000_000_000 }]
    );
    assert!(!src.state.unwrap().manually_blocked);

    // Not marked: nothing is armed.
    let mut src = started(Settings { manual_unblock: true, ..with_uri() });
    assert!(src.unblock(on_fallback()).is_empty());
    assert!(!src.state.unwrap().manually_blocked);
}

#[test]
fn blocks_are_added_only_to_branches_that_are_free() {
    let mut src = with_branches(with_uri());
    assert!(src.add_pad_probe(StreamKind::Audio, false).is_empty());
    assert!(src.add_pad_probe(StreamKind::Audio, true).is_empty());
    src.source_state_changed(
        StateChange::ReadyToPaused,
        false,
        Some(StateChangeSuccess::NoPreroll),
    );
    src.handle_pad_blocked(ProbeId(1), false, BlockSample::NoSegment, quiet()).unwrap();
    assert_eq!(
        src.add_pad_probe(StreamKind::Audio, false),
        vec![Action::AddPadProbe { probe: ProbeId(2), kind: StreamKind::Audio, fallback_source: false }]
    );
    assert_eq!(
        src.state.unwrap().audio_stream.unwrap().main_branch.unwrap().source_srcpad_block.unwrap().probe,
        ProbeId(2)
    );
}
