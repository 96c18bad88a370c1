use fallbacksrc::action::{split_actions, Action, Continuation};
use fallbacksrc::classify::{classify_pad, is_image, starts_with};
use fallbacksrc::time::{
    elapsed, pad_offset, queue_max_size_time, remaining, segment_position, SECOND,
};
use fallbacksrc::types::{
    count_up, ElementState, ProbeId, StateChange, StreamCollection, StreamKind, StreamType,
    TimerId,
};
use fallbacksrc::unblock::{least, unblock_decision, Lane, Unblock};

#[test]
fn queue_limit_is_at_least_one_second() {
    assert_eq!(SECOND, 1_000_000_000);
    assert_eq!(queue_max_size_time(0), 1_000_000_000);
    assert_eq!(queue_max_size_time(999_999_999), 1_000_000_000);
    assert_eq!(queue_max_size_time(1_000_000_000), 1_000_000_000);
    assert_eq!(queue_max_size_time(2_500_000_000), 2_500_000_000);
    assert_eq!(queue_max_size_time(u64::MAX), u64::MAX);
}

#[test]
fn segment_position_moves_into_the_segment() {
    assert_eq!(segment_position(Some(5), Some(10), Some(20)), Some(10));
    assert_eq!(segment_position(Some(10), Some(10), Some(20)), Some(10));
    assert_eq!(segment_position(Some(15), Some(10), Some(20)), Some(15));
    assert_eq!(segment_position(Some(20), Some(10), Some(20)), Some(20));
    assert_eq!(segment_position(Some(25), Some(10), Some(20)), Some(20));
}

#[test]
fn segment_position_without_bounds_or_timestamp() {
    assert_eq!(segment_position(None, Some(10), Some(20)), None);
    assert_eq!(segment_position(Some(5), None, Some(20)), Some(5));
    assert_eq!(segment_position(Some(25), Some(10), None), Some(25));
    assert_eq!(segment_position(Some(7), None, None), Some(7));
    assert_eq!(segment_position(None, None, None), None);
}

#[test]
fn pad_offset_is_the_signed_difference() {
    assert_eq!(pad_offset(100, 20), 80);
    assert_eq!(pad_offset(20, 100), -80);
    assert_eq!(pad_offset(7, 7), 0);
    assert_eq!(pad_offset(0, 0), 0);
    assert_eq!(pad_offset(i64::MAX as u64, 0), i64::MAX);
    assert_eq!(pad_offset(0, i64::MAX as u64), -i64::MAX);
    assert_eq!(pad_offset(0, 1 << 63), i64::MIN);
}

#[test]
fn pad_offset_wraps_beyond_the_range() {
    assert_eq!(pad_offset(1 << 63, 0), i64::MIN);
    assert_eq!(pad_offset(u64::MAX, 0), -1);
    assert_eq!(pad_offset(0, u64::MAX), 1);
    assert_eq!(pad_offset(0, (1 << 63) + 1), i64::MAX);
    for (current, target) in [
        (0u64, 0u64),
        (5, 3),
        (3, 5),
        (u64::MAX, 1),
        (1, u64::MAX),
        (1 << 63, 1),
        (1, 1 << 63),
        (u64::MAX, u64::MAX),
    ] {
        assert_eq!(pad_offset(current, target), current.wrapping_sub(target) as i64);
    }
}

#[test]
fn elapsed_and_remaining_never_go_below_zero() {
    assert_eq!(elapsed(10, 4), 6);
    assert_eq!(elapsed(4, 4), 0);
    assert_eq!(elapsed(4, 10), 0);
    assert_eq!(elapsed(u64::MAX, 0), u64::MAX);
    assert_eq!(remaining(5, 2), 3);
    assert_eq!(remaining(5, 5), 0);
    assert_eq!(remaining(5, 9), 0);
    assert_eq!(remaining(u64::MAX, 0), u64::MAX);
}

#[test]
fn counters_wrap_to_zero() {
    assert_eq!(count_up(0), 1);
    assert_eq!(count_up(41), 42);
    assert_eq!(count_up(u64::MAX - 1), u64::MAX);
    assert_eq!(count_up(u64::MAX), 0);
}

#[test]
fn prefixes_of_byte_strings() {
    assert!(starts_with(b"audio_0", b"audio"));
    assert!(starts_with(b"audio", b"audio"));
    assert!(starts_with(b"anything", b""));
    assert!(starts_with(b"", b""));
    assert!(!starts_with(b"audi", b"audio"));
    assert!(!starts_with(b"", b"a"));
    assert!(!starts_with(b"audjo_0", b"audio"));
    assert!(!starts_with(b"xaudio", b"audio"));
}

#[test]
fn pads_are_classified_by_name_first() {
    assert_eq!(classify_pad("audio_0", None), Some(StreamKind::Audio));
    assert_eq!(classify_pad("video_1", None), Some(StreamKind::Video));
    assert_eq!(classify_pad("audio", Some("video/x-raw")), Some(StreamKind::Audio));
    assert_eq!(classify_pad("video", Some("audio/x-raw")), Some(StreamKind::Video));
    assert_eq!(classify_pad("videotestsrc", None), Some(StreamKind::Video));
}

#[test]
fn pads_are_classified_by_media_type_otherwise() {
    assert_eq!(classify_pad("src_0", Some("audio/x-raw")), Some(StreamKind::Audio));
    assert_eq!(classify_pad("src_0", Some("video/x-h264")), Some(StreamKind::Video));
    assert_eq!(classify_pad("src_0", Some("audio/")), Some(StreamKind::Audio));
    assert_eq!(classify_pad("src_0", Some("text/x-raw")), None);
    assert_eq!(classify_pad("src_0", Some("audio")), None);
    assert_eq!(classify_pad("src_0", Some("videox/raw")), None);
    assert_eq!(classify_pad("src_0", Some("")), None);
    assert_eq!(classify_pad("src_0", None), None);
    assert_eq!(classify_pad("", None), None);
    assert_eq!(classify_pad("Audio_0", None), None);
}

#[test]
fn still_images_are_told_by_media_type() {
    assert!(is_image(Some("image/jpeg")));
    assert!(is_image(Some("image/png")));
    assert!(is_image(Some("image/")));
    assert!(!is_image(Some("image")));
    assert!(!is_image(Some("video/x-raw")));
    assert!(!is_image(Some("ximage/jpeg")));
    assert!(!is_image(Some("")));
    assert!(!is_image(None));
}

#[test]
fn transitions_have_an_origin_and_a_target() {
    let all = [
        (StateChange::NullToReady, ElementState::Null, ElementState::Ready),
        (StateChange::ReadyToPaused, ElementState::Ready, ElementState::Paused),
        (StateChange::PausedToPlaying, ElementState::Paused, ElementState::Playing),
        (StateChange::PlayingToPaused, ElementState::Playing, ElementState::Paused),
        (StateChange::PausedToReady, ElementState::Paused, ElementState::Ready),
        (StateChange::ReadyToNull, ElementState::Ready, ElementState::Null),
        (StateChange::NullToNull, ElementState::Null, ElementState::Null),
        (StateChange::ReadyToReady, ElementState::Ready, ElementState::Ready),
        (StateChange::PausedToPaused, ElementState::Paused, ElementState::Paused),
        (StateChange::PlayingToPlaying, ElementState::Playing, ElementState::Playing),
    ];
    for (transition, current, next) in all {
        assert_eq!(transition.current(), current);
        assert_eq!(transition.next(), next);
        assert_eq!(transition.is_upward(), current.rank() <= next.rank());
        assert_eq!(transition.is_shutdown(), next.rank() <= 1);
    }
    assert_eq!(ElementState::Null.rank(), 0);
    assert_eq!(ElementState::Ready.rank(), 1);
    assert_eq!(ElementState::Paused.rank(), 2);
    assert_eq!(ElementState::Playing.rank(), 3);
    assert!(StateChange::NullToReady.is_upward());
    assert!(!StateChange::PlayingToPaused.is_upward());
    assert!(StateChange::PausedToReady.is_shutdown());
    assert!(StateChange::NullToReady.is_shutdown());
    assert!(!StateChange::ReadyToPaused.is_shutdown());
    assert_eq!(StreamKind::Audio.other(), StreamKind::Video);
    assert_eq!(StreamKind::Video.other(), StreamKind::Audio);
}

#[test]
fn stream_collections_are_summarised() {
    let none = StreamCollection::from_types(&vec![]);
    assert_eq!(none, StreamCollection { have_audio: false, have_video: false });
    let text = StreamCollection::from_types(&vec![StreamType { audio: false, video: false }]);
    assert_eq!(text, StreamCollection { have_audio: false, have_video: false });
    let audio = StreamCollection::from_types(&vec![
        StreamType { audio: false, video: false },
        StreamType { audio: true, video: false },
    ]);
    assert_eq!(audio, StreamCollection { have_audio: true, have_video: false });
    assert!(audio.has(StreamKind::Audio));
    assert!(!audio.has(StreamKind::Video));
    let both = StreamCollection::from_types(&vec![
        StreamType { audio: false, video: true },
        StreamType { audio: true, video: false },
        StreamType { audio: false, video: false },
    ]);
    assert_eq!(both, StreamCollection { have_audio: true, have_video: true });
    let muxed = StreamCollection::from_types(&vec![StreamType { audio: true, video: true }]);
    assert_eq!(muxed, StreamCollection { have_audio: true, have_video: true });
}

fn lane(needed: bool, running_time: Option<u64>, is_eos: bool) -> Lane {
    Lane { needed, running_time, is_eos }
}

#[test]
fn least_ignores_what_is_missing() {
    assert_eq!(least(Some(3), Some(5)), Some(3));
    assert_eq!(least(Some(5), Some(3)), Some(3));
    assert_eq!(least(Some(4), Some(4)), Some(4));
    assert_eq!(least(Some(3), None), Some(3));
    assert_eq!(least(None, Some(5)), Some(5));
    assert_eq!(least(None, None), None);
}

#[test]
fn nothing_is_released_while_a_needed_kind_is_not_ready() {
    assert_eq!(unblock_decision(lane(false, None, false), lane(false, None, false)), Unblock::Defer);
    assert_eq!(
        unblock_decision(lane(false, Some(1), false), lane(false, Some(2), true)),
        Unblock::Defer
    );
    assert_eq!(unblock_decision(lane(true, None, false), lane(true, None, false)), Unblock::Defer);
    assert_eq!(
        unblock_decision(lane(true, None, false), lane(true, Some(7), false)),
        Unblock::Defer
    );
    assert_eq!(
        unblock_decision(lane(true, Some(7), false), lane(true, None, false)),
        Unblock::Defer
    );
    assert_eq!(unblock_decision(lane(true, None, false), lane(false, Some(7), false)), Unblock::Defer);
    assert_eq!(unblock_decision(lane(false, Some(7), false), lane(true, None, false)), Unblock::Defer);
}

#[test]
fn needed_kinds_are_released_at_the_least_running_time() {
    assert_eq!(
        unblock_decision(lane(true, Some(30), false), lane(true, Some(20), false)),
        Unblock::Release { audio: true, video: true, target: Some(20) }
    );
    assert_eq!(
        unblock_decision(lane(true, Some(10), false), lane(true, Some(20), false)),
        Unblock::Release { audio: true, video: true, target: Some(10) }
    );
    assert_eq!(
        unblock_decision(lane(true, Some(10), false), lane(false, Some(5), false)),
        Unblock::Release { audio: true, video: false, target: Some(10) }
    );
    assert_eq!(
        unblock_decision(lane(false, None, false), lane(true, Some(5), false)),
        Unblock::Release { audio: false, video: true, target: Some(5) }
    );
}

#[test]
fn an_ended_kind_does_not_hold_the_others_back() {
    assert_eq!(
        unblock_decision(lane(true, None, true), lane(true, Some(20), false)),
        Unblock::Release { audio: true, video: true, target: Some(20) }
    );
    assert_eq!(
        unblock_decision(lane(true, Some(5), true), lane(true, Some(20), false)),
        Unblock::Release { audio: true, video: true, target: Some(20) }
    );
    assert_eq!(
        unblock_decision(lane(true, Some(5), false), lane(true, Some(2), true)),
        Unblock::Release { audio: true, video: true, target: Some(5) }
    );
    assert_eq!(
        unblock_decision(lane(true, None, true), lane(true, None, true)),
        Unblock::Release { audio: true, video: true, target: None }
    );
    assert_eq!(
        unblock_decision(lane(true, None, true), lane(false, None, false)),
        Unblock::Release { audio: true, video: false, target: None }
    );
    assert_eq!(unblock_decision(lane(true, None, true), lane(true, None, false)), Unblock::Defer);
}

#[test]
fn the_decision_does_not_depend_on_which_kind_comes_first() {
    let lanes = [
        lane(false, None, false),
        lane(true, None, false),
        lane(true, Some(3), false),
        lane(true, Some(9), false),
        lane(true, None, true),
        lane(true, Some(4), true),
        lane(false, Some(4), true),
    ];
    for a in lanes {
        for b in lanes {
            let exchanged = match unblock_decision(b, a) {
                Unblock::Defer => Unblock::Defer,
                Unblock::Release { audio, video, target } => {
                    Unblock::Release { audio: video, video: audio, target }
                }
            };
            assert_eq!(unblock_decision(a, b), exchanged);
        }
    }
}

#[test]
fn commands_are_split_by_when_they_may_run() {
    let actions = vec![
        Action::RemovePadProbe { probe: ProbeId(1) },
        Action::FlushBranch { kind: StreamKind::Audio, fallback_source: false },
        Action::ScheduleTimer { timer: TimerId(4), delay: 9 },
        Action::ShutDownSource { fallback_source: false },
        Action::SetPadOffset { probe: ProbeId(2), offset: -3 },
        Action::Continue(Continuation::CoolDown { fallback_source: false }),
        Action::NotifyStatus,
        Action::UnscheduleTimer { timer: TimerId(4) },
    ];
    let (at_once, later) = split_actions(&actions);
    assert_eq!(
        at_once,
        vec![
            Action::RemovePadProbe { probe: ProbeId(1) },
            Action::ScheduleTimer { timer: TimerId(4), delay: 9 },
            Action::SetPadOffset { probe: ProbeId(2), offset: -3 },
            Action::UnscheduleTimer { timer: TimerId(4) },
        ]
    );
    assert_eq!(
        later,
        vec![
            Action::FlushBranch { kind: StreamKind::Audio, fallback_source: false },
            Action::ShutDownSource { fallback_source: false },
            Action::Continue(Continuation::CoolDown { fallback_source: false }),
            Action::NotifyStatus,
        ]
    );
    for action in &actions {
        assert_eq!(action.reenters(), later.contains(action));
    }
    assert_eq!(split_actions(&vec![]), (vec![], vec![]));
    assert_eq!(fallbacksrc::pads::DUMMY_PRIORITY, 2);
}
