//! Telling audio, video and still-image pads apart by the pad's name and by
//! the name of its media type.

use crate::types::StreamKind;
use vstd::prelude::*;
use vstd::string::StringSliceAdditionalSpecFns;

verus! {

/// Whether `s` begins with `prefix`.
pub open spec fn spec_starts_with(s: Seq<u8>, prefix: Seq<u8>) -> bool {
    prefix.len() <= s.len() && s.subrange(0, prefix.len() as int) == prefix
}

/// Decides whether `s` begins with `prefix`.
pub fn starts_with(s: &[u8], prefix: &[u8]) -> (b: bool)
    ensures
        b == spec_starts_with(s@, prefix@),
{
    if prefix.len() > s.len() {
        return false;
    }
    let mut i: usize = 0;
    while i < prefix.len()
        invariant
            i <= prefix.len() <= s.len(),
            s@.subrange(0, i as int) == prefix@.subrange(0, i as int),
        decreases prefix.len() - i,
    {
        if s[i] != prefix[i] {
            assert(s@.subrange(0, prefix.len() as int)[i as int] != prefix@[i as int]);
            return false;
        }
        assert(s@.subrange(0, i + 1) == s@.subrange(0, i as int).push(s@[i as int]));
        assert(prefix@.subrange(0, i + 1) == prefix@.subrange(0, i as int).push(
            prefix@[i as int],
        ));
        i += 1;
    }
    assert(prefix@.subrange(0, prefix.len() as int) == prefix@);
    true
}

/// The bytes of `audio`.
pub open spec fn audio_word() -> Seq<u8> {
    seq![97u8, 117u8, 100u8, 105u8, 111u8]
}

/// The bytes of `video`.
pub open spec fn video_word() -> Seq<u8> {
    seq![118u8, 105u8, 100u8, 101u8, 111u8]
}

/// The bytes of `image`.
pub open spec fn image_word() -> Seq<u8> {
    seq![105u8, 109u8, 97u8, 103u8, 101u8]
}

/// A word followed by a slash, as media types begin.
pub open spec fn media_prefix(word: Seq<u8>) -> Seq<u8> {
    word.push(47u8)
}

/// The kind that a name stands for, if it begins with one of two given
/// prefixes.
pub open spec fn kind_by_prefix(name: Seq<u8>, audio: Seq<u8>, video: Seq<u8>) -> Option<
    StreamKind,
> {
    if spec_starts_with(name, audio) {
        Some(StreamKind::Audio)
    } else if spec_starts_with(name, video) {
        Some(StreamKind::Video)
    } else {
        None
    }
}

/// The kind of stream that a new source pad carries. A pad whose name
/// begins with `audio` or `video` is of that kind. Any other pad goes by
/// the name of its media type, which must begin with `audio/` or `video/`;
/// without a media type, or with another one, the pad has no kind.
pub open spec fn spec_classify_pad(pad_name: Seq<u8>, media_type: Option<Seq<u8>>) -> Option<
    StreamKind,
> {
    let by_name = kind_by_prefix(pad_name, audio_word(), video_word());
    if by_name is Some {
        by_name
    } else if media_type is Some {
        kind_by_prefix(media_type->0, media_prefix(audio_word()), media_prefix(video_word()))
    } else {
        None
    }
}

/// Whether a stream is a still image: its media type is known and begins
/// with `image/`.
pub open spec fn spec_is_image(media_type: Option<Seq<u8>>) -> bool {
    media_type is Some && spec_starts_with(media_type->0, media_prefix(image_word()))
}

/// The bytes of an optional string.
pub open spec fn bytes_of(s: Option<&str>) -> Option<Seq<u8>> {
    match s {
        Some(s) => Some(s.spec_bytes()),
        None => None,
    }
}

/// Finds the kind of stream that a new source pad carries, from the pad's
/// name and, if the pad has a fixed media type, that type's name.
pub fn classify_pad(pad_name: &str, media_type: Option<&str>) -> (kind: Option<StreamKind>)
    ensures
        kind == spec_classify_pad(pad_name.spec_bytes(), bytes_of(media_type)),
{
    let audio: Vec<u8> = vec![97u8, 117u8, 100u8, 105u8, 111u8];
    let video: Vec<u8> = vec![118u8, 105u8, 100u8, 101u8, 111u8];
    assert(audio@ == audio_word());
    assert(video@ == video_word());
    let name = pad_name.as_bytes();
    if starts_with(name, audio.as_slice()) {
        return Some(StreamKind::Audio);
    }
    if starts_with(name, video.as_slice()) {
        return Some(StreamKind::Video);
    }
    match media_type {
        None => None,
        Some(media_type) => {
            let audio: Vec<u8> = vec![97u8, 117u8, 100u8, 105u8, 111u8, 47u8];
            let video: Vec<u8> = vec![118u8, 105u8, 100u8, 101u8, 111u8, 47u8];
            assert(audio@ == media_prefix(audio_word()));
            assert(video@ == media_prefix(video_word()));
            let name = media_type.as_bytes();
            if starts_with(name, audio.as_slice()) {
                Some(StreamKind::Audio)
            } else if starts_with(name, video.as_slice()) {
                Some(StreamKind::Video)
            } else {
                None
            }
        },
    }
}

/// Decides whether a stream is a still image, from the name of the media
/// type that its stream-start announced, if any.
pub fn is_image(media_type: Option<&str>) -> (image: bool)
    ensures
        image == spec_is_image(bytes_of(media_type)),
{
    match media_type {
        None => false,
        Some(media_type) => {
            let image: Vec<u8> = vec![105u8, 109u8, 97u8, 103u8, 101u8, 47u8];
            assert(image@ == media_prefix(image_word()));
            starts_with(media_type.as_bytes(), image.as_slice())
        },
    }
}

} // verus!
