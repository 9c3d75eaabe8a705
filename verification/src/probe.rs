//! Folding what `ffprobe -print_format json -show_format -show_streams`
//! reports into [`MediaInfo`]. The streams arrive as plain values, with
//! every field optional as in ffprobe's JSON.

use vstd::prelude::*;

use crate::media::MediaInfo;
use crate::text::{owned, str_eq};

verus! {

/// One stream of ffprobe's report, everything optional, numbers as ffprobe
/// gives them.
#[derive(Debug, Clone)]
pub struct RawStream {
    pub codec_type: Option<String>,
    pub codec_name: Option<String>,
    pub width: Option<u32>,
    pub height: Option<u32>,
    pub r_frame_rate: Option<String>,
}

/// Whether stream `s` is of kind `kind` (`"video"`, `"audio"`, ...).
pub open spec fn is_kind(s: RawStream, kind: Seq<char>) -> bool {
    s.codec_type matches Some(t) && t@ == kind
}

/// Whether `i` is the index of the first video stream.
pub open spec fn is_first_video(streams: Seq<RawStream>, i: int) -> bool {
    &&& 0 <= i < streams.len()
    &&& is_kind(streams[i], "video"@)
    &&& forall|k: int| 0 <= k < i ==> !is_kind(#[trigger] streams[k], "video"@)
}

/// Whether no stream is a video stream.
pub open spec fn no_video(streams: Seq<RawStream>) -> bool {
    forall|k: int| 0 <= k < streams.len() ==> !is_kind(#[trigger] streams[k], "video"@)
}

/// Whether some stream is an audio stream.
pub open spec fn some_audio(streams: Seq<RawStream>) -> bool {
    exists|k: int| 0 <= k < streams.len() && is_kind(#[trigger] streams[k], "audio"@)
}

fn stream_is(s: &RawStream, kind: &str) -> (b: bool)
    ensures
        b == is_kind(*s, kind@),
{
    match &s.codec_type {
        Some(t) => str_eq(t.as_str(), kind),
        None => false,
    }
}

/// The index of the first video stream, if there is one.
pub fn video_stream(streams: &Vec<RawStream>) -> (i: Option<usize>)
    ensures
        match i {
            Some(i) => is_first_video(streams@, i as int),
            None => no_video(streams@),
        },
{
    let mut i: usize = 0;
    while i < streams.len()
        invariant
            i <= streams.len(),
            forall|k: int| 0 <= k < i ==> !is_kind(#[trigger] streams@[k], "video"@),
        decreases streams.len() - i,
    {
        if stream_is(&streams[i], "video") {
            return Some(i);
        }
        i = i + 1;
    }
    None
}

/// Whether the source carries an audio stream.
pub fn has_audio_stream(streams: &Vec<RawStream>) -> (b: bool)
    ensures
        b == some_audio(streams@),
{
    let mut i: usize = 0;
    while i < streams.len()
        invariant
            i <= streams.len(),
            forall|k: int| 0 <= k < i ==> !is_kind(#[trigger] streams@[k], "audio"@),
        decreases streams.len() - i,
    {
        if stream_is(&streams[i], "audio") {
            assert(is_kind(streams@[i as int], "audio"@));
            return true;
        }
        i = i + 1;
    }
    false
}

/// The media facts of a source whose ffprobe report lists `streams` and a
/// duration of `duration_secs` whole seconds: the size and codec of the
/// first video stream (`0`, `0` and `"unknown"` where missing), and whether
/// any stream is audio.
pub fn media_info(streams: &Vec<RawStream>, duration_secs: u64) -> (info: MediaInfo)
    ensures
        info.duration_secs == duration_secs,
        info.has_audio == some_audio(streams@),
        forall|i: int|
            is_first_video(streams@, i) ==> {
                &&& info.width == (match streams@[i].width {
                    Some(w) => w,
                    None => 0,
                })
                &&& info.height == (match streams@[i].height {
                    Some(h) => h,
                    None => 0,
                })
                &&& info.v_codec@ == (match streams@[i].codec_name {
                    Some(n) => n@,
                    None => "unknown"@,
                })
            },
        no_video(streams@) ==> info.width == 0 && info.height == 0 && info.v_codec@
            == "unknown"@,
{
    let has_audio = has_audio_stream(streams);
    match video_stream(streams) {
        Some(i) => {
            let v = &streams[i];
            let width = match v.width {
                Some(w) => w,
                None => 0,
            };
            let height = match v.height {
                Some(h) => h,
                None => 0,
            };
            let v_codec = match &v.codec_name {
                Some(n) => n.clone(),
                None => owned("unknown"),
            };
            proof {
                assert forall|j: int| is_first_video(streams@, j) implies j == i by {
                    if j < i {
                        assert(!is_kind(streams@[j], "video"@));
                    }
                    if i < j {
                        assert(!is_kind(streams@[i as int], "video"@));
                    }
                }
            }
            MediaInfo { width, height, duration_secs, v_codec, has_audio }
        },
        None => MediaInfo { width: 0, height: 0, duration_secs, v_codec: owned("unknown"), has_audio },
    }
}

} // verus!
