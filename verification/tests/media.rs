use streamsmith::media::MediaInfo;
use streamsmith::probe::{has_audio_stream, media_info, video_stream, RawStream};

fn info_with(secs: u64) -> MediaInfo {
    MediaInfo {
        width: 1920,
        height: 1080,
        duration_secs: secs,
        v_codec: "h264".into(),
        has_audio: false,
    }
}

#[test]
fn pretty_duration_formats() {
    assert_eq!(info_with(0).pretty_duration(), "00:00");
    assert_eq!(info_with(10).pretty_duration(), "00:10");
    assert_eq!(info_with(65).pretty_duration(), "01:05");
    assert_eq!(info_with(75).pretty_duration(), "01:15");
    assert_eq!(info_with(600).pretty_duration(), "10:00");
    assert_eq!(info_with(3599).pretty_duration(), "59:59");
    assert_eq!(info_with(3600).pretty_duration(), "1:00:00");
    assert_eq!(info_with(3661).pretty_duration(), "1:01:01");
    assert_eq!(info_with(36_000 * 10 + 5).pretty_duration(), "100:00:05");
}

#[test]
fn has_video_needs_both_dimensions() {
    assert!(info_with(1).has_video());
    let mut i = info_with(1);
    i.width = 0;
    assert!(!i.has_video());
}

fn stream(kind: Option<&str>, name: Option<&str>, w: Option<u32>, h: Option<u32>) -> RawStream {
    RawStream {
        codec_type: kind.map(|s| s.to_string()),
        codec_name: name.map(|s| s.to_string()),
        width: w,
        height: h,
        r_frame_rate: Some("30/1".to_string()),
    }
}

#[test]
fn media_info_takes_the_first_video_stream() {
    let streams = vec![
        stream(Some("audio"), Some("aac"), None, None),
        stream(Some("video"), Some("h264"), Some(1280), Some(720)),
        stream(Some("video"), Some("hevc"), Some(3840), Some(2160)),
    ];
    assert_eq!(video_stream(&streams), Some(1));
    assert!(has_audio_stream(&streams));
    let info = media_info(&streams, 42);
    assert_eq!((info.width, info.height), (1280, 720));
    assert_eq!(info.v_codec, "h264");
    assert!(info.has_audio);
    assert_eq!(info.duration_secs, 42);
}

#[test]
fn media_info_defaults() {
    let streams = vec![
        stream(None, Some("x"), Some(5), Some(5)),
        stream(Some("Video"), Some("h264"), Some(5), Some(5)),
    ];
    assert_eq!(video_stream(&streams), None);
    assert!(!has_audio_stream(&streams));
    let info = media_info(&streams, 0);
    assert_eq!((info.width, info.height), (0, 0));
    assert_eq!(info.v_codec, "unknown");
    assert!(!info.has_video());

    let partial = vec![stream(Some("video"), None, None, Some(480))];
    let info = media_info(&partial, 3);
    assert_eq!((info.width, info.height), (0, 480));
    assert_eq!(info.v_codec, "unknown");
}
