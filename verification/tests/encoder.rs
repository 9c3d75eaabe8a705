use streamsmith::encoder::{encoder_names, resolve, Encoder, EncoderError, Family, HwAccel};
use streamsmith::ladder::Rendition;

fn rung() -> Rendition {
    Rendition {
        name: "720p".into(),
        width: 1280,
        height: 720,
        v_kbps: 2800,
        maxrate_kbps: 2996,
        bufsize_kbps: 4200,
        a_kbps: 128,
    }
}

#[test]
fn parses_hwaccel_aliases() {
    assert_eq!(HwAccel::parse("auto").unwrap(), HwAccel::Auto);
    assert_eq!(HwAccel::parse("VT").unwrap(), HwAccel::VideoToolbox);
    assert_eq!(HwAccel::parse("cpu").unwrap(), HwAccel::Off);
    assert!(HwAccel::parse("magic").is_err());
}

#[test]
fn x264_args_include_preset_and_scene_cut_control() {
    let args = Encoder::x264().video_args(&rung(), 180, "veryfast");
    assert!(args.windows(2).any(|w| w == ["-c:v", "libx264"]));
    assert!(args.windows(2).any(|w| w == ["-preset", "veryfast"]));
    assert!(args.windows(2).any(|w| w == ["-sc_threshold", "0"]));
    assert!(args.windows(2).any(|w| w == ["-b:v", "2800k"]));
}

#[test]
fn hardware_args_skip_x264_only_flags() {
    let args = Encoder::videotoolbox().video_args(&rung(), 180, "veryfast");
    assert!(args.windows(2).any(|w| w == ["-c:v", "h264_videotoolbox"]));
    // No libx264-specific flags should leak into a hardware encode.
    assert!(!args.iter().any(|a| a == "-preset"));
    assert!(!args.iter().any(|a| a == "-sc_threshold"));
    // Rate control and forced GOP still apply.
    assert!(args.windows(2).any(|w| w == ["-maxrate", "2996k"]));
    assert!(args.windows(2).any(|w| w == ["-g", "180"]));
}

#[test]
fn x264_args_are_exact() {
    let args = Encoder::x264().video_args(&rung(), 180, "veryfast");
    let want = [
        "-c:v", "libx264", "-pix_fmt", "yuv420p", "-preset", "veryfast", "-b:v", "2800k",
        "-maxrate", "2996k", "-bufsize", "4200k", "-g", "180", "-keyint_min", "180",
        "-sc_threshold", "0",
    ];
    assert_eq!(args, want);
}

#[test]
fn hardware_args_are_exact() {
    let args = Encoder::nvenc().video_args(&rung(), 48, "slow");
    let want = [
        "-c:v", "h264_nvenc", "-pix_fmt", "yuv420p", "-b:v", "2800k", "-maxrate", "2996k",
        "-bufsize", "4200k", "-g", "48",
    ];
    assert_eq!(args, want);
    let args = Encoder::qsv().video_args(&rung(), 0, "slow");
    assert_eq!(args[1], "h264_qsv");
    assert_eq!(args[args.len() - 1], "0");
}

#[test]
fn parse_ignores_ascii_case_and_knows_every_alias() {
    let cases = [
        ("AUTO", HwAccel::Auto),
        ("Off", HwAccel::Off),
        ("none", HwAccel::Off),
        ("SOFTWARE", HwAccel::Off),
        ("x264", HwAccel::Off),
        ("VideoToolbox", HwAccel::VideoToolbox),
        ("apple", HwAccel::VideoToolbox),
        ("NVENC", HwAccel::Nvenc),
        ("nvidia", HwAccel::Nvenc),
        ("Cuda", HwAccel::Nvenc),
        ("qsv", HwAccel::Qsv),
        ("Intel", HwAccel::Qsv),
        ("QuickSync", HwAccel::Qsv),
    ];
    for (name, want) in cases {
        assert_eq!(HwAccel::parse(name).unwrap(), want, "{name}");
    }
}

#[test]
fn unknown_hwaccel_reports_the_lowercased_name() {
    match HwAccel::parse("MaGiC") {
        Err(EncoderError::UnknownHwAccel(name)) => assert_eq!(name, "magic"),
        other => panic!("unexpected {other:?}"),
    }
    let e = HwAccel::parse("Metal").unwrap_err();
    assert_eq!(
        e.message(),
        "unknown --hwaccel 'metal' (expected: auto, off, videotoolbox, nvenc, qsv)"
    );
    // Only ASCII letters are folded.
    assert!(HwAccel::parse("ÄUTO").is_err());
    assert!(HwAccel::parse(" auto").is_err());
}

fn names(list: &[&str]) -> Vec<String> {
    list.iter().map(|s| s.to_string()).collect()
}

#[test]
fn resolve_picks_the_best_available_encoder() {
    let all = names(&["libx264", "h264_qsv", "h264_nvenc", "h264_videotoolbox"]);
    assert_eq!(resolve(&all, HwAccel::Auto).unwrap().family, Family::VideoToolbox);
    let some = names(&["libx264", "h264_qsv", "h264_nvenc"]);
    assert_eq!(resolve(&some, HwAccel::Auto).unwrap().codec, "h264_nvenc");
    let qsv = names(&["h264_qsv"]);
    assert_eq!(resolve(&qsv, HwAccel::Auto).unwrap().codec, "h264_qsv");
    let none = names(&["libx264"]);
    let e = resolve(&none, HwAccel::Auto).unwrap();
    assert_eq!(e.codec, "libx264");
    assert_eq!(e.label, "libx264 (software)");
    assert_eq!(resolve(&all, HwAccel::Off).unwrap().codec, "libx264");
}

#[test]
fn explicit_request_needs_its_encoder() {
    let some = names(&["libx264", "h264_nvenc"]);
    let e = resolve(&some, HwAccel::Nvenc).unwrap();
    assert_eq!(e.codec, "h264_nvenc");
    assert_eq!(e.label, "NVENC (hardware)");
    match resolve(&some, HwAccel::VideoToolbox) {
        Err(EncoderError::Unavailable(name)) => assert_eq!(name, "h264_videotoolbox"),
        other => panic!("unexpected {other:?}"),
    }
    let err = resolve(&some, HwAccel::Qsv).unwrap_err();
    assert_eq!(
        err.message(),
        "requested encoder 'h264_qsv' is not available in this ffmpeg build (try `--hwaccel auto`, or a build with it enabled)"
    );
    assert!(resolve(&Vec::new(), HwAccel::Nvenc).is_err());
    assert_eq!(resolve(&Vec::new(), HwAccel::Off).unwrap().codec, "libx264");
}

#[test]
fn encoder_listing_yields_video_encoder_names() {
    let listing = "Encoders:\n V..... = Video\n A..... = Audio\n ------\n V....D libx264              libx264 H.264\r\n V....D h264_videotoolbox    VideoToolbox H.264 Encoder\n A....D aac                  AAC (Advanced Audio Coding)\n V h264_bogus\n\tVFS..D  h264_nvenc\tNVIDIA NVENC\n V.....\n";
    assert_eq!(
        encoder_names(listing),
        vec!["=", "libx264", "h264_videotoolbox", "h264_nvenc"]
    );
    assert!(encoder_names("").is_empty());
    assert_eq!(encoder_names(" V....D last"), vec!["last"]);
}
