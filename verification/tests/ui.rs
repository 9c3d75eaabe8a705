use streamsmith::encoder::Encoder;
use streamsmith::ladder::Rendition;
use streamsmith::media::MediaInfo;
use streamsmith::ui::{
    banner_line, bold, cyan, dim, encode_done_line, encode_start_line, encoder_line, error_line,
    green, ladder_line, packaged_line, paint, probe_line, red, serving_lines,
};

fn rung(name: &str) -> Rendition {
    Rendition {
        name: name.into(),
        width: 1280,
        height: 720,
        v_kbps: 2800,
        maxrate_kbps: 2996,
        bufsize_kbps: 4200,
        a_kbps: 128,
    }
}

#[test]
fn paint_only_when_color_is_enabled() {
    assert_eq!(paint("1", "x", true), "\x1b[1mx\x1b[0m");
    assert_eq!(paint("1", "x", false), "x");
    assert_eq!(bold("b", true), "\x1b[1mb\x1b[0m");
    assert_eq!(red("r", true), "\x1b[31mr\x1b[0m");
    assert_eq!(dim("d", true), "\x1b[2md\x1b[0m");
    assert_eq!(green("g", true), "\x1b[32mg\x1b[0m");
    assert_eq!(cyan("c", true), "\x1b[36mc\x1b[0m");
    assert_eq!(cyan("c", false), "c");
}

#[test]
fn step_lines_without_color() {
    assert_eq!(
        banner_line(false),
        "streamsmith · one command → a web-ready adaptive stream"
    );
    assert_eq!(error_line("boom", false), "error: boom");
    assert_eq!(error_line("boom", true), "\x1b[31merror:\x1b[0m boom");
    let info = MediaInfo {
        width: 1920,
        height: 1080,
        duration_secs: 75,
        v_codec: "h264".into(),
        has_audio: true,
    };
    assert_eq!(
        probe_line(&info, "30", false),
        "✓ probed  1920×1080 · h264 · 30 fps · 01:15"
    );
    let ladder = vec![rung("240p"), rung("360p"), rung("720p")];
    assert_eq!(ladder_line(&ladder, false), "✓ ladder  240p  360p  720p");
    assert_eq!(ladder_line(&[], false), "✓ ladder  ");
    assert_eq!(
        encoder_line(&Encoder::videotoolbox(), false),
        "✓ encoder  VideoToolbox (hardware)"
    );
    assert_eq!(encode_start_line(&rung("720p"), false), "→ encoding 720p");
    assert_eq!(
        encode_done_line(&rung("720p"), "3.2", false),
        "✓   720p   1280×720 · 2800 kb/s · 3.2s"
    );
    assert_eq!(
        encode_done_line(&rung("1080p60"), "0.0", false),
        "✓   1080p60 1280×720 · 2800 kb/s · 0.0s"
    );
    assert_eq!(
        packaged_line("stream", "master.m3u8", false),
        "✓ packaged  stream/  (play master.m3u8)"
    );
    assert_eq!(
        serving_lines("http://127.0.0.1:8080/", false),
        ["  ▶ preview http://127.0.0.1:8080/", "  press Ctrl-C to stop"]
    );
}

#[test]
fn colored_done_line_is_not_padded() {
    // `{:<6}` measures the painted name, escape codes included.
    assert_eq!(
        encode_done_line(&rung("720p"), "1.0", true),
        "\x1b[32m✓\x1b[0m   \x1b[1m720p\x1b[0m \x1b[2m1280×720 · 2800 kb/s · 1.0s\x1b[0m"
    );
}
