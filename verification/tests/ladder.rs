use streamsmith::ladder::{plan, widths_fit, Rendition};
use streamsmith::media::MediaInfo;

fn source(w: u32, h: u32) -> MediaInfo {
    MediaInfo {
        width: w,
        height: h,
        duration_secs: 10,
        v_codec: "h264".into(),
        has_audio: true,
    }
}

#[test]
fn never_upscales() {
    let ladder = plan(&source(1280, 720));
    assert!(ladder.iter().all(|r| r.height <= 720));
    assert_eq!(ladder.last().unwrap().name, "720p");
}

#[test]
fn tiny_source_still_yields_one_rung() {
    let ladder = plan(&source(160, 120));
    assert_eq!(ladder.len(), 1);
    assert_eq!(ladder[0].name, "240p");
}

#[test]
fn width_matches_ffmpeg_ffalign_rounding() {
    // 1279x720 source at the 480p rung: 852.67 -> round 853 -> align UP 854,
    // which is what ffmpeg's `scale=-2:480` actually encodes.
    let ladder = plan(&source(1279, 720));
    let r480 = ladder.iter().find(|r| r.name == "480p").unwrap();
    assert_eq!(r480.width, 854);
}

#[test]
fn bandwidth_includes_container_overhead() {
    let ladder = plan(&source(1920, 1080));
    let r720 = ladder.iter().find(|r| r.name == "720p").unwrap();
    // (2996 maxrate + 128 audio) kbps + 15% TS overhead.
    assert_eq!(r720.bandwidth_bps(), (2996 + 128) * 1000 * 115 / 100);
}

#[test]
fn widths_follow_source_aspect_and_are_even() {
    // A 4:3 source: 480p rung should be 640x480, not 854x480.
    let ladder = plan(&source(1440, 1080));
    let r480 = ladder.iter().find(|r| r.name == "480p").unwrap();
    assert_eq!((r480.width, r480.height), (640, 480));
    assert!(ladder.iter().all(|r| r.width % 2 == 0));
}

#[test]
fn full_ladder_for_a_4k_source() {
    let ladder = plan(&source(3840, 2160));
    let names: Vec<&str> = ladder.iter().map(|r| r.name.as_str()).collect();
    assert_eq!(
        names,
        ["240p", "360p", "480p", "720p", "1080p", "1440p", "2160p"]
    );
    let widths: Vec<u32> = ladder.iter().map(|r| r.width).collect();
    assert_eq!(widths, [428, 640, 854, 1280, 1920, 2560, 3840]);
    let top = &ladder[6];
    assert_eq!(
        (top.v_kbps, top.maxrate_kbps, top.bufsize_kbps, top.a_kbps),
        (18000, 19260, 27000, 128)
    );
    let low = &ladder[0];
    assert_eq!((low.v_kbps, low.maxrate_kbps, low.bufsize_kbps), (400, 428, 600));
    assert_eq!(top.bandwidth_bps(), (19260 + 128) * 1000 * 115 / 100);
}

#[test]
fn unknown_dimensions_fall_back_to_16_by_9() {
    let ladder = plan(&source(0, 0));
    assert_eq!(ladder.len(), 1);
    // 240 * 16 / 9 = 426.67 -> 427 -> 428
    assert_eq!((ladder[0].width, ladder[0].height), (428, 240));
}

#[test]
fn rounding_halves_go_up_and_widths_stay_at_least_two() {
    // 240 * 3 / 1 = 720 exactly; odd heights give halves: 240 * 1 / 160 = 1.5 -> 2
    let ladder = plan(&source(1, 160));
    assert_eq!(ladder[0].width, 2);
    // 240 * 5 / 96 = 12.5 -> 13 -> 14
    let ladder = plan(&source(5, 96));
    assert_eq!(ladder[0].width, 14);
    // a source between tiers keeps the tiers below it
    let ladder = plan(&source(1000, 500));
    assert_eq!(ladder.len(), 3);
    assert_eq!(ladder[2].width, 960);
}

#[test]
fn widths_fit_guards_huge_sources() {
    assert!(widths_fit(&source(1920, 1080)));
    assert!(widths_fit(&source(0, 0)));
    assert!(!widths_fit(&source(u32::MAX, 1)));
    assert!(!widths_fit(&source(u32::MAX, 2160)));
    assert!(widths_fit(&source(u32::MAX - 1, 2160)));
}

#[test]
fn bandwidth_of_a_hand_made_rung() {
    let r = Rendition {
        name: "x".into(),
        width: 2,
        height: 2,
        v_kbps: 1,
        maxrate_kbps: 1,
        bufsize_kbps: 1,
        a_kbps: 2,
    };
    assert_eq!(r.bandwidth_bps(), 3450);
}
