use streamsmith::ladder::{plan, Rendition};
use streamsmith::media::MediaInfo;
use streamsmith::package::{
    effective_jobs, encode_args, exit_failure, failure_line, failure_report, master_playlist,
    segment_pattern_name, stderr_tail, threads_per_job, variant_playlist_name, worker_count,
    PackageOptions, MASTER_PLAYLIST,
};

fn info(w: u32, h: u32, has_audio: bool) -> MediaInfo {
    MediaInfo {
        width: w,
        height: h,
        duration_secs: 6,
        v_codec: "h264".into(),
        has_audio,
    }
}

fn rung() -> Rendition {
    Rendition {
        name: "720p".into(),
        width: 1280,
        height: 720,
        v_kbps: 2800,
        maxrate_kbps: 2996,
        bufsize_kbps: 4200,
        a_kbps: 128,
    }
}

#[test]
fn master_playlist_lists_every_rung_lowest_first() {
    let ladder = plan(&info(1280, 720, true));
    let text = master_playlist(&ladder);
    let want = "#EXTM3U\n#EXT-X-VERSION:3\n\
#EXT-X-STREAM-INF:BANDWIDTH=639400,RESOLUTION=428x240\n240p.m3u8\n\
#EXT-X-STREAM-INF:BANDWIDTH=1131600,RESOLUTION=640x360\n360p.m3u8\n\
#EXT-X-STREAM-INF:BANDWIDTH=1869900,RESOLUTION=854x480\n480p.m3u8\n\
#EXT-X-STREAM-INF:BANDWIDTH=3592600,RESOLUTION=1280x720\n720p.m3u8\n";
    assert_eq!(text, want);
    assert_eq!(master_playlist(&[]), "#EXTM3U\n#EXT-X-VERSION:3\n");
    assert_eq!(MASTER_PLAYLIST, "master.m3u8");
}

fn opts() -> PackageOptions<'static> {
    PackageOptions {
        ffmpeg_bin: "ffmpeg",
        input: "in put.mp4",
        out_dir: "stream",
        segment_secs: 6,
        preset: "veryfast",
        threads_per_job: 4,
    }
}

#[test]
fn encode_args_with_audio() {
    let args = encode_args(&opts(), &info(1280, 720, true), &rung(), 180);
    let want = [
        "-y", "-i", "in put.mp4", "-threads", "4", "-c:v", "libx264", "-preset", "veryfast",
        "-pix_fmt", "yuv420p", "-vf", "scale=-2:720", "-b:v", "2800k", "-maxrate", "2996k",
        "-bufsize", "4200k", "-g", "180", "-keyint_min", "180", "-sc_threshold", "0", "-c:a",
        "aac", "-b:a", "128k", "-ac", "2", "-f", "hls", "-hls_time", "6",
        "-hls_playlist_type", "vod", "-hls_flags", "independent_segments",
        "-hls_segment_filename",
    ];
    assert_eq!(args, want);
}

#[test]
fn encode_args_without_audio() {
    let args = encode_args(&opts(), &info(1280, 720, false), &rung(), 1);
    assert!(args.iter().any(|a| a == "-an"));
    assert!(!args.iter().any(|a| a == "-c:a"));
    assert!(args.windows(2).any(|w| w == ["-g", "1"]));
    assert_eq!(args.len(), 35);
}

#[test]
fn output_file_names() {
    assert_eq!(variant_playlist_name(&rung()), "720p.m3u8");
    assert_eq!(segment_pattern_name(&rung()), "720p_%03d.ts");
}

#[test]
fn stderr_tail_keeps_the_last_three_lines() {
    assert_eq!(stderr_tail("a\nb\r\nc\nd\n"), "b | c | d");
    assert_eq!(stderr_tail("only"), "only");
    assert_eq!(stderr_tail(""), "");
    assert_eq!(stderr_tail("x\n\ny"), "x |  | y");
    assert_eq!(stderr_tail("a\nb\nc\r"), "a | b | c\r");
    assert_eq!(
        exit_failure("exit status: 1", "noise\nError opening input\nNo such file\n"),
        "ffmpeg exited with exit status: 1 (noise | Error opening input | No such file)"
    );
}

#[test]
fn failure_reports() {
    assert_eq!(failure_line("720p", "boom"), "720p: boom");
    let failures = vec!["720p: boom".to_string(), "1080p: bang".to_string()];
    assert_eq!(
        failure_report(&failures),
        "encoding failed:\n  - 720p: boom\n  - 1080p: bang"
    );
}

#[test]
fn cpu_budget_is_split_across_encodes() {
    assert_eq!(worker_count(8, 4), 4);
    assert_eq!(worker_count(0, 4), 1);
    assert_eq!(worker_count(3, 0), 1);
    assert_eq!(worker_count(2, 7), 2);
    assert_eq!(threads_per_job(8, 4, 7), 2);
    assert_eq!(threads_per_job(8, 16, 4), 2);
    assert_eq!(threads_per_job(2, 16, 7), 1);
    assert_eq!(threads_per_job(0, 0, 0), 1);
    assert_eq!(effective_jobs(Some(3), 8), 3);
    assert_eq!(effective_jobs(Some(0), 8), 1);
    assert_eq!(effective_jobs(None, 8), 8);
    assert_eq!(effective_jobs(None, 0), 1);
}
