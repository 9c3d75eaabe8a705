//! What drives FFmpeg to produce the stream bundle: the argument list of each
//! rendition's encode, the master playlist that references every variant,
//! the reports of failed encodes, and how the CPU budget is split across
//! concurrent encodes.

use vstd::prelude::*;

use crate::encoder::kbps_text;
use crate::ladder::{bandwidth, bandwidth_fits, Rendition};
use crate::media::MediaInfo;
use crate::text::{
    chars_of, decimal, decimal_string, join, join_strings, lines, owned, push_decimal,
    push_string, split_lines, string_of, strings, views,
};

verus! {

/// Filename of the HLS master playlist within the output directory.
pub const MASTER_PLAYLIST: &'static str = "master.m3u8";

/// Inputs shared by every encode in a run.
pub struct PackageOptions<'a> {
    pub ffmpeg_bin: &'a str,
    pub input: &'a str,
    pub out_dir: &'a str,
    pub segment_secs: u32,
    pub preset: &'a str,
    /// Threads handed to each ffmpeg process (total = jobs x this = cores).
    pub threads_per_job: u32,
}

/// The playlist entry of one rung: its peak bandwidth and resolution, then
/// its variant playlist.
pub open spec fn stream_entry(r: Rendition) -> Seq<char> {
    "#EXT-X-STREAM-INF:BANDWIDTH="@ + decimal(bandwidth(r) as nat) + ",RESOLUTION="@ + decimal(
        r.width as nat,
    ) + "x"@ + decimal(r.height as nat) + "\n"@ + r.name@ + ".m3u8\n"@
}

/// The entries of every rung, in ladder order.
pub open spec fn stream_entries(ladder: Seq<Rendition>) -> Seq<char>
    decreases ladder.len(),
{
    if ladder.len() == 0 {
        seq![]
    } else {
        stream_entries(ladder.drop_last()) + stream_entry(ladder.last())
    }
}

/// The HLS master playlist of a ladder. The lowest rung comes first, so
/// players start conservatively and then adapt up.
pub open spec fn master_text(ladder: Seq<Rendition>) -> Seq<char> {
    "#EXTM3U\n"@ + "#EXT-X-VERSION:3\n"@ + stream_entries(ladder)
}

/// The master playlist referencing every variant of `ladder`.
pub fn master_playlist(ladder: &[Rendition]) -> (text: String)
    requires
        forall|k: int| 0 <= k < ladder@.len() ==> bandwidth_fits(#[trigger] ladder@[k]),
    ensures
        text@ == master_text(ladder@),
        // the header, then one entry per rung, in ladder order: the k-th gives
        // rung k's peak bandwidth (video cap plus audio, plus 15%) and
        // resolution, then names its variant playlist
        text@ == "#EXTM3U\n"@ + "#EXT-X-VERSION:3\n"@ + Seq::new(
            ladder@.len(),
            |k: int|
                "#EXT-X-STREAM-INF:BANDWIDTH="@ + decimal(
                    ((ladder@[k].maxrate_kbps + ladder@[k].a_kbps) * 1000 * 115 / 100) as nat,
                ) + ",RESOLUTION="@ + decimal(ladder@[k].width as nat) + "x"@ + decimal(
                    ladder@[k].height as nat,
                ) + "\n"@ + ladder@[k].name@ + ".m3u8\n"@,
        ).flatten(),
{
    let mut text = owned("#EXTM3U\n");
    text.append("#EXT-X-VERSION:3\n");
    let mut i: usize = 0;
    while i < ladder.len()
        invariant
            i <= ladder@.len(),
            forall|k: int| 0 <= k < ladder@.len() ==> bandwidth_fits(#[trigger] ladder@[k]),
            text@ == "#EXTM3U\n"@ + "#EXT-X-VERSION:3\n"@ + stream_entries(
                ladder@.take(i as int),
            ),
        decreases ladder@.len() - i,
    {
        let r = &ladder[i];
        assert(ladder@.take(i + 1).drop_last() =~= ladder@.take(i as int));
        let ghost before = text@;
        text.append("#EXT-X-STREAM-INF:BANDWIDTH=");
        push_decimal(&mut text, r.bandwidth_bps() as u64);
        text.append(",RESOLUTION=");
        push_decimal(&mut text, r.width as u64);
        text.append("x");
        push_decimal(&mut text, r.height as u64);
        text.append("\n");
        text.append(r.name.as_str());
        text.append(".m3u8\n");
        assert(text@ =~= before + stream_entry(*r));
        i = i + 1;
    }
    assert(ladder@.take(i as int) =~= ladder@);
    proof {
        lemma_entries_flatten(ladder@);
        assert(Seq::new(ladder@.len(), |k: int| stream_entry(ladder@[k])) =~= Seq::new(
            ladder@.len(),
            |k: int|
                "#EXT-X-STREAM-INF:BANDWIDTH="@ + decimal(
                    ((ladder@[k].maxrate_kbps + ladder@[k].a_kbps) * 1000 * 115 / 100) as nat,
                ) + ",RESOLUTION="@ + decimal(ladder@[k].width as nat) + "x"@ + decimal(
                    ladder@[k].height as nat,
                ) + "\n"@ + ladder@[k].name@ + ".m3u8\n"@,
        ));
    }
    text
}

/// The entries of a ladder are its rungs' entries, one after another.
pub proof fn lemma_entries_flatten(ladder: Seq<Rendition>)
    ensures
        stream_entries(ladder) == Seq::new(ladder.len(), |k: int| stream_entry(ladder[k])).flatten(),
    decreases ladder.len(),
{
    if ladder.len() > 0 {
        let init = ladder.drop_last();
        lemma_entries_flatten(init);
        let f = Seq::new(init.len(), |k: int| stream_entry(init[k]));
        assert(Seq::new(ladder.len(), |k: int| stream_entry(ladder[k])) =~= f.push(
            stream_entry(ladder.last()),
        ));
        f.lemma_flatten_push(stream_entry(ladder.last()));
    } else {
        assert(Seq::new(ladder.len(), |k: int| stream_entry(ladder[k])) =~= Seq::<
            Seq<char>,
        >::empty());
    }
}

/// The file name of a rung's variant playlist, `<name>.m3u8`.
pub fn variant_playlist_name(r: &Rendition) -> (s: String)
    ensures
        s@ == r.name@ + ".m3u8"@,
{
    let mut s = r.name.clone();
    s.append(".m3u8");
    s
}

/// The segment file pattern of a rung, `<name>_%03d.ts`.
pub fn segment_pattern_name(r: &Rendition) -> (s: String)
    ensures
        s@ == r.name@ + "_%03d.ts"@,
{
    let mut s = r.name.clone();
    s.append("_%03d.ts");
    s
}

/// The arguments of the ffmpeg run that encodes rung `r` into HLS, up to and
/// including `-hls_segment_filename`; the segment pattern and the variant
/// playlist, as paths under the output directory, follow them. The encode
/// uses libx264 with a fixed GOP and no scene-cut keyframes, so every segment
/// starts on a keyframe; audio is AAC stereo, or explicitly none.
pub open spec fn encode_args_for(
    opts: PackageOptions,
    has_audio: bool,
    r: Rendition,
    gop: nat,
) -> Seq<Seq<char>> {
    seq![
        "-y"@,
        "-i"@,
        opts.input@,
        "-threads"@,
        decimal(opts.threads_per_job as nat),
        "-c:v"@,
        "libx264"@,
        "-preset"@,
        opts.preset@,
        "-pix_fmt"@,
        "yuv420p"@,
        "-vf"@,
        "scale=-2:"@ + decimal(r.height as nat),
        "-b:v"@,
        kbps_text(r.v_kbps as nat),
        "-maxrate"@,
        kbps_text(r.maxrate_kbps as nat),
        "-bufsize"@,
        kbps_text(r.bufsize_kbps as nat),
        "-g"@,
        decimal(gop),
        "-keyint_min"@,
        decimal(gop),
        "-sc_threshold"@,
        "0"@,
    ] + (if has_audio {
        seq!["-c:a"@, "aac"@, "-b:a"@, kbps_text(r.a_kbps as nat), "-ac"@, "2"@]
    } else {
        seq!["-an"@]
    }) + seq![
        "-f"@,
        "hls"@,
        "-hls_time"@,
        decimal(opts.segment_secs as nat),
        "-hls_playlist_type"@,
        "vod"@,
        "-hls_flags"@,
        "independent_segments"@,
        "-hls_segment_filename"@,
    ]
}

fn kbps_string(n: u32) -> (s: String)
    ensures
        s@ == kbps_text(n as nat),
{
    let mut s = decimal_string(n as u64);
    s.append("k");
    s
}

/// The arguments of the ffmpeg run that encodes `r` (see `encode_args_for`).
pub fn encode_args(opts: &PackageOptions, info: &MediaInfo, r: &Rendition, gop: u32) -> (args: Vec<
    String,
>)
    ensures
        strings(args@) == encode_args_for(*opts, info.has_audio, *r, gop as nat),
        // the encode reads the input, scales to the rung's height, requests its
        // bitrates and GOP, and cuts segments of the requested length
        exists|i: int|
            0 <= i && i + 1 < args.len() && #[trigger] strings(args@)[i] == "-i"@ && strings(
                args@,
            )[i + 1] == opts.input@,
        exists|i: int|
            0 <= i && i + 1 < args.len() && #[trigger] strings(args@)[i] == "-threads"@ && strings(
                args@,
            )[i + 1] == decimal(opts.threads_per_job as nat),
        exists|i: int|
            0 <= i && i + 1 < args.len() && #[trigger] strings(args@)[i] == "-vf"@ && strings(
                args@,
            )[i + 1] == "scale=-2:"@ + decimal(r.height as nat),
        exists|i: int|
            0 <= i && i + 1 < args.len() && #[trigger] strings(args@)[i] == "-b:v"@ && strings(
                args@,
            )[i + 1] == decimal(r.v_kbps as nat) + "k"@,
        exists|i: int|
            0 <= i && i + 1 < args.len() && #[trigger] strings(args@)[i] == "-maxrate"@ && strings(
                args@,
            )[i + 1] == decimal(r.maxrate_kbps as nat) + "k"@,
        exists|i: int|
            0 <= i && i + 1 < args.len() && #[trigger] strings(args@)[i] == "-bufsize"@ && strings(
                args@,
            )[i + 1] == decimal(r.bufsize_kbps as nat) + "k"@,
        exists|i: int|
            0 <= i && i + 1 < args.len() && #[trigger] strings(args@)[i] == "-g"@ && strings(
                args@,
            )[i + 1] == decimal(gop as nat),
        exists|i: int|
            0 <= i && i + 1 < args.len() && #[trigger] strings(args@)[i] == "-keyint_min"@ && strings(
                args@,
            )[i + 1] == decimal(gop as nat),
        exists|i: int|
            0 <= i && i + 1 < args.len() && #[trigger] strings(args@)[i] == "-hls_time"@ && strings(
                args@,
            )[i + 1] == decimal(opts.segment_secs as nat),
        // AAC audio at the rung's bitrate when the source has audio, else none
        info.has_audio ==> exists|i: int|
            0 <= i && i + 1 < args.len() && #[trigger] strings(args@)[i] == "-b:a"@ && strings(
                args@,
            )[i + 1] == decimal(r.a_kbps as nat) + "k"@,
        !info.has_audio ==> exists|i: int| 0 <= i < args.len() && #[trigger] strings(args@)[i] == "-an"@,
        // the segment pattern and playlist paths follow the last argument
        args.len() >= 1 && strings(args@)[args.len() - 1] == "-hls_segment_filename"@,
{
    let mut args: Vec<String> = Vec::new();
    push_string(&mut args, owned("-y"));
    push_string(&mut args, owned("-i"));
    push_string(&mut args, owned(opts.input));
    push_string(&mut args, owned("-threads"));
    push_string(&mut args, decimal_string(opts.threads_per_job as u64));
    // video
    push_string(&mut args, owned("-c:v"));
    push_string(&mut args, owned("libx264"));
    push_string(&mut args, owned("-preset"));
    push_string(&mut args, owned(opts.preset));
    push_string(&mut args, owned("-pix_fmt"));
    push_string(&mut args, owned("yuv420p"));
    push_string(&mut args, owned("-vf"));
    let mut scale = owned("scale=-2:");
    push_decimal(&mut scale, r.height as u64);
    push_string(&mut args, scale);
    push_string(&mut args, owned("-b:v"));
    push_string(&mut args, kbps_string(r.v_kbps));
    push_string(&mut args, owned("-maxrate"));
    push_string(&mut args, kbps_string(r.maxrate_kbps));
    push_string(&mut args, owned("-bufsize"));
    push_string(&mut args, kbps_string(r.bufsize_kbps));
    // Fixed GOP, no scene-cut keyframes: segment-aligned keyframes.
    push_string(&mut args, owned("-g"));
    push_string(&mut args, decimal_string(gop as u64));
    push_string(&mut args, owned("-keyint_min"));
    push_string(&mut args, decimal_string(gop as u64));
    push_string(&mut args, owned("-sc_threshold"));
    push_string(&mut args, owned("0"));
    // audio, or explicitly none
    if info.has_audio {
        push_string(&mut args, owned("-c:a"));
        push_string(&mut args, owned("aac"));
        push_string(&mut args, owned("-b:a"));
        push_string(&mut args, kbps_string(r.a_kbps));
        push_string(&mut args, owned("-ac"));
        push_string(&mut args, owned("2"));
    } else {
        push_string(&mut args, owned("-an"));
    }
    // HLS muxer
    push_string(&mut args, owned("-f"));
    push_string(&mut args, owned("hls"));
    push_string(&mut args, owned("-hls_time"));
    push_string(&mut args, decimal_string(opts.segment_secs as u64));
    push_string(&mut args, owned("-hls_playlist_type"));
    push_string(&mut args, owned("vod"));
    push_string(&mut args, owned("-hls_flags"));
    push_string(&mut args, owned("independent_segments"));
    push_string(&mut args, owned("-hls_segment_filename"));
    assert(strings(args@) =~= encode_args_for(*opts, info.has_audio, *r, gop as nat));
    proof {
        let a = strings(args@);
        assert(a[1] == "-i"@ && a[3] == "-threads"@ && a[11] == "-vf"@ && a[13] == "-b:v"@);
        assert(a[15] == "-maxrate"@ && a[17] == "-bufsize"@ && a[19] == "-g"@ && a[21]
            == "-keyint_min"@);
        if info.has_audio {
            assert(a[27] == "-b:a"@);
            assert(a[33] == "-hls_time"@);
        } else {
            assert(a[25] == "-an"@);
            assert(a[28] == "-hls_time"@);
        }
    }
    args
}

/// The last `k` of `ls` (all of them when there are fewer).
pub open spec fn last_of(ls: Seq<Seq<char>>, k: nat) -> Seq<Seq<char>> {
    if ls.len() <= k {
        ls
    } else {
        ls.skip(ls.len() - k)
    }
}

/// The last three lines of a failed run's error output, joined by ` | `:
/// an actionable summary instead of a wall of ffmpeg logging.
pub open spec fn error_tail(stderr: Seq<char>) -> Seq<char> {
    join(last_of(lines(stderr), 3), " | "@)
}

/// The last three lines of `stderr`, joined by ` | `.
pub fn stderr_tail(stderr: &str) -> (tail: String)
    ensures
        tail@ == error_tail(stderr@),
{
    let text = chars_of(stderr);
    let ls = split_lines(&text);
    let start: usize = if ls.len() > 3 {
        ls.len() - 3
    } else {
        0
    };
    let ghost want = last_of(lines(stderr@), 3);
    assert(want =~= views(ls@).skip(start as int));
    let mut parts: Vec<String> = Vec::new();
    let mut i = start;
    while i < ls.len()
        invariant
            start <= i <= ls.len(),
            views(ls@) == lines(stderr@),
            want == views(ls@).skip(start as int),
            strings(parts@) =~= want.take(i - start),
        decreases ls.len() - i,
    {
        push_string(&mut parts, string_of(&ls[i]));
        assert(want.take(i + 1 - start) =~= want.take(i - start).push(ls@[i as int]@));
        i = i + 1;
    }
    assert(want.take(i - start) =~= want);
    join_strings(&parts, " | ")
}

/// The report of an ffmpeg run that exited unsuccessfully.
pub open spec fn exit_report(status: Seq<char>, stderr: Seq<char>) -> Seq<char> {
    "ffmpeg exited with "@ + status + " ("@ + error_tail(stderr) + ")"@
}

/// The report of an ffmpeg run that exited with `status` (as its exit
/// status displays) and wrote `stderr`.
pub fn exit_failure(status: &str, stderr: &str) -> (m: String)
    ensures
        m@ == exit_report(status@, stderr@),
{
    let mut m = owned("ffmpeg exited with ");
    m.append(status);
    m.append(" (");
    let tail = stderr_tail(stderr);
    m.append(tail.as_str());
    m.append(")");
    m
}

/// The line that reports one failed rung: its name, then why.
pub fn failure_line(name: &str, detail: &str) -> (m: String)
    ensures
        m@ == name@ + ": "@ + detail@,
{
    let mut m = owned(name);
    m.append(": ");
    m.append(detail);
    m
}

/// The report of a run in which some rungs failed: one bulleted line each.
pub open spec fn failures_report(failures: Seq<Seq<char>>) -> Seq<char> {
    "encoding failed:\n  - "@ + join(failures, "\n  - "@)
}

/// The report of a run in which the rungs of `failures` failed.
pub fn failure_report(failures: &Vec<String>) -> (m: String)
    ensures
        m@ == failures_report(strings(failures@)),
{
    let mut m = owned("encoding failed:\n  - ");
    let joined = join_strings(failures, "\n  - ");
    m.append(joined.as_str());
    m
}

/// `x` clamped to `[lo, hi]` (`lo <= hi`).
pub open spec fn clamp(x: int, lo: int, hi: int) -> int {
    if x < lo {
        lo
    } else if x > hi {
        hi
    } else {
        x
    }
}

/// The number of concurrent encodes: the requested jobs, at least one and at
/// most one per rung.
pub fn worker_count(jobs: usize, rungs: usize) -> (n: usize)
    ensures
        n == clamp(jobs as int, 1, if rungs >= 1 { rungs as int } else { 1 }),
        1 <= n,
        rungs >= 1 ==> n <= rungs,
{
    let hi = if rungs >= 1 {
        rungs
    } else {
        1
    };
    if jobs < 1 {
        1
    } else if jobs > hi {
        hi
    } else {
        jobs
    }
}

/// The jobs of a run: the requested number, else the parallelism the machine
/// offers; at least one.
pub fn effective_jobs(requested: Option<usize>, available: usize) -> (jobs: usize)
    ensures
        jobs == (match requested {
            Some(j) => if j >= 1 { j } else { 1 },
            None => if available >= 1 { available } else { 1 },
        }),
{
    let j = match requested {
        Some(j) => j,
        None => available,
    };
    if j >= 1 {
        j
    } else {
        1
    }
}

/// The CPU threads of each ffmpeg process, so that the concurrent encodes do
/// not oversubscribe the cores (jobs x threads = cores): the cores divided
/// by the number of encodes that can run at once, at least one, converted
/// to `u32` as `as` does.
pub open spec fn threads_for(cores: int, jobs: int, rungs: int) -> int {
    let runs = if rungs >= 1 { rungs } else { 1 };
    let concurrent = if jobs < runs { jobs } else { runs };
    let per = cores / (if concurrent >= 1 { concurrent } else { 1 });
    if per >= 1 { per } else { 1 }
}

/// The concurrent encodes never oversubscribe the cores: each gets at least
/// one thread, and when there are at least as many cores as concurrent
/// encodes, their threads together stay within the cores.
pub proof fn lemma_threads_fit_cores(cores: int, jobs: int, rungs: int)
    requires
        cores >= 0,
        jobs >= 1,
    ensures
        threads_for(cores, jobs, rungs) >= 1,
        ({
            let runs = if rungs >= 1 { rungs } else { 1 };
            let concurrent = if jobs < runs { jobs } else { runs };
            cores >= concurrent ==> threads_for(cores, jobs, rungs) * concurrent <= cores
        }),
{
    let runs = if rungs >= 1 { rungs } else { 1 };
    let concurrent = if jobs < runs { jobs } else { runs };
    assert((cores / concurrent) * concurrent <= cores) by (nonlinear_arith)
        requires
            concurrent >= 1,
            cores >= 0,
    ;
    assert(cores >= concurrent ==> cores / concurrent >= 1) by (nonlinear_arith)
        requires
            concurrent >= 1,
    ;
}

/// The CPU threads handed to each ffmpeg process (see `threads_for`).
pub fn threads_per_job(cores: usize, jobs: usize, rungs: usize) -> (t: u32)
    ensures
        t == threads_for(cores as int, jobs as int, rungs as int) as u32,
{
    let runs = if rungs >= 1 {
        rungs
    } else {
        1
    };
    let concurrent = if jobs < runs {
        jobs
    } else {
        runs
    };
    let per = cores / (if concurrent >= 1 {
        concurrent
    } else {
        1
    });
    let per = if per >= 1 {
        per
    } else {
        1
    };
    per as u32
}

} // verus!
