//! Choosing the video encoder: software (libx264) or hardware.
//!
//! libx264 is the default because it is universal and predictable, but every
//! rung of the ladder is an independent encode, so a hardware encoder
//! (Apple VideoToolbox, NVIDIA NVENC, Intel QuickSync) can cut wall-clock
//! time. `auto` picks the best encoder present in the local ffmpeg build; an
//! explicit choice is refused when that encoder is not available.

use vstd::prelude::*;

use crate::ladder::Rendition;
use crate::text::{
    chars_are, chars_of, contains_str, decimal, decimal_string, is_whitespace, is_ws, lines,
    owned, push_string, split_lines, string_of, string_of_range, strings, views,
};

verus! {

/// What the user asked for on the command line.
#[derive(Debug, Clone, Copy, PartialEq, Eq, Structural)]
pub enum HwAccel {
    /// Use the best hardware encoder present, else fall back to libx264.
    Auto,
    /// Force software libx264.
    Off,
    VideoToolbox,
    Nvenc,
    Qsv,
}

/// Why an encoder could not be chosen.
#[derive(Debug, Clone)]
pub enum EncoderError {
    /// The acceleration name is none of the accepted spellings; holds the
    /// name as it was matched (ASCII-lowercased).
    UnknownHwAccel(String),
    /// An explicitly requested encoder is not compiled into this ffmpeg;
    /// holds the encoder's ffmpeg name.
    Unavailable(&'static str),
}

/// `c` with ASCII upper-case letters mapped to lower case.
pub open spec fn ascii_lower(c: char) -> char {
    if 'A' <= c && c <= 'Z' {
        ((c as int) + 32) as char
    } else {
        c
    }
}

/// `s` with ASCII upper-case letters mapped to lower case, as
/// `str::to_ascii_lowercase` does; other characters are unchanged.
pub open spec fn ascii_lowercase(s: Seq<char>) -> Seq<char> {
    s.map_values(|c: char| ascii_lower(c))
}

/// The acceleration that a (lower-case) name stands for, with its aliases.
pub open spec fn hwaccel_named(name: Seq<char>) -> Option<HwAccel> {
    if name == "auto"@ {
        Some(HwAccel::Auto)
    } else if name == "off"@ || name == "none"@ || name == "software"@ || name == "cpu"@ || name
        == "x264"@ {
        Some(HwAccel::Off)
    } else if name == "videotoolbox"@ || name == "vt"@ || name == "apple"@ {
        Some(HwAccel::VideoToolbox)
    } else if name == "nvenc"@ || name == "nvidia"@ || name == "cuda"@ {
        Some(HwAccel::Nvenc)
    } else if name == "qsv"@ || name == "intel"@ || name == "quicksync"@ {
        Some(HwAccel::Qsv)
    } else {
        None
    }
}

fn ascii_lowercase_chars(s: &str) -> (v: Vec<char>)
    ensures
        v@ == ascii_lowercase(s@),
{
    let src = chars_of(s);
    let mut v: Vec<char> = Vec::new();
    let mut i: usize = 0;
    while i < src.len()
        invariant
            src@ == s@,
            i <= src.len(),
            v@ =~= ascii_lowercase(s@).take(i as int),
        decreases src.len() - i,
    {
        let c = src[i];
        let l = if 'A' <= c && c <= 'Z' {
            ((c as u32) + 32) as u8 as char
        } else {
            c
        };
        assert(l == ascii_lower(c)) by {
            if 'A' <= c && c <= 'Z' {
                assert((c as u32) + 32 < 256);
            }
        }
        v.push(l);
        i = i + 1;
    }
    v
}

impl HwAccel {
    /// Parse an acceleration name, ignoring ASCII case, with a few friendly
    /// aliases.
    pub fn parse(s: &str) -> (res: Result<HwAccel, EncoderError>)
        ensures
            match res {
                Ok(h) => hwaccel_named(ascii_lowercase(s@)) == Some(h),
                Err(e) => hwaccel_named(ascii_lowercase(s@)) is None && (e matches EncoderError::UnknownHwAccel(name) && name@ == ascii_lowercase(s@)),
            },
    {
        let n = ascii_lowercase_chars(s);
        if chars_are(&n, "auto") {
            Ok(HwAccel::Auto)
        } else if chars_are(&n, "off") || chars_are(&n, "none") || chars_are(&n, "software")
            || chars_are(&n, "cpu") || chars_are(&n, "x264") {
            Ok(HwAccel::Off)
        } else if chars_are(&n, "videotoolbox") || chars_are(&n, "vt") || chars_are(&n, "apple") {
            Ok(HwAccel::VideoToolbox)
        } else if chars_are(&n, "nvenc") || chars_are(&n, "nvidia") || chars_are(&n, "cuda") {
            Ok(HwAccel::Nvenc)
        } else if chars_are(&n, "qsv") || chars_are(&n, "intel") || chars_are(&n, "quicksync") {
            Ok(HwAccel::Qsv)
        } else {
            Err(EncoderError::UnknownHwAccel(string_of(&n)))
        }
    }
}

/// Per-family behavior: each encoder expresses rate control and keyframe
/// control a little differently.
#[derive(Debug, Clone, Copy, PartialEq, Eq, Structural)]
pub enum Family {
    X264,
    VideoToolbox,
    Nvenc,
    Qsv,
}

/// The ffmpeg `-c:v` value of a family.
pub open spec fn codec_name(f: Family) -> Seq<char> {
    match f {
        Family::X264 => "libx264"@,
        Family::VideoToolbox => "h264_videotoolbox"@,
        Family::Nvenc => "h264_nvenc"@,
        Family::Qsv => "h264_qsv"@,
    }
}

/// The human label of a family, for the progress line.
pub open spec fn label_text(f: Family) -> Seq<char> {
    match f {
        Family::X264 => "libx264 (software)"@,
        Family::VideoToolbox => "VideoToolbox (hardware)"@,
        Family::Nvenc => "NVENC (hardware)"@,
        Family::Qsv => "QuickSync (hardware)"@,
    }
}

/// A resolved encoder, ready to emit ffmpeg arguments.
#[derive(Debug, Clone)]
pub struct Encoder {
    /// ffmpeg `-c:v` value, e.g. `"libx264"` or `"h264_videotoolbox"`.
    pub codec: &'static str,
    /// Human label for the progress line, e.g. `"VideoToolbox (hardware)"`.
    pub label: &'static str,
    /// How rate control and keyframes are expressed.
    pub family: Family,
}

/// `n` followed by `k`, the kbit/s notation of ffmpeg.
pub open spec fn kbps_text(n: nat) -> Seq<char> {
    decimal(n) + "k"@
}

/// The rate-control request, the same for every family: an average target,
/// a peak cap and a VBV buffer.
pub open spec fn rate_control(r: Rendition) -> Seq<Seq<char>> {
    seq![
        "-b:v"@,
        kbps_text(r.v_kbps as nat),
        "-maxrate"@,
        kbps_text(r.maxrate_kbps as nat),
        "-bufsize"@,
        kbps_text(r.bufsize_kbps as nat),
    ]
}

/// The `-c:v ... <rate control> <keyframes>` arguments of one rendition.
/// libx264 gets the preset, a fixed GOP and no scene-cut keyframes, so that
/// keyframes align with segments; hardware families get rate control and a
/// forced GOP only.
pub open spec fn video_args_for(
    codec: Seq<char>,
    family: Family,
    r: Rendition,
    gop: nat,
    preset: Seq<char>,
) -> Seq<Seq<char>> {
    let head = seq!["-c:v"@, codec, "-pix_fmt"@, "yuv420p"@];
    match family {
        Family::X264 => head + seq!["-preset"@, preset] + rate_control(r) + seq![
            "-g"@,
            decimal(gop),
            "-keyint_min"@,
            decimal(gop),
            "-sc_threshold"@,
            "0"@,
        ],
        _ => head + rate_control(r) + seq!["-g"@, decimal(gop)],
    }
}

pub proof fn lemma_decimal_starts_with_digit(n: nat)
    ensures
        decimal(n).len() >= 1,
        '0' <= decimal(n)[0] <= '9',
    decreases n,
{
    if n >= 10 {
        lemma_decimal_starts_with_digit(n / 10);
    }
}

impl Encoder {
    /// Whether this is the encoder of family `f`.
    pub open spec fn is_family(&self, f: Family) -> bool {
        &&& self.family == f
        &&& self.codec@ == codec_name(f)
        &&& self.label@ == label_text(f)
    }

    pub fn x264() -> (e: Encoder)
        ensures
            e.is_family(Family::X264),
    {
        Encoder { codec: "libx264", label: "libx264 (software)", family: Family::X264 }
    }

    pub fn videotoolbox() -> (e: Encoder)
        ensures
            e.is_family(Family::VideoToolbox),
    {
        Encoder {
            codec: "h264_videotoolbox",
            label: "VideoToolbox (hardware)",
            family: Family::VideoToolbox,
        }
    }

    pub fn nvenc() -> (e: Encoder)
        ensures
            e.is_family(Family::Nvenc),
    {
        Encoder { codec: "h264_nvenc", label: "NVENC (hardware)", family: Family::Nvenc }
    }

    pub fn qsv() -> (e: Encoder)
        ensures
            e.is_family(Family::Qsv),
    {
        Encoder { codec: "h264_qsv", label: "QuickSync (hardware)", family: Family::Qsv }
    }

    /// The full `-c:v ... <rate control> <keyframes>` argument list for one
    /// rendition. `preset` is only consulted by libx264; hardware encoders
    /// ignore it.
    pub fn video_args(&self, r: &Rendition, gop: u32, preset: &str) -> (args: Vec<String>)
        ensures
            strings(args@) == video_args_for(self.codec@, self.family, *r, gop as nat, preset@),
            // libx264-only flags never reach a hardware encode
            self.family != Family::X264 && self.is_family(self.family) ==> forall|i: int|
                0 <= i < args.len() ==> #[trigger] strings(args@)[i] != "-preset"@
                    && strings(args@)[i] != "-sc_threshold"@,
            // every family requests the rung's codec first
            args.len() >= 2 && strings(args@)[0] == "-c:v"@ && strings(args@)[1] == self.codec@,
            // every family makes the same rate-control request: the rung's
            // average target, peak cap and VBV buffer, in kbit/s
            exists|i: int|
                0 <= i && i + 5 < args.len() && #[trigger] strings(args@)[i] == "-b:v"@
                    && strings(args@)[i + 1] == decimal(r.v_kbps as nat) + "k"@ && strings(
                    args@,
                )[i + 2] == "-maxrate"@ && strings(args@)[i + 3] == decimal(
                    r.maxrate_kbps as nat,
                ) + "k"@ && strings(args@)[i + 4] == "-bufsize"@ && strings(args@)[i + 5]
                    == decimal(r.bufsize_kbps as nat) + "k"@,
            // every family forces a GOP of `gop` frames
            exists|i: int|
                0 <= i && i + 1 < args.len() && #[trigger] strings(args@)[i] == "-g"@ && strings(
                    args@,
                )[i + 1] == decimal(gop as nat),
            // in a hardware encode, each rate flag is followed by the rung's value
            self.family != Family::X264 && self.is_family(self.family) ==> forall|i: int|
                0 <= i && i + 1 < args.len() ==> {
                    &&& #[trigger] strings(args@)[i] == "-b:v"@ ==> strings(args@)[i + 1]
                        == decimal(r.v_kbps as nat) + "k"@
                    &&& strings(args@)[i] == "-maxrate"@ ==> strings(args@)[i + 1] == decimal(
                        r.maxrate_kbps as nat,
                    ) + "k"@
                    &&& strings(args@)[i] == "-bufsize"@ ==> strings(args@)[i + 1] == decimal(
                        r.bufsize_kbps as nat,
                    ) + "k"@
                },
    {
        let mut args: Vec<String> = Vec::new();
        push_string(&mut args, owned("-c:v"));
        push_string(&mut args, owned(self.codec));
        push_string(&mut args, owned("-pix_fmt"));
        push_string(&mut args, owned("yuv420p"));
        match self.family {
            Family::X264 => {
                push_string(&mut args, owned("-preset"));
                push_string(&mut args, owned(preset));
                push_rate_control(&mut args, r);
                // Fixed GOP, no scene-cut keyframes: segment-aligned keyframes.
                push_string(&mut args, owned("-g"));
                push_string(&mut args, decimal_string(gop as u64));
                push_string(&mut args, owned("-keyint_min"));
                push_string(&mut args, decimal_string(gop as u64));
                push_string(&mut args, owned("-sc_threshold"));
                push_string(&mut args, owned("0"));
            },
            // Hardware families: keep to the widely supported common set (a
            // forced GOP for clean segment boundaries).
            Family::VideoToolbox | Family::Nvenc | Family::Qsv => {
                push_rate_control(&mut args, r);
                push_string(&mut args, owned("-g"));
                push_string(&mut args, decimal_string(gop as u64));
            },
        }
        assert(strings(args@) =~= video_args_for(
            self.codec@,
            self.family,
            *r,
            gop as nat,
            preset@,
        ));
        proof {
            let a = strings(args@);
            if self.family != Family::X264 && self.is_family(self.family) {
                lemma_hardware_args_skip_x264_flags(self.family, *r, gop as nat, preset@);
                lemma_hardware_rate_flags(self.family, *r, gop as nat, preset@);
                assert(a[4] == "-b:v"@);
                assert(a[10] == "-g"@);
            } else if self.family == Family::X264 {
                assert(a[6] == "-b:v"@);
                assert(a[12] == "-g"@);
            } else {
                assert(a[4] == "-b:v"@);
                assert(a[10] == "-g"@);
            }
        }
        args
    }
}

fn kbps_string(n: u32) -> (s: String)
    ensures
        s@ == kbps_text(n as nat),
{
    let mut s = decimal_string(n as u64);
    s.append("k");
    s
}

fn push_rate_control(args: &mut Vec<String>, r: &Rendition)
    ensures
        strings(final(args)@) == strings(old(args)@) + rate_control(*r),
{
    push_string(args, owned("-b:v"));
    push_string(args, kbps_string(r.v_kbps));
    push_string(args, owned("-maxrate"));
    push_string(args, kbps_string(r.maxrate_kbps));
    push_string(args, owned("-bufsize"));
    push_string(args, kbps_string(r.bufsize_kbps));
    assert(strings(args@) =~= strings(old(args)@) + rate_control(*r));
}

/// In a hardware encode, `-b:v`, `-maxrate` and `-bufsize` each occur once,
/// followed by the rung's average target, peak cap and VBV buffer.
pub proof fn lemma_hardware_rate_flags(f: Family, r: Rendition, gop: nat, preset: Seq<char>)
    requires
        f != Family::X264,
    ensures
        ({
            let a = video_args_for(codec_name(f), f, r, gop, preset);
            forall|i: int|
                0 <= i && i + 1 < a.len() ==> {
                    &&& #[trigger] a[i] == "-b:v"@ ==> a[i + 1] == decimal(r.v_kbps as nat)
                        + "k"@
                    &&& a[i] == "-maxrate"@ ==> a[i + 1] == decimal(r.maxrate_kbps as nat)
                        + "k"@
                    &&& a[i] == "-bufsize"@ ==> a[i + 1] == decimal(r.bufsize_kbps as nat)
                        + "k"@
                }
        }),
{
    reveal_strlit("-c:v");
    reveal_strlit("-pix_fmt");
    reveal_strlit("yuv420p");
    reveal_strlit("-b:v");
    reveal_strlit("-maxrate");
    reveal_strlit("-bufsize");
    reveal_strlit("-g");
    reveal_strlit("h264_videotoolbox");
    reveal_strlit("h264_nvenc");
    reveal_strlit("h264_qsv");
    reveal_strlit("k");
    lemma_decimal_starts_with_digit(r.v_kbps as nat);
    lemma_decimal_starts_with_digit(r.maxrate_kbps as nat);
    lemma_decimal_starts_with_digit(r.bufsize_kbps as nat);
    lemma_decimal_starts_with_digit(gop);
    let a = video_args_for(codec_name(f), f, r, gop, preset);
    assert(a =~= seq!["-c:v"@, codec_name(f), "-pix_fmt"@, "yuv420p"@] + seq![
        "-b:v"@,
        decimal(r.v_kbps as nat) + "k"@,
        "-maxrate"@,
        decimal(r.maxrate_kbps as nat) + "k"@,
        "-bufsize"@,
        decimal(r.bufsize_kbps as nat) + "k"@,
    ] + seq!["-g"@, decimal(gop)]);
    assert(a.len() == 12);
    assert forall|i: int| 0 <= i && i + 1 < a.len() implies {
        &&& #[trigger] a[i] == "-b:v"@ ==> a[i + 1] == decimal(r.v_kbps as nat) + "k"@
        &&& a[i] == "-maxrate"@ ==> a[i + 1] == decimal(r.maxrate_kbps as nat) + "k"@
        &&& a[i] == "-bufsize"@ ==> a[i + 1] == decimal(r.bufsize_kbps as nat) + "k"@
    } by {
        if i == 5 || i == 7 || i == 9 {
            assert(a[i][0] != '-');
            assert("-b:v"@[0] == '-' && "-maxrate"@[0] == '-' && "-bufsize"@[0] == '-');
            assert(a[i] != "-b:v"@ && a[i] != "-maxrate"@ && a[i] != "-bufsize"@);
        } else if i == 1 {
            assert(a[i][0] == 'h');
            assert(a[i] != "-b:v"@ && a[i] != "-maxrate"@ && a[i] != "-bufsize"@);
        } else if i == 4 {
            assert(a[i].len() == 4);
            assert(a[i] != "-maxrate"@ && a[i] != "-bufsize"@);
            assert(a[i + 1] == decimal(r.v_kbps as nat) + "k"@);
        } else if i == 6 {
            assert(a[i][1] == 'm');
            assert(a[i].len() == 8);
            assert(a[i] != "-bufsize"@ && a[i] != "-b:v"@);
        } else if i == 8 {
            assert(a[i][1] == 'b');
            assert(a[i].len() == 8);
            assert(a[i] != "-maxrate"@ && a[i] != "-b:v"@);
        } else if i == 0 {
            assert(a[i][1] == 'c');
            assert(a[i] != "-b:v"@ && a[i] != "-maxrate"@ && a[i] != "-bufsize"@);
        } else if i == 2 {
            assert(a[i][1] == 'p');
            assert(a[i] != "-b:v"@ && a[i] != "-maxrate"@ && a[i] != "-bufsize"@);
        } else if i == 3 {
            assert(a[i][0] == 'y');
            assert(a[i] != "-b:v"@ && a[i] != "-maxrate"@ && a[i] != "-bufsize"@);
        } else if i == 10 {
            assert(a[i].len() == 2);
            assert(a[i] != "-b:v"@ && a[i] != "-maxrate"@ && a[i] != "-bufsize"@);
        }
        assert(a[i] == "-b:v"@ ==> a[i + 1] == decimal(r.v_kbps as nat) + "k"@);
        assert(a[i] == "-maxrate"@ ==> a[i + 1] == decimal(r.maxrate_kbps as nat) + "k"@);
        assert(a[i] == "-bufsize"@ ==> a[i + 1] == decimal(r.bufsize_kbps as nat) + "k"@);
    }
}

/// A hardware encode carries neither `-preset` nor `-sc_threshold`.
pub proof fn lemma_hardware_args_skip_x264_flags(f: Family, r: Rendition, gop: nat, preset: Seq<char>)
    requires
        f != Family::X264,
    ensures
        forall|i: int|
            0 <= i < video_args_for(codec_name(f), f, r, gop, preset).len() ==> #[trigger] video_args_for(
                codec_name(f),
                f,
                r,
                gop,
                preset,
            )[i] != "-preset"@ && video_args_for(codec_name(f), f, r, gop, preset)[i]
                != "-sc_threshold"@,
{
    reveal_strlit("-preset");
    reveal_strlit("-sc_threshold");
    reveal_strlit("-c:v");
    reveal_strlit("-pix_fmt");
    reveal_strlit("yuv420p");
    reveal_strlit("-b:v");
    reveal_strlit("-maxrate");
    reveal_strlit("-bufsize");
    reveal_strlit("-g");
    reveal_strlit("h264_videotoolbox");
    reveal_strlit("h264_nvenc");
    reveal_strlit("h264_qsv");
    reveal_strlit("k");
    lemma_decimal_starts_with_digit(r.v_kbps as nat);
    lemma_decimal_starts_with_digit(r.maxrate_kbps as nat);
    lemma_decimal_starts_with_digit(r.bufsize_kbps as nat);
    lemma_decimal_starts_with_digit(gop);
    let a = video_args_for(codec_name(f), f, r, gop, preset);
    assert forall|i: int| 0 <= i < a.len() implies a[i] != "-preset"@ && a[i] != "-sc_threshold"@ by {
        if i == 5 || i == 7 || i == 9 {
            assert(a[i][0] != '-');
        } else if i == 11 {
            assert(a[i] == decimal(gop));
            assert(a[i][0] != '-');
        } else {
            assert(a[i][0] != '-' || a[i].len() != 7);
            assert(a[i][0] != '-' || a[i].len() != 13 || a[i][1] != 's');
        }
    }
}

/// The encoder that a request resolves to, given the encoder names that the
/// ffmpeg build offers: an explicit hardware request needs its encoder
/// (else the error names it); `auto` takes the first hardware encoder present
/// in the order VideoToolbox, NVENC, QuickSync, else libx264; `off` is
/// libx264.
pub open spec fn resolved(available: Seq<Seq<char>>, requested: HwAccel) -> Result<
    Family,
    Seq<char>,
> {
    match requested {
        HwAccel::Off => Ok(Family::X264),
        HwAccel::VideoToolbox => if available.contains(codec_name(Family::VideoToolbox)) {
            Ok(Family::VideoToolbox)
        } else {
            Err(codec_name(Family::VideoToolbox))
        },
        HwAccel::Nvenc => if available.contains(codec_name(Family::Nvenc)) {
            Ok(Family::Nvenc)
        } else {
            Err(codec_name(Family::Nvenc))
        },
        HwAccel::Qsv => if available.contains(codec_name(Family::Qsv)) {
            Ok(Family::Qsv)
        } else {
            Err(codec_name(Family::Qsv))
        },
        HwAccel::Auto => Ok(
            if available.contains(codec_name(Family::VideoToolbox)) {
                Family::VideoToolbox
            } else if available.contains(codec_name(Family::Nvenc)) {
                Family::Nvenc
            } else if available.contains(codec_name(Family::Qsv)) {
                Family::Qsv
            } else {
                Family::X264
            },
        ),
    }
}

/// Resolve the requested acceleration against the encoder names that this
/// ffmpeg build offers. An explicit request fails clearly when its encoder
/// is not compiled in, rather than silently producing software output.
pub fn resolve(available: &Vec<String>, requested: HwAccel) -> (res: Result<Encoder, EncoderError>)
    ensures
        match resolved(strings(available@), requested) {
            Ok(f) => res matches Ok(e) && e.is_family(f),
            Err(name) => res matches Err(EncoderError::Unavailable(n)) && n@ == name,
        },
        // auto follows the priority VideoToolbox > NVENC > QuickSync > libx264
        // over the names offered, whatever their order
        requested == HwAccel::Auto ==> (res matches Ok(e) && e.family == (if strings(
            available@,
        ).contains("h264_videotoolbox"@) {
            Family::VideoToolbox
        } else if strings(available@).contains("h264_nvenc"@) {
            Family::Nvenc
        } else if strings(available@).contains("h264_qsv"@) {
            Family::Qsv
        } else {
            Family::X264
        }) && e.codec@ == codec_name(e.family)),
        // off is always libx264
        requested == HwAccel::Off ==> (res matches Ok(e) && e.family == Family::X264 && e.codec@
            == "libx264"@),
        // an explicit hardware request succeeds exactly when its encoder is
        // offered, and then with that encoder
        requested == HwAccel::VideoToolbox ==> (res is Ok <==> strings(available@).contains(
            "h264_videotoolbox"@,
        )) && (res matches Ok(e) ==> e.family == Family::VideoToolbox && e.codec@
            == "h264_videotoolbox"@),
        requested == HwAccel::Nvenc ==> (res is Ok <==> strings(available@).contains(
            "h264_nvenc"@,
        )) && (res matches Ok(e) ==> e.family == Family::Nvenc && e.codec@ == "h264_nvenc"@),
        requested == HwAccel::Qsv ==> (res is Ok <==> strings(available@).contains("h264_qsv"@))
            && (res matches Ok(e) ==> e.family == Family::Qsv && e.codec@ == "h264_qsv"@),
{
    match requested {
        HwAccel::Off => Ok(Encoder::x264()),
        HwAccel::VideoToolbox => {
            if contains_str(available, "h264_videotoolbox") {
                Ok(Encoder::videotoolbox())
            } else {
                Err(EncoderError::Unavailable("h264_videotoolbox"))
            }
        },
        HwAccel::Nvenc => {
            if contains_str(available, "h264_nvenc") {
                Ok(Encoder::nvenc())
            } else {
                Err(EncoderError::Unavailable("h264_nvenc"))
            }
        },
        HwAccel::Qsv => {
            if contains_str(available, "h264_qsv") {
                Ok(Encoder::qsv())
            } else {
                Err(EncoderError::Unavailable("h264_qsv"))
            }
        },
        HwAccel::Auto => Ok(
            if contains_str(available, "h264_videotoolbox") {
                Encoder::videotoolbox()
            } else if contains_str(available, "h264_nvenc") {
                Encoder::nvenc()
            } else if contains_str(available, "h264_qsv") {
                Encoder::qsv()
            } else {
                Encoder::x264()
            },
        ),
    }
}

/// The family that an explicit hardware request names.
pub open spec fn requested_family(h: HwAccel) -> Family {
    match h {
        HwAccel::VideoToolbox => Family::VideoToolbox,
        HwAccel::Nvenc => Family::Nvenc,
        HwAccel::Qsv => Family::Qsv,
        _ => Family::X264,
    }
}

/// How requests resolve, whatever the ffmpeg build offers: `auto` always
/// succeeds, and with a hardware encoder whenever one is present; `off` is
/// always libx264; an explicit hardware request succeeds exactly when its
/// encoder is present, and then with that encoder, never a substitute.
pub proof fn lemma_resolve_laws(available: Seq<Seq<char>>, h: HwAccel)
    ensures
        resolved(available, HwAccel::Auto) is Ok,
        (available.contains(codec_name(Family::VideoToolbox)) || available.contains(
            codec_name(Family::Nvenc),
        ) || available.contains(codec_name(Family::Qsv))) ==> resolved(available, HwAccel::Auto)
            != Ok::<Family, Seq<char>>(Family::X264),
        resolved(available, HwAccel::Off) == Ok::<Family, Seq<char>>(Family::X264),
        h != HwAccel::Auto && h != HwAccel::Off ==> {
            &&& (resolved(available, h) is Ok <==> available.contains(
                codec_name(requested_family(h)),
            ))
            &&& resolved(available, h) is Ok ==> resolved(available, h) == Ok::<
                Family,
                Seq<char>,
            >(requested_family(h))
        },
{
}

/// Which encoder a request resolves to depends only on the set of names
/// offered: not on their order, nor on repetitions.
pub proof fn lemma_resolve_depends_on_names_only(
    a: Seq<Seq<char>>,
    b: Seq<Seq<char>>,
    requested: HwAccel,
)
    requires
        a.to_set() == b.to_set(),
    ensures
        resolved(a, requested) == resolved(b, requested),
{
    assert forall|n: Seq<char>| a.contains(n) == b.contains(n) by {
        assert(a.contains(n) == a.to_set().contains(n));
        assert(b.contains(n) == b.to_set().contains(n));
    }
}

/// Lower-casing is idempotent, so a name and its lower-case form parse
/// alike: `parse` ignores ASCII case.
pub proof fn lemma_parse_ignores_case(s: Seq<char>)
    ensures
        ascii_lowercase(ascii_lowercase(s)) == ascii_lowercase(s),
        hwaccel_named(ascii_lowercase(ascii_lowercase(s))) == hwaccel_named(ascii_lowercase(s)),
{
    assert(ascii_lowercase(ascii_lowercase(s)) =~= ascii_lowercase(s));
}

/// The text of an encoder error, as the command line reports it.
pub open spec fn error_text(e: EncoderError) -> Seq<char> {
    match e {
        EncoderError::UnknownHwAccel(name) => "unknown --hwaccel '"@ + name@
            + "' (expected: auto, off, videotoolbox, nvenc, qsv)"@,
        EncoderError::Unavailable(name) => "requested encoder '"@ + name@
            + "' is not available in this ffmpeg build (try `--hwaccel auto`, or a build with it enabled)"@,
    }
}

impl EncoderError {
    /// The message that reports this error.
    pub fn message(&self) -> (m: String)
        ensures
            m@ == error_text(*self),
    {
        match self {
            EncoderError::UnknownHwAccel(name) => {
                let mut m = owned("unknown --hwaccel '");
                m.append(name.as_str());
                m.append("' (expected: auto, off, videotoolbox, nvenc, qsv)");
                m
            },
            EncoderError::Unavailable(name) => {
                let mut m = owned("requested encoder '");
                m.append(name);
                m.append(
                    "' is not available in this ffmpeg build (try `--hwaccel auto`, or a build with it enabled)",
                );
                m
            },
        }
    }
}

/// The first index at or after `i` that does not hold whitespace (or the
/// end of `l`).
pub open spec fn skip_ws(l: Seq<char>, i: int) -> int
    decreases l.len() - i,
{
    if 0 <= i < l.len() && is_ws(l[i]) {
        skip_ws(l, i + 1)
    } else {
        i
    }
}

/// The first index at or after `i` that holds whitespace (or the end of `l`).
pub open spec fn word_end(l: Seq<char>, i: int) -> int
    decreases l.len() - i,
{
    if 0 <= i < l.len() && !is_ws(l[i]) {
        word_end(l, i + 1)
    } else {
        i
    }
}

/// The encoder name on one line of `ffmpeg -encoders`, if the line lists a
/// video encoder: such a line reads ` V....D h264_videotoolbox  VideoToolbox
/// H.264 ...`, its first whitespace-separated word being the capability
/// flags (at least two characters, the first `V`) and its second word the
/// name. Header and separator lines yield none.
pub open spec fn listed_name(l: Seq<char>) -> Option<Seq<char>> {
    let a = skip_ws(l, 0);
    let b = word_end(l, a);
    if a < b && b - a >= 2 && l[a] == 'V' {
        let c = skip_ws(l, b);
        let d = word_end(l, c);
        if c < d {
            Some(l.subrange(c, d))
        } else {
            None
        }
    } else {
        None
    }
}

/// The names listed on `ls`, in order.
pub open spec fn listed_names(ls: Seq<Seq<char>>) -> Seq<Seq<char>>
    decreases ls.len(),
{
    if ls.len() == 0 {
        seq![]
    } else {
        let rest = listed_names(ls.drop_last());
        match listed_name(ls.last()) {
            Some(n) => rest.push(n),
            None => rest,
        }
    }
}

fn skip_ws_exec(l: &Vec<char>, i: usize) -> (k: usize)
    requires
        i <= l.len(),
    ensures
        k == skip_ws(l@, i as int),
        i <= k <= l.len(),
{
    let mut k = i;
    while k < l.len() && is_whitespace(l[k])
        invariant
            i <= k <= l.len(),
            skip_ws(l@, k as int) == skip_ws(l@, i as int),
        decreases l.len() - k,
    {
        k = k + 1;
    }
    k
}

fn word_end_exec(l: &Vec<char>, i: usize) -> (k: usize)
    requires
        i <= l.len(),
    ensures
        k == word_end(l@, i as int),
        i <= k <= l.len(),
{
    let mut k = i;
    while k < l.len() && !is_whitespace(l[k])
        invariant
            i <= k <= l.len(),
            word_end(l@, k as int) == word_end(l@, i as int),
        decreases l.len() - k,
    {
        k = k + 1;
    }
    k
}

fn listed_name_exec(l: &Vec<char>) -> (n: Option<String>)
    ensures
        match listed_name(l@) {
            Some(s) => n matches Some(m) && m@ == s,
            None => n is None,
        },
{
    let a = skip_ws_exec(l, 0);
    let b = word_end_exec(l, a);
    if a < b && b - a >= 2 && l[a] == 'V' {
        let c = skip_ws_exec(l, b);
        let d = word_end_exec(l, c);
        if c < d {
            Some(string_of_range(l, c, d))
        } else {
            None
        }
    } else {
        None
    }
}

/// The video encoder names that an `ffmpeg -encoders` listing advertises,
/// in listing order.
pub fn encoder_names(listing: &str) -> (names: Vec<String>)
    ensures
        strings(names@) == listed_names(lines(listing@)),
{
    let text = chars_of(listing);
    let ls = split_lines(&text);
    let mut names: Vec<String> = Vec::new();
    let mut i: usize = 0;
    while i < ls.len()
        invariant
            i <= ls.len(),
            views(ls@) == lines(listing@),
            strings(names@) == listed_names(views(ls@).take(i as int)),
        decreases ls.len() - i,
    {
        let ghost vs = views(ls@);
        assert(vs.take(i + 1).drop_last() =~= vs.take(i as int));
        assert(vs.take(i + 1).last() == ls@[i as int]@);
        match listed_name_exec(&ls[i]) {
            Some(n) => push_string(&mut names, n),
            None => {},
        }
        i = i + 1;
    }
    assert(views(ls@).take(i as int) =~= views(ls@));
    names
}

} // verus!
