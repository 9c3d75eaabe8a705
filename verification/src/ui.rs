//! The lines of terminal output: a few ANSI styles, applied only when color
//! is enabled (the caller decides, honoring `NO_COLOR`), and the text of each
//! progress line.

use vstd::prelude::*;

use crate::encoder::Encoder;
use crate::ladder::Rendition;
use crate::media::{clock_text, MediaInfo};
use crate::text::{decimal, join, join_strings, owned, push_char, push_decimal, push_string, strings};

verus! {

/// `text` in ANSI style `code` when `color` holds, else `text` unchanged.
pub open spec fn painted(code: Seq<char>, text: Seq<char>, color: bool) -> Seq<char> {
    if color {
        "\x1b["@ + code + "m"@ + text + "\x1b[0m"@
    } else {
        text
    }
}

/// `text` in ANSI style `code` when `color` holds.
pub fn paint(code: &str, text: &str, color: bool) -> (s: String)
    ensures
        s@ == painted(code@, text@, color),
{
    if color {
        let mut s = owned("\x1b[");
        s.append(code);
        s.append("m");
        s.append(text);
        s.append("\x1b[0m");
        s
    } else {
        owned(text)
    }
}

pub fn bold(t: &str, color: bool) -> (s: String)
    ensures
        s@ == painted("1"@, t@, color),
{
    paint("1", t, color)
}

pub fn red(t: &str, color: bool) -> (s: String)
    ensures
        s@ == painted("31"@, t@, color),
{
    paint("31", t, color)
}

pub fn dim(t: &str, color: bool) -> (s: String)
    ensures
        s@ == painted("2"@, t@, color),
{
    paint("2", t, color)
}

pub fn green(t: &str, color: bool) -> (s: String)
    ensures
        s@ == painted("32"@, t@, color),
{
    paint("32", t, color)
}

pub fn cyan(t: &str, color: bool) -> (s: String)
    ensures
        s@ == painted("36"@, t@, color),
{
    paint("36", t, color)
}

/// A fatal error, as it is printed to stderr.
pub fn error_line(msg: &str, color: bool) -> (s: String)
    ensures
        s@ == painted("31"@, "error:"@, color) + " "@ + msg@,
{
    let mut s = red("error:", color);
    s.append(" ");
    s.append(msg);
    s
}

/// The one-line product banner.
pub fn banner_line(color: bool) -> (s: String)
    ensures
        s@ == painted("1"@, "streamsmith"@, color) + " "@ + painted(
            "2"@,
            "· one command → a web-ready adaptive stream"@,
            color,
        ),
{
    let mut s = bold("streamsmith", color);
    s.append(" ");
    let tail = dim("· one command → a web-ready adaptive stream", color);
    s.append(tail.as_str());
    s
}

/// The start of every step line: a green check mark and the bold step name.
pub open spec fn step_head(step: Seq<char>, color: bool) -> Seq<char> {
    painted("32"@, "✓"@, color) + " "@ + painted("1"@, step, color) + "  "@
}

fn step_head_string(step: &str, color: bool) -> (s: String)
    ensures
        s@ == step_head(step@, color),
{
    let mut s = green("✓", color);
    s.append(" ");
    let b = bold(step, color);
    s.append(b.as_str());
    s.append("  ");
    s
}

/// The facts of the probed source: size, codec, frame rate (`fps_text`, as
/// rendered with no decimals) and duration.
pub open spec fn probe_facts(info: MediaInfo, fps_text: Seq<char>) -> Seq<char> {
    decimal(info.width as nat) + "×"@ + decimal(info.height as nat) + " · "@ + info.v_codec@
        + " · "@ + fps_text + " fps · "@ + clock_text(info.duration_secs as nat)
}

/// The line that reports the probed source.
pub fn probe_line(info: &MediaInfo, fps_text: &str, color: bool) -> (s: String)
    ensures
        s@ == step_head("probed"@, color) + painted("2"@, probe_facts(*info, fps_text@), color),
{
    let mut facts = String::new();
    push_decimal(&mut facts, info.width as u64);
    facts.append("×");
    push_decimal(&mut facts, info.height as u64);
    facts.append(" · ");
    facts.append(info.v_codec.as_str());
    facts.append(" · ");
    facts.append(fps_text);
    facts.append(" fps · ");
    let d = info.pretty_duration();
    facts.append(d.as_str());
    assert(facts@ =~= probe_facts(*info, fps_text@));
    let mut s = step_head_string("probed", color);
    let tail = dim(facts.as_str(), color);
    s.append(tail.as_str());
    s
}

/// The names of the rungs of a ladder, in order.
pub open spec fn rung_names(ladder: Seq<Rendition>) -> Seq<Seq<char>> {
    ladder.map_values(|r: Rendition| r.name@)
}

/// The line that reports the planned ladder: the rung names, two spaces apart.
pub fn ladder_line(ladder: &[Rendition], color: bool) -> (s: String)
    ensures
        s@ == step_head("ladder"@, color) + painted("36"@, join(rung_names(ladder@), "  "@), color),
{
    let mut names: Vec<String> = Vec::new();
    let mut i: usize = 0;
    while i < ladder.len()
        invariant
            i <= ladder@.len(),
            strings(names@) =~= rung_names(ladder@).take(i as int),
        decreases ladder@.len() - i,
    {
        push_string(&mut names, ladder[i].name.clone());
        assert(rung_names(ladder@).take(i + 1) =~= rung_names(ladder@).take(i as int).push(
            ladder@[i as int].name@,
        ));
        i = i + 1;
    }
    assert(rung_names(ladder@).take(i as int) =~= rung_names(ladder@));
    let joined = join_strings(&names, "  ");
    let mut s = step_head_string("ladder", color);
    let tail = cyan(joined.as_str(), color);
    s.append(tail.as_str());
    s
}

/// The line that reports the resolved video encoder.
pub fn encoder_line(encoder: &Encoder, color: bool) -> (s: String)
    ensures
        s@ == step_head("encoder"@, color) + painted("36"@, encoder.label@, color),
{
    let mut s = step_head_string("encoder", color);
    let tail = cyan(encoder.label, color);
    s.append(tail.as_str());
    s
}

/// The line that reports a rendition starting to encode.
pub fn encode_start_line(r: &Rendition, color: bool) -> (s: String)
    ensures
        s@ == painted("2"@, "→"@, color) + " "@ + painted("2"@, "encoding"@, color) + " "@
            + painted("2"@, r.name@, color),
{
    let mut s = dim("→", color);
    s.append(" ");
    let a = dim("encoding", color);
    s.append(a.as_str());
    s.append(" ");
    let b = dim(r.name.as_str(), color);
    s.append(b.as_str());
    s
}

/// `s` padded with spaces on the right to at least `width` characters
/// (`{:<width}`).
pub open spec fn pad_right(s: Seq<char>, width: nat) -> Seq<char> {
    if s.len() >= width {
        s
    } else {
        s + Seq::new((width - s.len()) as nat, |i: int| ' ')
    }
}

/// The facts of a finished rung: size, bitrate and the encode's wall-clock
/// seconds (`secs_text`, as rendered with one decimal).
pub open spec fn rung_facts(r: Rendition, secs_text: Seq<char>) -> Seq<char> {
    decimal(r.width as nat) + "×"@ + decimal(r.height as nat) + " · "@ + decimal(
        r.v_kbps as nat,
    ) + " kb/s · "@ + secs_text + "s"@
}

/// The line that reports a rendition finished encoding.
pub fn encode_done_line(r: &Rendition, secs_text: &str, color: bool) -> (s: String)
    ensures
        s@ == painted("32"@, "✓"@, color) + "   "@ + pad_right(painted("1"@, r.name@, color), 6)
            + " "@ + painted("2"@, rung_facts(*r, secs_text@), color),
{
    let mut s = green("✓", color);
    s.append("   ");
    let name = bold(r.name.as_str(), color);
    s.append(name.as_str());
    let n = name.as_str().unicode_len();
    let ghost before = s@;
    let mut k = n;
    while k < 6
        invariant
            n == name@.len(),
            n <= k <= 6 || (n > 6 && k == n),
            s@ =~= before + Seq::new((k - n) as nat, |i: int| ' '),
        decreases 6 - k,
    {
        push_char(&mut s, ' ');
        k = k + 1;
    }
    assert(s@ =~= painted("32"@, "✓"@, color) + "   "@ + pad_right(name@, 6));
    s.append(" ");
    let mut facts = String::new();
    push_decimal(&mut facts, r.width as u64);
    facts.append("×");
    push_decimal(&mut facts, r.height as u64);
    facts.append(" · ");
    push_decimal(&mut facts, r.v_kbps as u64);
    facts.append(" kb/s · ");
    facts.append(secs_text);
    facts.append("s");
    assert(facts@ =~= rung_facts(*r, secs_text@));
    let tail = dim(facts.as_str(), color);
    s.append(tail.as_str());
    s
}

/// The line that reports where the finished bundle was written.
pub fn packaged_line(out_dir: &str, master: &str, color: bool) -> (s: String)
    ensures
        s@ == step_head("packaged"@, color) + painted(
            "2"@,
            out_dir@ + "/  (play "@ + master@ + ")"@,
            color,
        ),
{
    let mut facts = owned(out_dir);
    facts.append("/  (play ");
    facts.append(master);
    facts.append(")");
    let mut s = step_head_string("packaged", color);
    let tail = dim(facts.as_str(), color);
    s.append(tail.as_str());
    s
}

/// The lines that announce the preview server, after an empty line: the
/// URL, then how to stop.
pub fn serving_lines(url: &str, color: bool) -> (lines: Vec<String>)
    ensures
        strings(lines@) == seq![
            "  "@ + painted("1"@, "▶ preview"@, color) + " "@ + painted("36"@, url@, color),
            "  "@ + painted("2"@, "press Ctrl-C to stop"@, color),
        ],
{
    let mut first = owned("  ");
    let a = bold("▶ preview", color);
    first.append(a.as_str());
    first.append(" ");
    let b = cyan(url, color);
    first.append(b.as_str());
    let mut second = owned("  ");
    let c = dim("press Ctrl-C to stop", color);
    second.append(c.as_str());
    let mut lines: Vec<String> = Vec::new();
    push_string(&mut lines, first);
    push_string(&mut lines, second);
    assert(strings(lines@) =~= seq![
        "  "@ + painted("1"@, "▶ preview"@, color) + " "@ + painted("36"@, url@, color),
        "  "@ + painted("2"@, "press Ctrl-C to stop"@, color),
    ]);
    lines
}

} // verus!
