//! Planning the adaptive-bitrate (ABR) ladder.
//!
//! Given what the source is, decide which renditions to produce:
//! * emit every standard tier at or below the source height (never upscale);
//! * always keep at least the lowest tier so even a tiny source is playable;
//! * derive each rendition's width from the source aspect ratio, rounded to
//!   the nearest integer and then up to an even number, as H.264 requires.

use vstd::prelude::*;

use crate::media::MediaInfo;
use crate::text::owned;

verus! {

/// One rung of the ladder: a single output quality.
#[derive(Debug, Clone)]
pub struct Rendition {
    /// Label used for filenames and the playlist, e.g. `"720p"`.
    pub name: String,
    pub width: u32,
    pub height: u32,
    /// Target average video bitrate.
    pub v_kbps: u32,
    /// Peak (cap) video bitrate: bounds spikes for smooth ABR switching.
    pub maxrate_kbps: u32,
    /// VBV buffer size.
    pub bufsize_kbps: u32,
    /// Audio bitrate.
    pub a_kbps: u32,
}

/// The peak bandwidth advertised for a rung, in bits per second: video cap
/// plus audio, plus 15% for MPEG-TS packetization.
pub open spec fn bandwidth(r: Rendition) -> int {
    (r.maxrate_kbps + r.a_kbps) * 1000 * 115 / 100
}

/// Whether the bandwidth computation of `r` stays within `u32`.
pub open spec fn bandwidth_fits(r: Rendition) -> bool {
    (r.maxrate_kbps + r.a_kbps) * 1000 * 115 <= u32::MAX
}

impl Rendition {
    /// Peak bandwidth advertised to players in the master playlist (bits/sec).
    ///
    /// RFC 8216 wants the peak segment bitrate, which is more than the
    /// elementary-stream rates: MPEG-TS packetization adds roughly 10-15%
    /// overhead at these bitrates. Advertise video cap + audio + 15%.
    pub fn bandwidth_bps(&self) -> (bps: u32)
        requires
            bandwidth_fits(*self),
        ensures
            bps == bandwidth(*self),
    {
        (self.maxrate_kbps + self.a_kbps) * 1000 * 115 / 100
    }
}

/// Number of standard tiers.
pub open spec fn tier_count() -> int {
    7
}

/// Height of standard tier `i`, ascending.
pub open spec fn tier_height(i: int) -> u32 {
    if i == 0 {
        240
    } else if i == 1 {
        360
    } else if i == 2 {
        480
    } else if i == 3 {
        720
    } else if i == 4 {
        1080
    } else if i == 5 {
        1440
    } else {
        2160
    }
}

/// Target video bitrate of standard tier `i`, in kbit/s.
pub open spec fn tier_kbps(i: int) -> u32 {
    if i == 0 {
        400
    } else if i == 1 {
        800
    } else if i == 2 {
        1400
    } else if i == 3 {
        2800
    } else if i == 4 {
        5000
    } else if i == 5 {
        9000
    } else {
        18000
    }
}

/// Label of standard tier `i`.
pub open spec fn tier_label(i: int) -> Seq<char> {
    if i == 0 {
        "240p"@
    } else if i == 1 {
        "360p"@
    } else if i == 2 {
        "480p"@
    } else if i == 3 {
        "720p"@
    } else if i == 4 {
        "1080p"@
    } else if i == 5 {
        "1440p"@
    } else {
        "2160p"@
    }
}

fn tier(i: usize) -> (t: (&'static str, u32, u32))
    requires
        i < 7,
    ensures
        t.0@ == tier_label(i as int),
        t.1 == tier_height(i as int),
        t.2 == tier_kbps(i as int),
{
    if i == 0 {
        ("240p", 240, 400)
    } else if i == 1 {
        ("360p", 360, 800)
    } else if i == 2 {
        ("480p", 480, 1_400)
    } else if i == 3 {
        ("720p", 720, 2_800)
    } else if i == 4 {
        ("1080p", 1_080, 5_000)
    } else if i == 5 {
        ("1440p", 1_440, 9_000)
    } else {
        ("2160p", 2_160, 18_000)
    }
}

/// The height below which no tier is dropped: the source height, but at
/// least that of the lowest tier.
pub open spec fn height_floor(source_height: u32) -> u32 {
    if source_height >= 240 {
        source_height
    } else {
        240
    }
}

/// `a / b` rounded to the nearest integer, halves rounded up (`b > 0`).
pub open spec fn round_div(a: nat, b: nat) -> nat {
    ((2 * a + b) / (2 * b)) as nat
}

/// The width that keeps the source aspect ratio at `height`, rounded to the
/// nearest integer; 16:9 when the source height is unknown.
pub open spec fn scaled_width(src_w: u32, src_h: u32, height: u32) -> nat {
    if src_h > 0 {
        round_div((height * src_w) as nat, src_h as nat)
    } else {
        round_div((height * 16) as nat, 9)
    }
}

/// `x` rounded up to an even number, and at least 2.
pub open spec fn even_width(x: nat) -> nat {
    let e = if x % 2 == 0 {
        x
    } else {
        x + 1
    };
    if e < 2 {
        2
    } else {
        e
    }
}

/// The encoded width of a rung of `height` for a source of `src_w`x`src_h`.
pub open spec fn rung_width(src_w: u32, src_h: u32, height: u32) -> nat {
    even_width(scaled_width(src_w, src_h, height))
}

/// Whether the planned widths of `info`'s ladder fit in `u32` (beyond it,
/// the width computation overflows).
pub open spec fn plan_fits(info: MediaInfo) -> bool {
    forall|i: int|
        0 <= i < tier_count() && tier_height(i) <= height_floor(info.height) ==> scaled_width(
            info.width,
            info.height,
            tier_height(i),
        ) < u32::MAX
}

/// Whether `r` is tier `i` planned for `info`.
pub open spec fn is_rung(r: Rendition, info: MediaInfo, i: int) -> bool {
    &&& r.name@ == tier_label(i)
    &&& r.height == tier_height(i)
    &&& r.width == rung_width(info.width, info.height, tier_height(i))
    &&& r.v_kbps == tier_kbps(i)
    &&& r.maxrate_kbps == tier_kbps(i) * 107 / 100
    &&& r.bufsize_kbps == tier_kbps(i) * 3 / 2
    &&& r.a_kbps == 128
}

fn scaled_width_exec(info: &MediaInfo, height: u32) -> (w: u128)
    ensures
        w == scaled_width(info.width, info.height, height),
{
    if info.height > 0 {
        assert(height * info.width <= 0xffff_ffff * 0xffff_ffff) by (nonlinear_arith)
            requires
                height <= 0xffff_ffff,
                info.width <= 0xffff_ffff,
        ;
        let a: u128 = height as u128 * info.width as u128;
        let b: u128 = info.height as u128;
        (2 * a + b) / (2 * b)
    } else {
        (height as u128 * 32 + 9) / 18
    }
}

/// Whether `w` is the width of a rung of height `h` for an aspect ratio
/// `aw:ah`: even, at least 2, and the nearest integer `x` to `h * aw / ah`
/// (halves up) is `w` or `w - 1`, or `w` is 2 and `x` is smaller.
pub open spec fn rounds_to_even_width(w: int, h: int, aw: int, ah: int) -> bool {
    &&& w % 2 == 0
    &&& w >= 2
    &&& 2 * h * aw - ah < 2 * ah * w
    &&& (w == 2 || 2 * ah * (w - 1) <= 2 * h * aw + ah)
}

/// The widths that `plan` computes round as `rounds_to_even_width` says.
pub proof fn lemma_rung_width_rounds(src_w: u32, src_h: u32, height: u32)
    ensures
        rounds_to_even_width(
            rung_width(src_w, src_h, height) as int,
            height as int,
            if src_h > 0 { src_w as int } else { 16 },
            if src_h > 0 { src_h as int } else { 9 },
        ),
{
    let aw: int = if src_h > 0 { src_w as int } else { 16 };
    let ah: int = if src_h > 0 { src_h as int } else { 9 };
    let a: int = height * aw;
    let n: int = 2 * a + ah;
    let d: int = 2 * ah;
    assert(a >= 0) by (nonlinear_arith)
        requires
            a == height * aw,
            height >= 0,
            aw >= 0,
    ;
    let x: int = n / d;
    assert(scaled_width(src_w, src_h, height) == x);
    assert(d * x <= n < d * x + d) by (nonlinear_arith)
        requires
            d > 0,
            x == n / d,
    ;
    let w = rung_width(src_w, src_h, height) as int;
    assert(2 * height * aw == 2 * a) by (nonlinear_arith)
        requires
            a == height * aw,
    ;
    assert(2 * a - ah < 2 * ah * w) by (nonlinear_arith)
        requires
            n < d * x + d,
            n == 2 * a + ah,
            d == 2 * ah,
            w >= x,
            w >= 2,
            ah > 0,
            x >= 0,
            w == x || w == x + 1 || (w == 2 && x < 2),
    ;
    assert(w == 2 || 2 * ah * (w - 1) <= 2 * a + ah) by (nonlinear_arith)
        requires
            d * x <= n,
            n == 2 * a + ah,
            d == 2 * ah,
            ah > 0,
            w == x || w == x + 1 || (w == 2 && x < 2),
            w == x ==> x % 2 == 0 && x >= 2,
            w == x + 1 ==> x % 2 == 1,
    ;
}

proof fn lemma_fits_literal(info: MediaInfo)
    ensures
        plan_fits(info) == ({
            let m: int = if info.height >= 240 {
                info.height as int
            } else {
                240
            };
            let heights = seq![240int, 360, 480, 720, 1080, 1440, 2160];
            forall|i: int|
                0 <= i < 7 && #[trigger] heights[i] <= m ==> (if info.height > 0 {
                    (2 * heights[i] * info.width + info.height) / (2 * info.height as int)
                } else {
                    (32 * heights[i] + 9) / 18
                }) < u32::MAX
        }),
{
    let m: int = if info.height >= 240 {
        info.height as int
    } else {
        240
    };
    let heights = seq![240int, 360, 480, 720, 1080, 1440, 2160];
    assert forall|i: int| 0 <= i < 7 implies heights[i] == tier_height(i) && (if info.height
        > 0 {
        (2 * heights[i] * info.width + info.height) / (2 * info.height as int)
    } else {
        (32 * heights[i] + 9) / 18
    }) == scaled_width(info.width, info.height, tier_height(i)) by {
        assert(heights[i] == tier_height(i));
        assert(2 * heights[i] * info.width == 2 * (tier_height(i) * info.width)) by (nonlinear_arith)
            requires
                heights[i] == tier_height(i),
        ;
    }
    assert(m == height_floor(info.height));
    let lit = forall|i: int|
        0 <= i < 7 && #[trigger] heights[i] <= m ==> (if info.height > 0 {
            (2 * heights[i] * info.width + info.height) / (2 * info.height as int)
        } else {
            (32 * heights[i] + 9) / 18
        }) < u32::MAX;
    if plan_fits(info) {
        assert forall|i: int| 0 <= i < 7 && #[trigger] heights[i] <= m implies (if info.height
            > 0 {
            (2 * heights[i] * info.width + info.height) / (2 * info.height as int)
        } else {
            (32 * heights[i] + 9) / 18
        }) < u32::MAX by {
            assert(heights[i] == tier_height(i));
            assert(tier_height(i) <= height_floor(info.height));
        }
        assert(lit);
    }
    if lit {
        assert forall|i: int|
            0 <= i < tier_count() && tier_height(i) <= height_floor(info.height) implies scaled_width(
            info.width,
            info.height,
            tier_height(i),
        ) < u32::MAX by {
            assert(heights[i] == tier_height(i));
            assert(heights[i] <= m);
        }
        assert(plan_fits(info));
    }
}

/// Whether the widths of `info`'s ladder fit in `u32`, so that `plan`
/// accepts it.
pub fn widths_fit(info: &MediaInfo) -> (b: bool)
    ensures
        b == plan_fits(*info),
        // every standard tier at or below the source height (at least 240)
        // has a rounded width below u32::MAX
        b == ({
            let m: int = if info.height >= 240 {
                info.height as int
            } else {
                240
            };
            let heights = seq![240int, 360, 480, 720, 1080, 1440, 2160];
            forall|i: int|
                0 <= i < 7 && #[trigger] heights[i] <= m ==> (if info.height > 0 {
                    (2 * heights[i] * info.width + info.height) / (2 * info.height as int)
                } else {
                    (32 * heights[i] + 9) / 18
                }) < u32::MAX
        }),
{
    let source_height = if info.height >= 240 {
        info.height
    } else {
        240
    };
    let mut i: usize = 0;
    while i < 7
        invariant
            i <= 7,
            source_height == height_floor(info.height),
            forall|k: int|
                0 <= k < i && tier_height(k) <= source_height ==> scaled_width(
                    info.width,
                    info.height,
                    tier_height(k),
                ) < u32::MAX,
        decreases 7 - i,
    {
        let (_, height, _) = tier(i);
        if height <= source_height {
            let rounded = scaled_width_exec(info, height);
            if rounded >= 0xffff_ffff {
                proof {
                    lemma_fits_literal(*info);
                }
                return false;
            }
        }
        i = i + 1;
    }
    proof {
        lemma_fits_literal(*info);
    }
    true
}

/// Width that preserves the source aspect ratio at `height`, as ffmpeg's
/// `scale=-2:H` computes it (round to nearest, then align up to even), so the
/// playlist's `RESOLUTION` tag equals the encoded size. Falls back to 16:9
/// when the source dimensions are unknown.
fn width_for(info: &MediaInfo, height: u32) -> (w: u32)
    requires
        scaled_width(info.width, info.height, height) < u32::MAX,
    ensures
        w == rung_width(info.width, info.height, height),
{
    let rounded = scaled_width_exec(info, height);
    let r = rounded as u32;
    let even = if r % 2 == 0 {
        r
    } else {
        r + 1
    };
    if even < 2 {
        2
    } else {
        even
    }
}

/// Build the ladder for a source.
pub fn plan(info: &MediaInfo) -> (ladder: Vec<Rendition>)
    requires
        plan_fits(*info),
    ensures
        ladder.len() <= tier_count(),
        forall|i: int|
            0 <= i < tier_count() ==> (i < ladder.len() <==> tier_height(i) <= height_floor(
                info.height,
            )),
        forall|k: int| 0 <= k < ladder.len() ==> is_rung(#[trigger] ladder@[k], *info, k),
        // never upscales beyond the lowest tier
        forall|k: int|
            0 <= k < ladder.len() ==> #[trigger] ladder@[k].height <= height_floor(info.height),
        // even a tiny source yields a rung
        ladder.len() >= 1,
        // widths are even, as H.264 requires
        forall|k: int|
            0 <= k < ladder.len() ==> #[trigger] ladder@[k].width % 2 == 0 && ladder@[k].width
                >= 2,
        // lowest rung first
        forall|j: int, k: int|
            0 <= j < k < ladder.len() ==> ladder@[j].height < ladder@[k].height,
        // every rung's advertised bandwidth is computable
        forall|k: int| 0 <= k < ladder.len() ==> bandwidth_fits(#[trigger] ladder@[k]),
        // exactly the standard tiers at or below the source height (at least
        // 240) are emitted, lowest first, with their labels and bitrates
        ({
            let m: int = if info.height >= 240 {
                info.height as int
            } else {
                240
            };
            let heights = seq![240int, 360, 480, 720, 1080, 1440, 2160];
            let kbps = seq![400int, 800, 1400, 2800, 5000, 9000, 18000];
            let names = seq!["240p"@, "360p"@, "480p"@, "720p"@, "1080p"@, "1440p"@, "2160p"@];
            &&& forall|i: int| 0 <= i < 7 ==> (i < ladder.len() <==> #[trigger] heights[i] <= m)
            &&& forall|k: int|
                0 <= k < ladder.len() ==> {
                    &&& #[trigger] ladder@[k].height == heights[k]
                    &&& ladder@[k].name@ == names[k]
                    &&& ladder@[k].v_kbps == kbps[k]
                    &&& ladder@[k].maxrate_kbps == kbps[k] * 107 / 100
                    &&& ladder@[k].bufsize_kbps == kbps[k] * 3 / 2
                    &&& ladder@[k].a_kbps == 128
                }
        }),
        // each width is the source aspect ratio's width at the rung's height
        // (16:9 when the source height is unknown), rounded to the nearest
        // integer (halves up), then up to an even number, at least 2
        forall|k: int|
            0 <= k < ladder.len() ==> rounds_to_even_width(
                #[trigger] ladder@[k].width as int,
                ladder@[k].height as int,
                if info.height > 0 { info.width as int } else { 16 },
                if info.height > 0 { info.height as int } else { 9 },
            ),
{
    let source_height = if info.height >= 240 {
        info.height
    } else {
        240
    };
    let mut ladder: Vec<Rendition> = Vec::new();
    let mut i: usize = 0;
    while i < 7
        invariant
            i <= 7,
            source_height == height_floor(info.height),
            plan_fits(*info),
            ladder.len() <= i,
            forall|k: int| 0 <= k < i ==> (k < ladder.len() <==> tier_height(k) <= source_height),
            forall|k: int| 0 <= k < ladder.len() ==> is_rung(#[trigger] ladder@[k], *info, k),
        decreases 7 - i,
    {
        let (name, height, v_kbps) = tier(i);
        if height <= source_height {
            assert(forall|k: int| 0 <= k < i ==> tier_height(k) < tier_height(i as int));
            if i > 0 {
                let ghost j: int = i - 1;
                assert(tier_height(j) <= source_height);
                assert(j < ladder.len());
            }
            assert(ladder.len() == i);
            let r = Rendition {
                name: owned(name),
                width: width_for(info, height),
                height,
                v_kbps,
                // ~7% headroom over the average for the peak cap.
                maxrate_kbps: v_kbps * 107 / 100,
                // 1.5x the target is a common, safe VBV buffer.
                bufsize_kbps: v_kbps * 3 / 2,
                a_kbps: 128,
            };
            ladder.push(r);
        }
        i = i + 1;
    }
    assert(tier_height(0) <= source_height);
    proof {
        let heights = seq![240int, 360, 480, 720, 1080, 1440, 2160];
        let kbps = seq![400int, 800, 1400, 2800, 5000, 9000, 18000];
        let names = seq!["240p"@, "360p"@, "480p"@, "720p"@, "1080p"@, "1440p"@, "2160p"@];
        let m: int = if info.height >= 240 {
            info.height as int
        } else {
            240
        };
        assert(m == height_floor(info.height));
        assert forall|i: int| 0 <= i < 7 implies heights[i] == tier_height(i) && kbps[i]
            == tier_kbps(i) && names[i] == tier_label(i) by {}
        assert forall|i: int| 0 <= i < 7 implies (i < ladder.len() <==> #[trigger] heights[i]
            <= m) by {
            assert(heights[i] == tier_height(i));
        }
        assert forall|k: int| 0 <= k < ladder.len() implies {
            &&& #[trigger] ladder@[k].height == heights[k]
            &&& ladder@[k].name@ == names[k]
            &&& ladder@[k].v_kbps == kbps[k]
            &&& ladder@[k].maxrate_kbps == kbps[k] * 107 / 100
            &&& ladder@[k].bufsize_kbps == kbps[k] * 3 / 2
            &&& ladder@[k].a_kbps == 128
        } by {
            assert(is_rung(ladder@[k], *info, k));
            assert(heights[k] == tier_height(k) && kbps[k] == tier_kbps(k) && names[k]
                == tier_label(k));
        }
        assert forall|k: int| 0 <= k < ladder.len() implies rounds_to_even_width(
            #[trigger] ladder@[k].width as int,
            ladder@[k].height as int,
            if info.height > 0 { info.width as int } else { 16 },
            if info.height > 0 { info.height as int } else { 9 },
        ) by {
            assert(is_rung(ladder@[k], *info, k));
            lemma_rung_width_rounds(info.width, info.height, ladder@[k].height);
        }
    }
    ladder
}

} // verus!
