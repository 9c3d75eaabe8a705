//! The normalized facts about a source asset that the planner and the
//! progress output need.

use vstd::prelude::*;

use crate::text::{decimal, digit, push_char, push_decimal};

verus! {

/// What streamsmith knows about its input. Every field is a plain value:
/// the duration is held in whole seconds, as it is shown.
#[derive(Debug, Clone)]
pub struct MediaInfo {
    /// Source width in pixels (`0` if there is no video stream).
    pub width: u32,
    /// Source height in pixels (`0` if there is no video stream).
    pub height: u32,
    /// Duration in seconds, rounded to the nearest whole second.
    pub duration_secs: u64,
    /// Video codec name, e.g. `"h264"`.
    pub v_codec: String,
    /// Whether the source carries an audio stream.
    pub has_audio: bool,
}

/// `n` in at least two digits, zero-padded (`{:02}`).
pub open spec fn two_digits(n: nat) -> Seq<char> {
    if n < 10 {
        seq!['0'] + decimal(n)
    } else {
        decimal(n)
    }
}

/// A duration of `total` seconds as `MM:SS`, or `H:MM:SS` from one hour on.
pub open spec fn clock_text(total: nat) -> Seq<char> {
    let h = total / 3600;
    let m = (total % 3600) / 60;
    let s = total % 60;
    if h > 0 {
        decimal(h) + ":"@ + two_digits(m) + ":"@ + two_digits(s)
    } else {
        two_digits(m) + ":"@ + two_digits(s)
    }
}

/// Two-digit rendering of `n < 100`: its tens digit, then its units digit.
pub proof fn lemma_two_digits(n: nat)
    requires
        n < 100,
    ensures
        two_digits(n) == seq![digit(n / 10), digit(n % 10)],
{
    if n < 10 {
        assert(two_digits(n) =~= seq![digit(n / 10), digit(n % 10)]);
    } else {
        assert(decimal(n / 10) == seq![digit(n / 10)]);
        assert(two_digits(n) =~= seq![digit(n / 10), digit(n % 10)]);
    }
}

fn push_two_digits(out: &mut String, n: u64)
    ensures
        final(out)@ == old(out)@ + two_digits(n as nat),
{
    if n < 10 {
        push_char(out, '0');
    }
    push_decimal(out, n);
    assert(out@ =~= old(out)@ + two_digits(n as nat));
}

impl MediaInfo {
    /// A friendly `MM:SS` (or `H:MM:SS`) rendering of the duration.
    pub fn pretty_duration(&self) -> (s: String)
        ensures
            s@ == clock_text(self.duration_secs as nat),
            // under an hour: minutes and seconds, two digits each
            self.duration_secs < 3600 ==> s@ == seq![
                digit((self.duration_secs / 60 / 10) as nat),
                digit((self.duration_secs / 60 % 10) as nat),
                ':',
                digit((self.duration_secs % 60 / 10) as nat),
                digit((self.duration_secs % 60 % 10) as nat),
            ],
            // from an hour on: whole hours, then two-digit minutes and seconds
            self.duration_secs >= 3600 ==> s@ == decimal((self.duration_secs / 3600) as nat)
                + seq![
                ':',
                digit((self.duration_secs % 3600 / 60 / 10) as nat),
                digit((self.duration_secs % 3600 / 60 % 10) as nat),
                ':',
                digit((self.duration_secs % 60 / 10) as nat),
                digit((self.duration_secs % 60 % 10) as nat),
            ],
    {
        let total = self.duration_secs;
        let h = total / 3600;
        let m = (total % 3600) / 60;
        let sec = total % 60;
        let mut s = String::new();
        if h > 0 {
            push_decimal(&mut s, h);
            s.append(":");
            push_two_digits(&mut s, m);
            s.append(":");
            push_two_digits(&mut s, sec);
        } else {
            push_two_digits(&mut s, m);
            s.append(":");
            push_two_digits(&mut s, sec);
        }
        assert(s@ =~= clock_text(total as nat));
        proof {
            reveal_strlit(":");
            lemma_two_digits(((total % 3600) / 60) as nat);
            lemma_two_digits((total % 60) as nat);
            if total < 3600 {
                assert(total % 3600 == total);
                assert(s@ =~= seq![
                    digit((total / 60 / 10) as nat),
                    digit((total / 60 % 10) as nat),
                    ':',
                    digit((total % 60 / 10) as nat),
                    digit((total % 60 % 10) as nat),
                ]);
            } else {
                assert(s@ =~= decimal((total / 3600) as nat) + seq![
                    ':',
                    digit((total % 3600 / 60 / 10) as nat),
                    digit((total % 3600 / 60 % 10) as nat),
                    ':',
                    digit((total % 60 / 10) as nat),
                    digit((total % 60 % 10) as nat),
                ]);
            }
        }
        s
    }

    /// True when the source actually contains a video stream.
    pub fn has_video(&self) -> (b: bool)
        ensures
            b == (self.width > 0 && self.height > 0),
    {
        self.width > 0 && self.height > 0
    }
}

} // verus!
