//! Text helpers shared by the other modules: decimal rendering, line
//! splitting and character classes, each stated over `Seq<char>`.

use vstd::prelude::*;

verus! {

/// Appends one character to a string, through `String::push`.
/// Trusted: std documents that `push` appends the given char to the end of
/// the string; nothing else changes.
#[verifier::external_body]
pub(crate) fn push_char(s: &mut String, c: char)
    ensures
        final(s)@ == old(s)@.push(c),
{
    s.push(c);
}

/// The character of decimal digit `d` (`d < 10`).
pub open spec fn digit(d: nat) -> char {
    (d + 48) as char
}

/// The decimal rendering of `n`, most significant digit first, no padding.
pub open spec fn decimal(n: nat) -> Seq<char>
    decreases n,
{
    if n < 10 {
        seq![digit(n)]
    } else {
        decimal(n / 10).push(digit(n % 10))
    }
}

fn digit_char(d: u64) -> (c: char)
    requires
        d < 10,
    ensures
        c == digit(d as nat),
{
    ((d as u8) + 48u8) as char
}

/// Appends the decimal rendering of `n` to `s`.
pub(crate) fn push_decimal(s: &mut String, n: u64)
    ensures
        final(s)@ == old(s)@ + decimal(n as nat),
    decreases n,
{
    if n >= 10 {
        push_decimal(s, n / 10);
    }
    push_char(s, digit_char(n % 10));
    proof {
        if n >= 10 {
            assert(decimal(n as nat) == decimal((n / 10) as nat).push(digit((n % 10) as nat)));
        }
        assert(s@ =~= old(s)@ + decimal(n as nat));
    }
}

/// The characters of `s`, in order.
pub(crate) fn chars_of(s: &str) -> (v: Vec<char>)
    ensures
        v@ == s@,
{
    let mut v: Vec<char> = Vec::new();
    for c in it: s.chars()
        invariant
            v@ == it.seq().take(it.index()),
    {
        v.push(c);
    }
    assert(v@ =~= s@);
    v
}

/// The pieces of `t` between occurrences of `sep`, as `str::split(sep)`
/// yields them: every `sep` closes the current piece and opens a new, empty
/// one; every other character extends the current piece.
pub open spec fn split_on(t: Seq<char>, sep: char) -> Seq<Seq<char>>
    decreases t.len(),
{
    if t.len() == 0 {
        seq![Seq::empty()]
    } else {
        let p = split_on(t.drop_last(), sep);
        if t.last() == sep {
            p.push(Seq::empty())
        } else {
            p.update(p.len() - 1, p.last().push(t.last()))
        }
    }
}

/// A line without the carriage return that precedes its newline.
pub open spec fn strip_cr(l: Seq<char>) -> Seq<char> {
    if l.len() > 0 && l.last() == '\r' {
        l.drop_last()
    } else {
        l
    }
}

/// The lines of `t` as `str::lines` yields them: the pieces between
/// newlines, each piece that a newline ends without its trailing `\r`, and
/// the piece after the last newline only when it is not empty.
pub open spec fn lines(t: Seq<char>) -> Seq<Seq<char>> {
    let p = pieces(t);
    let n = p.len() - 1;
    let closed = p.take(n).map_values(|l: Seq<char>| strip_cr(l));
    if p[n].len() == 0 {
        closed
    } else {
        closed.push(p[n])
    }
}

pub proof fn lemma_split_on_nonempty(t: Seq<char>, sep: char)
    ensures
        split_on(t, sep).len() >= 1,
    decreases t.len(),
{
    if t.len() > 0 {
        lemma_split_on_nonempty(t.drop_last(), sep);
    }
}

/// The pieces of `t` between newlines.
pub open spec fn pieces(t: Seq<char>) -> Seq<Seq<char>> {
    split_on(t, '\n')
}

/// The pieces of `t` between occurrences of `sep` (see `split_on`).
pub(crate) fn split_chars(t: &Vec<char>, sep: char) -> (res: Vec<Vec<char>>)
    ensures
        views(res@) == split_on(t@, sep),
{
    let mut done: Vec<Vec<char>> = Vec::new();
    let mut cur: Vec<char> = Vec::new();
    let mut i: usize = 0;
    while i < t.len()
        invariant
            i <= t.len(),
            split_on(t@.take(i as int), sep).len() == done.len() + 1,
            views(done@) =~= split_on(t@.take(i as int), sep).take(done.len() as int),
            cur@ == split_on(t@.take(i as int), sep).last(),
        decreases t.len() - i,
    {
        let c = t[i];
        let ghost prev = split_on(t@.take(i as int), sep);
        assert(t@.take(i + 1).drop_last() =~= t@.take(i as int));
        assert(t@.take(i + 1).last() == c);
        if c == sep {
            let ghost before = views(done@);
            done.push(cur);
            cur = Vec::new();
            assert(views(done@) =~= before.push(prev.last()));
            assert(prev =~= prev.take(prev.len() - 1).push(prev.last()));
        } else {
            cur.push(c);
            assert(split_on(t@.take(i + 1), sep) == prev.update(prev.len() - 1, prev.last().push(c)));
            assert(prev.update(prev.len() - 1, prev.last().push(c)).take(done.len() as int)
                =~= prev.take(done.len() as int));
        }
        i = i + 1;
    }
    assert(t@.take(i as int) =~= t@);
    let ghost closed = views(done@);
    done.push(cur);
    assert(views(done@) =~= closed.push(split_on(t@, sep).last()));
    assert(split_on(t@, sep) =~= split_on(t@, sep).take(closed.len() as int).push(split_on(t@, sep).last()));
    done
}

/// The character sequences held by a vector of character vectors.
pub open spec fn views(v: Seq<Vec<char>>) -> Seq<Seq<char>> {
    v.map_values(|l: Vec<char>| l@)
}

/// The lines of `t` (see `lines`).
pub(crate) fn split_lines(t: &Vec<char>) -> (res: Vec<Vec<char>>)
    ensures
        views(res@) == lines(t@),
{
    let mut done: Vec<Vec<char>> = Vec::new();
    let mut cur: Vec<char> = Vec::new();
    let mut i: usize = 0;
    while i < t.len()
        invariant
            i <= t.len(),
            pieces(t@.take(i as int)).len() == done.len() + 1,
            views(done@) =~= pieces(t@.take(i as int)).take(done.len() as int).map_values(
                |l: Seq<char>| strip_cr(l),
            ),
            cur@ == pieces(t@.take(i as int)).last(),
        decreases t.len() - i,
    {
        let c = t[i];
        let ghost prev = pieces(t@.take(i as int));
        assert(t@.take(i + 1).drop_last() =~= t@.take(i as int));
        assert(t@.take(i + 1).last() == c);
        if c == '\n' {
            let mut line = cur;
            if line.len() > 0 && line[line.len() - 1] == '\r' {
                line.pop();
            }
            assert(line@ == strip_cr(prev.last()));
            let ghost before = views(done@);
            done.push(line);
            assert(views(done@) =~= before.push(strip_cr(prev.last())));
            assert(prev =~= prev.take(prev.len() - 1).push(prev.last()));
            cur = Vec::new();
            assert(pieces(t@.take(i + 1)) == prev.push(Seq::empty()));
            assert(prev.push(Seq::<char>::empty()).take(done.len() as int) =~= prev);
            assert(views(done@) =~= prev.map_values(|l: Seq<char>| strip_cr(l)));
        } else {
            cur.push(c);
            assert(pieces(t@.take(i + 1)) == prev.update(prev.len() - 1, prev.last().push(c)));
            assert(prev.update(prev.len() - 1, prev.last().push(c)).take(done.len() as int)
                =~= prev.take(done.len() as int));
        }
        i = i + 1;
    }
    assert(t@.take(i as int) =~= t@);
    let ghost closed = views(done@);
    if cur.len() > 0 {
        done.push(cur);
        assert(views(done@) =~= closed.push(pieces(t@).last()));
    }
    done
}

/// Unicode `White_Space`, the class that `char::is_whitespace`,
/// `str::trim_start` and `str::split_whitespace` use.
pub open spec fn is_ws(c: char) -> bool {
    ||| '\u{9}' <= c && c <= '\u{d}'
    ||| c == ' '
    ||| c == '\u{85}'
    ||| c == '\u{a0}'
    ||| c == '\u{1680}'
    ||| '\u{2000}' <= c && c <= '\u{200a}'
    ||| c == '\u{2028}'
    ||| c == '\u{2029}'
    ||| c == '\u{202f}'
    ||| c == '\u{205f}'
    ||| c == '\u{3000}'
}

pub(crate) fn is_whitespace(c: char) -> (b: bool)
    ensures
        b == is_ws(c),
{
    ('\u{9}' <= c && c <= '\u{d}') || c == ' ' || c == '\u{85}' || c == '\u{a0}' || c
        == '\u{1680}' || ('\u{2000}' <= c && c <= '\u{200a}') || c == '\u{2028}' || c
        == '\u{2029}' || c == '\u{202f}' || c == '\u{205f}' || c == '\u{3000}'
}

/// Whether the characters held in `v` are exactly those of `lit`.
pub(crate) fn chars_are(v: &Vec<char>, lit: &str) -> (b: bool)
    ensures
        b == (v@ == lit@),
{
    let n = lit.unicode_len();
    if v.len() != n {
        return false;
    }
    let mut i: usize = 0;
    while i < n
        invariant
            n == lit@.len(),
            v.len() == n,
            i <= n,
            forall|k: int| 0 <= k < i ==> v@[k] == lit@[k],
        decreases n - i,
    {
        if v[i] != lit.get_char(i) {
            return false;
        }
        i = i + 1;
    }
    assert(v@ =~= lit@);
    true
}

/// Whether two string slices hold the same characters.
pub(crate) fn str_eq(a: &str, b: &str) -> (r: bool)
    ensures
        r == (a@ == b@),
{
    let v = chars_of(a);
    chars_are(&v, b)
}

/// A string holding the characters of `v[from..to]`.
pub(crate) fn string_of_range(v: &Vec<char>, from: usize, to: usize) -> (s: String)
    requires
        from <= to <= v.len(),
    ensures
        s@ == v@.subrange(from as int, to as int),
{
    let mut s = String::new();
    let mut i = from;
    while i < to
        invariant
            from <= i <= to,
            to <= v.len(),
            s@ == v@.subrange(from as int, i as int),
        decreases to - i,
    {
        push_char(&mut s, v[i]);
        assert(s@ =~= v@.subrange(from as int, i + 1));
        i = i + 1;
    }
    s
}

/// A string holding the characters of `v`.
pub(crate) fn string_of(v: &Vec<char>) -> (s: String)
    ensures
        s@ == v@,
{
    let s = string_of_range(v, 0, v.len());
    assert(v@.subrange(0, v@.len() as int) =~= v@);
    s
}

/// A string holding the characters of the literal or slice `lit`.
pub(crate) fn owned(lit: &str) -> (s: String)
    ensures
        s@ == lit@,
{
    lit.to_string()
}

/// The character sequences held by a sequence of strings.
pub open spec fn strings(v: Seq<String>) -> Seq<Seq<char>> {
    v.map_values(|s: String| s@)
}

/// Appends `s` to `v`.
pub(crate) fn push_string(v: &mut Vec<String>, s: String)
    ensures
        strings(final(v)@) == strings(old(v)@).push(s@),
{
    v.push(s);
    assert(strings(v@) =~= strings(old(v)@).push(s@));
}

/// The decimal rendering of `n` as a string.
pub(crate) fn decimal_string(n: u64) -> (s: String)
    ensures
        s@ == decimal(n as nat),
{
    let mut s = String::new();
    push_decimal(&mut s, n);
    assert(s@ =~= decimal(n as nat));
    s
}

/// Whether some string of `v` holds exactly the characters of `name`.
pub(crate) fn contains_str(v: &Vec<String>, name: &str) -> (b: bool)
    ensures
        b == strings(v@).contains(name@),
{
    let mut i: usize = 0;
    while i < v.len()
        invariant
            i <= v.len(),
            forall|k: int| 0 <= k < i ==> v@[k]@ != name@,
        decreases v.len() - i,
    {
        if str_eq(v[i].as_str(), name) {
            assert(strings(v@)[i as int] == name@);
            return true;
        }
        i = i + 1;
    }
    assert(!strings(v@).contains(name@)) by {
        if strings(v@).contains(name@) {
            let k = choose|k: int| 0 <= k < strings(v@).len() && strings(v@)[k] == name@;
            assert(v@[k]@ == name@);
        }
    }
    false
}

/// `parts` joined with `sep` between consecutive parts, as `[T]::join` does.
pub open spec fn join(parts: Seq<Seq<char>>, sep: Seq<char>) -> Seq<char>
    decreases parts.len(),
{
    if parts.len() == 0 {
        seq![]
    } else if parts.len() == 1 {
        parts[0]
    } else {
        join(parts.drop_last(), sep) + sep + parts.last()
    }
}

/// The strings of `parts` joined with `sep`.
pub(crate) fn join_strings(parts: &Vec<String>, sep: &str) -> (s: String)
    ensures
        s@ == join(strings(parts@), sep@),
{
    let mut s = String::new();
    let mut i: usize = 0;
    while i < parts.len()
        invariant
            i <= parts.len(),
            s@ == join(strings(parts@).take(i as int), sep@),
        decreases parts.len() - i,
    {
        let ghost done = strings(parts@).take(i as int);
        let ghost next = strings(parts@).take(i + 1);
        assert(next.drop_last() =~= done);
        assert(next.last() == parts@[i as int]@);
        if i > 0 {
            s.append(sep);
        } else {
            assert(join(next, sep@) == next[0]);
        }
        s.append(parts[i].as_str());
        i = i + 1;
    }
    assert(strings(parts@).take(i as int) =~= strings(parts@));
    s
}

} // verus!
