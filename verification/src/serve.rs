//! The routing logic of the built-in preview server: which page, script or
//! file a request names, the content type a file is served with, and the
//! player page with the master playlist filled in.

use vstd::prelude::*;

use crate::package::MASTER_PLAYLIST;
use crate::text::{
    chars_are, chars_of, lemma_split_on_nonempty, push_char, push_string, split_chars, split_on,
    string_of, strings, views,
};

verus! {

/// Where a request goes.
#[derive(Debug, Clone)]
pub enum Route {
    /// The player page (`/` or `/index.html`).
    Player,
    /// The vendored player library (`/hls.js`).
    PlayerScript,
    /// A file under the served directory, named by its path segments.
    File(Vec<String>),
    /// Nothing that may be served.
    NotFound,
}

/// The path of a request target: everything before the first `?`.
pub open spec fn path_part(url: Seq<char>) -> Seq<char> {
    split_on(url, '?')[0]
}

/// `p` without its leading `/` characters (`str::trim_start_matches('/')`).
pub open spec fn trim_slashes(p: Seq<char>) -> Seq<char>
    decreases p.len(),
{
    if p.len() > 0 && p[0] == '/' {
        trim_slashes(p.drop_first())
    } else {
        p
    }
}

/// A path segment that cannot leave the served directory: not empty, not
/// `.` or `..`, and with no separator or NUL in it.
pub open spec fn safe_segment(s: Seq<char>) -> bool {
    &&& s.len() > 0
    &&& s != "."@
    &&& s != ".."@
    &&& !s.contains('/')
    &&& !s.contains('\\')
    &&& !s.contains('\0')
}

/// The segments of a request path below the served root, or none when any
/// segment could escape it.
pub open spec fn segments_of(path: Seq<char>) -> Option<Seq<Seq<char>>> {
    let segs = split_on(trim_slashes(path), '/');
    if forall|i: int| 0 <= i < segs.len() ==> safe_segment(#[trigger] segs[i]) {
        Some(segs)
    } else {
        None
    }
}

fn trim_slashes_exec(v: &Vec<char>) -> (t: Vec<char>)
    ensures
        t@ == trim_slashes(v@),
{
    let mut i: usize = 0;
    assert(v@.skip(0) =~= v@);
    while i < v.len() && v[i] == '/'
        invariant
            i <= v.len(),
            trim_slashes(v@.skip(i as int)) == trim_slashes(v@),
        decreases v.len() - i,
    {
        assert(v@.skip(i as int).drop_first() =~= v@.skip(i + 1));
        i = i + 1;
    }
    let mut t: Vec<char> = Vec::new();
    let start = i;
    while i < v.len()
        invariant
            start <= i <= v.len(),
            t@ =~= v@.subrange(start as int, i as int),
        decreases v.len() - i,
    {
        t.push(v[i]);
        i = i + 1;
    }
    assert(v@.skip(start as int) =~= t@);
    t
}

fn has_char(v: &Vec<char>, c: char) -> (b: bool)
    ensures
        b == v@.contains(c),
{
    let mut i: usize = 0;
    while i < v.len()
        invariant
            i <= v.len(),
            forall|k: int| 0 <= k < i ==> v@[k] != c,
        decreases v.len() - i,
    {
        if v[i] == c {
            return true;
        }
        i = i + 1;
    }
    false
}

fn is_safe_segment(s: &Vec<char>) -> (b: bool)
    ensures
        b == safe_segment(s@),
{
    // Reject empty, dot, dot-dot, or any embedded separator/NUL.
    !(s.len() == 0 || chars_are(s, ".") || chars_are(s, "..") || has_char(s, '/') || has_char(
        s,
        '\\',
    ) || has_char(s, '\0'))
}

/// Resolve a request path into segments below the served root, rejecting
/// any segment that is empty, `.`, `..`, or holds a separator or NUL, so that
/// no `..` traversal can escape the served directory.
pub fn request_segments(url_path: &str) -> (res: Option<Vec<String>>)
    ensures
        match segments_of(url_path@) {
            Some(segs) => res matches Some(v) && strings(v@) == segs,
            None => res is None,
        },
        res matches Some(v) ==> forall|i: int|
            0 <= i < v.len() ==> safe_segment(#[trigger] strings(v@)[i]),
        // no accepted segment can step out of or around the served directory
        res matches Some(v) ==> forall|i: int|
            0 <= i < v.len() ==> {
                &&& #[trigger] strings(v@)[i].len() > 0
                &&& strings(v@)[i] != "."@
                &&& strings(v@)[i] != ".."@
                &&& !strings(v@)[i].contains('/')
                &&& !strings(v@)[i].contains('\\')
                &&& !strings(v@)[i].contains('\0')
            },
        // an accepted path names at least one segment
        res matches Some(v) ==> v.len() >= 1,
{
    let path = chars_of(url_path);
    let trimmed = trim_slashes_exec(&path);
    let segs = split_chars(&trimmed, '/');
    let mut out: Vec<String> = Vec::new();
    let mut i: usize = 0;
    while i < segs.len()
        invariant
            i <= segs.len(),
            views(segs@) == split_on(trim_slashes(url_path@), '/'),
            forall|k: int| 0 <= k < i ==> safe_segment(#[trigger] views(segs@)[k]),
            strings(out@) =~= views(segs@).take(i as int),
        decreases segs.len() - i,
    {
        if !is_safe_segment(&segs[i]) {
            assert(!safe_segment(views(segs@)[i as int]));
            return None;
        }
        push_string(&mut out, string_of(&segs[i]));
        assert(views(segs@).take(i + 1) =~= views(segs@).take(i as int).push(segs@[i as int]@));
        i = i + 1;
    }
    assert(views(segs@).take(i as int) =~= views(segs@));
    assert(views(segs@).len() >= 1) by {
        lemma_split_on_nonempty(trim_slashes(url_path@), '/');
    }
    assert forall|i: int| 0 <= i < out.len() implies {
        &&& #[trigger] strings(out@)[i].len() > 0
        &&& strings(out@)[i] != "."@
        &&& strings(out@)[i] != ".."@
        &&& !strings(out@)[i].contains('/')
        &&& !strings(out@)[i].contains('\\')
        &&& !strings(out@)[i].contains('\0')
    } by {
        assert(safe_segment(strings(out@)[i]));
    }
    Some(out)
}

/// Route a request target to the player page, the player script, or a file
/// under the served root. The query string is ignored.
pub fn route(raw_url: &str) -> (r: Route)
    ensures
        ({
            let p = path_part(raw_url@);
            if p == "/"@ || p == "/index.html"@ {
                r is Player
            } else if p == "/hls.js"@ {
                r is PlayerScript
            } else {
                match segments_of(p) {
                    Some(segs) => r matches Route::File(v) && strings(v@) == segs,
                    None => r is NotFound,
                }
            }
        }),
        // a served file never lies outside the served root
        r matches Route::File(v) ==> forall|i: int|
            0 <= i < v.len() ==> safe_segment(#[trigger] strings(v@)[i]),
{
    let url = chars_of(raw_url);
    let parts = split_chars(&url, '?');
    proof {
        lemma_split_on_nonempty(url@, '?');
    }
    let path = &parts[0];
    if chars_are(path, "/") || chars_are(path, "/index.html") {
        Route::Player
    } else if chars_are(path, "/hls.js") {
        Route::PlayerScript
    } else {
        let s = string_of(path);
        match request_segments(s.as_str()) {
            Some(v) => Route::File(v),
            None => Route::NotFound,
        }
    }
}

/// The byte sequences held by a vector of byte vectors.
pub open spec fn byte_views(v: Seq<Vec<u8>>) -> Seq<Seq<u8>> {
    v.map_values(|c: Vec<u8>| c@)
}

/// Whether a path, given by its components, lies under a root, given by its
/// components: the root's components are its leading ones, whole component
/// by whole component (as `Path::starts_with` compares).
pub open spec fn is_under(root: Seq<Seq<u8>>, path: Seq<Seq<u8>>) -> bool {
    root.len() <= path.len() && forall|i: int| 0 <= i < root.len() ==> path[i] == root[i]
}

fn bytes_eq(a: &Vec<u8>, b: &Vec<u8>) -> (r: bool)
    ensures
        r == (a@ == b@),
{
    if a.len() != b.len() {
        return false;
    }
    let mut i: usize = 0;
    while i < a.len()
        invariant
            a.len() == b.len(),
            i <= a.len(),
            forall|k: int| 0 <= k < i ==> a@[k] == b@[k],
        decreases a.len() - i,
    {
        if a[i] != b[i] {
            return false;
        }
        i = i + 1;
    }
    assert(a@ =~= b@);
    true
}

/// Whether the real (canonical) path of a requested file still lies under
/// the served root: a second guard, after the segment checks, that also
/// catches links that lead out of the served directory.
pub fn within_root(root: &Vec<Vec<u8>>, path: &Vec<Vec<u8>>) -> (b: bool)
    ensures
        b == is_under(byte_views(root@), byte_views(path@)),
{
    if root.len() > path.len() {
        return false;
    }
    let mut i: usize = 0;
    while i < root.len()
        invariant
            root.len() <= path.len(),
            i <= root.len(),
            forall|k: int| 0 <= k < i ==> path@[k]@ == root@[k]@,
        decreases root.len() - i,
    {
        if !bytes_eq(&root[i], &path[i]) {
            assert(byte_views(path@)[i as int] != byte_views(root@)[i as int]);
            return false;
        }
        i = i + 1;
    }
    true
}

/// The index of the last `c` in `s`, or -1.
pub open spec fn last_index(s: Seq<char>, c: char) -> int
    decreases s.len(),
{
    if s.len() == 0 {
        -1
    } else if s.last() == c {
        s.len() - 1
    } else {
        last_index(s.drop_last(), c)
    }
}

/// The extension of a file name as `Path::extension` gives it: what follows
/// the last `.`, unless there is no `.`, the only `.` leads the name, or the
/// name is `..`.
pub open spec fn extension(name: Seq<char>) -> Option<Seq<char>> {
    let k = last_index(name, '.');
    if name == ".."@ || k <= 0 {
        None
    } else {
        Some(name.skip(k + 1))
    }
}

/// The content type a file is served with, by its extension.
pub open spec fn content_type_for(name: Seq<char>) -> Seq<char> {
    match extension(name) {
        Some(e) => if e == "m3u8"@ {
            "application/vnd.apple.mpegurl"@
        } else if e == "ts"@ {
            "video/mp2t"@
        } else if e == "mpd"@ {
            "application/dash+xml"@
        } else if e == "m4s"@ {
            "video/iso.segment"@
        } else if e == "mp4"@ {
            "video/mp4"@
        } else if e == "html"@ {
            "text/html; charset=utf-8"@
        } else {
            "application/octet-stream"@
        },
        None => "application/octet-stream"@,
    }
}

fn last_index_exec(v: &Vec<char>, c: char) -> (k: Option<usize>)
    ensures
        match k {
            Some(k) => k == last_index(v@, c) && k < v.len(),
            None => last_index(v@, c) == -1,
        },
{
    let mut i: usize = v.len();
    assert(v@.take(v.len() as int) =~= v@);
    while i > 0 && v[i - 1] != c
        invariant
            i <= v.len(),
            last_index(v@.take(i as int), c) == last_index(v@, c),
        decreases i,
    {
        assert(v@.take(i as int).drop_last() =~= v@.take(i - 1));
        i = i - 1;
    }
    if i == 0 {
        None
    } else {
        Some(i - 1)
    }
}

fn suffix_is(v: &Vec<char>, from: usize, lit: &str) -> (b: bool)
    requires
        from <= v.len(),
    ensures
        b == (v@.skip(from as int) == lit@),
{
    let mut tail: Vec<char> = Vec::new();
    let mut i = from;
    while i < v.len()
        invariant
            from <= i <= v.len(),
            tail@ =~= v@.subrange(from as int, i as int),
        decreases v.len() - i,
    {
        tail.push(v[i]);
        i = i + 1;
    }
    assert(tail@ =~= v@.skip(from as int));
    chars_are(&tail, lit)
}

/// The content type of a served file, by the extension of its name.
pub fn content_type(file_name: &str) -> (t: &'static str)
    ensures
        t@ == content_type_for(file_name@),
{
    let name = chars_of(file_name);
    let from = match last_index_exec(&name, '.') {
        Some(k) => {
            if k == 0 || chars_are(&name, "..") {
                return "application/octet-stream";
            }
            k + 1
        },
        None => {
            return "application/octet-stream";
        },
    };
    if suffix_is(&name, from, "m3u8") {
        "application/vnd.apple.mpegurl"
    } else if suffix_is(&name, from, "ts") {
        "video/mp2t"
    } else if suffix_is(&name, from, "mpd") {
        "application/dash+xml"
    } else if suffix_is(&name, from, "m4s") {
        "video/iso.segment"
    } else if suffix_is(&name, from, "mp4") {
        "video/mp4"
    } else if suffix_is(&name, from, "html") {
        "text/html; charset=utf-8"
    } else {
        "application/octet-stream"
    }
}

/// `s` with every occurrence of `pat` replaced by `rep`, scanning left to
/// right without overlap, as `str::replace` does (`pat` not empty).
pub open spec fn replace_all(s: Seq<char>, pat: Seq<char>, rep: Seq<char>) -> Seq<char>
    decreases s.len(),
{
    if pat.len() == 0 || s.len() < pat.len() {
        s
    } else if s.take(pat.len() as int) == pat {
        rep + replace_all(s.skip(pat.len() as int), pat, rep)
    } else {
        seq![s[0]] + replace_all(s.skip(1), pat, rep)
    }
}

fn matches_at(v: &Vec<char>, i: usize, pat: &Vec<char>) -> (b: bool)
    requires
        i <= v.len(),
    ensures
        b == (i + pat.len() <= v.len() && v@.subrange(i as int, i + pat.len()) == pat@),
{
    if pat.len() > v.len() - i {
        return false;
    }
    let mut k: usize = 0;
    while k < pat.len()
        invariant
            k <= pat.len(),
            i + pat.len() <= v.len(),
            forall|j: int| 0 <= j < k ==> v@[i + j] == pat@[j],
        decreases pat.len() - k,
    {
        if v[i + k] != pat[k] {
            assert(v@.subrange(i as int, i + pat.len())[k as int] != pat@[k as int]);
            return false;
        }
        k = k + 1;
    }
    assert(v@.subrange(i as int, i + pat.len()) =~= pat@);
    true
}

/// The player page: `template` with every `{{MASTER}}` replaced by the
/// master playlist's file name, so the player knows what to load.
pub fn player_page(template: &str) -> (page: String)
    ensures
        page@ == replace_all(template@, "{{MASTER}}"@, MASTER_PLAYLIST@),
{
    let v = chars_of(template);
    let pat = chars_of("{{MASTER}}");
    let ghost p = pat@;
    let ghost rep = MASTER_PLAYLIST@;
    proof {
        reveal_strlit("{{MASTER}}");
    }
    assert(pat@.len() > 0);
    let mut page = String::new();
    let mut i: usize = 0;
    assert(v@.skip(0) =~= v@);
    while i < v.len()
        invariant
            i <= v.len(),
            p == pat@,
            p.len() > 0,
            rep == MASTER_PLAYLIST@,
            page@ + replace_all(v@.skip(i as int), p, rep) == replace_all(v@, p, rep),
        decreases v.len() - i,
    {
        let ghost rest = v@.skip(i as int);
        let ghost before = page@;
        if matches_at(&v, i, &pat) {
            assert(rest.take(p.len() as int) =~= v@.subrange(i as int, i + p.len()));
            assert(rest.skip(p.len() as int) =~= v@.skip(i + p.len()));
            page.append(MASTER_PLAYLIST);
            assert(page@ + replace_all(v@.skip(i + p.len()), p, rep) =~= before + replace_all(
                rest,
                p,
                rep,
            ));
            i = i + pat.len();
        } else {
            proof {
                assert(rest.skip(1) =~= v@.skip(i + 1));
                if rest.len() >= p.len() {
                    assert(rest.take(p.len() as int) =~= v@.subrange(i as int, i + p.len()));
                } else {
                    assert(replace_all(v@.skip(i + 1), p, rep) == v@.skip(i + 1));
                    assert(rest =~= seq![v@[i as int]] + v@.skip(i + 1));
                }
            }
            push_char(&mut page, v[i]);
            assert(page@ + replace_all(v@.skip(i + 1), p, rep) =~= before + replace_all(
                rest,
                p,
                rep,
            ));
            i = i + 1;
        }
    }
    assert(v@.skip(i as int) =~= Seq::<char>::empty());
    page
}

} // verus!
