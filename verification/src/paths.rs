use vstd::prelude::*;
use vstd::string::*;

use crate::text::{chars_of, push_char, push_chars, string_of};

verus! {

/// Whether `c` is `/` or `\`, the characters Windows takes as separators.
pub open spec fn win_sep(c: char) -> bool {
    c == '/' || c == '\\'
}

/// Whether `c` is an ASCII letter.
pub open spec fn is_ascii_letter(c: char) -> bool {
    ('a' <= c && c <= 'z') || ('A' <= c && c <= 'Z')
}

/// The first place at or after `i` where `s` holds a separator (only `\`
/// when `verbatim`), or the length of `s` when there is none.
pub open spec fn next_sep(s: Seq<char>, i: int, verbatim: bool) -> int
    decreases s.len() - i,
{
    if i >= s.len() {
        s.len() as int
    } else if s[i] == '\\' || (!verbatim && s[i] == '/') {
        i
    } else {
        next_sep(s, i + 1, verbatim)
    }
}

/// Whether `s` starts with two separators.
pub open spec fn starts_double_sep(s: Seq<char>) -> bool {
    s.len() >= 2 && win_sep(s[0]) && win_sep(s[1])
}

/// Whether `s` starts with the verbatim marker `\\?\`.
pub open spec fn is_verbatim(s: Seq<char>) -> bool {
    s.len() >= 4 && s[0] == '\\' && s[1] == '\\' && s[2] == '?' && s[3] == '\\'
}

/// Whether `s` starts with a drive such as `C:` (and not with two
/// separators).
pub open spec fn is_disk(s: Seq<char>) -> bool {
    !starts_double_sep(s) && s.len() >= 2 && is_ascii_letter(s[0]) && s[1] == ':'
}

/// The length of the verbatim prefix that `s` starts with: `\\?\UNC\server`
/// with `\share` when the share is not empty, `\\?\C:`, or `\\?\` and the
/// text up to the next `\`.
pub open spec fn verbatim_prefix_len(s: Seq<char>) -> int {
    if s.len() >= 8 && s[4] == 'U' && s[5] == 'N' && s[6] == 'C' && win_sep(s[7]) {
        let e = next_sep(s, 8, true);
        if e < s.len() && next_sep(s, e + 1, true) > e + 1 {
            next_sep(s, e + 1, true)
        } else {
            e
        }
    } else if s.len() >= 6 && is_ascii_letter(s[4]) && s[5] == ':' && (s.len() == 6 || s[6] == '\\') {
        6
    } else {
        next_sep(s, 4, true)
    }
}

/// The length of the Windows prefix that `s` starts with, 0 when it has
/// none: a verbatim prefix, a device prefix `\\.\name`, a network share
/// `\\server\share` (both parts not empty), or a drive `C:`.
pub open spec fn win_prefix_len(s: Seq<char>) -> int {
    if starts_double_sep(s) {
        if is_verbatim(s) {
            verbatim_prefix_len(s)
        } else if s.len() >= 4 && s[2] == '.' && win_sep(s[3]) {
            next_sep(s, 4, false)
        } else {
            let e = next_sep(s, 2, false);
            if e > 2 && e < s.len() && next_sep(s, e + 1, false) > e + 1 {
                next_sep(s, e + 1, false)
            } else {
                0
            }
        }
    } else if is_disk(s) {
        2
    } else {
        0
    }
}

/// Whether `t` is `.`.
pub open spec fn is_dot(t: Seq<char>) -> bool {
    t.len() == 1 && t[0] == '.'
}

/// Whether `t` is `..`.
pub open spec fn is_dotdot(t: Seq<char>) -> bool {
    t.len() == 2 && t[0] == '.' && t[1] == '.'
}

/// Whether `c` ends a component: `\`, and `/` too unless `only_backslash`.
pub open spec fn piece_sep(c: char, only_backslash: bool) -> bool {
    c == '\\' || (!only_backslash && c == '/')
}

/// The components after adding the piece `cur`. Empty pieces are skipped.
/// Of a joined part (`part`), `.` is skipped and `..` takes away the last
/// component when that is a name (neither `.` nor `..`).
pub open spec fn add_piece(comps: Seq<Seq<char>>, cur: Seq<char>, part: bool) -> Seq<Seq<char>> {
    if cur.len() == 0 || (part && is_dot(cur)) {
        comps
    } else if part && is_dotdot(cur) {
        if comps.len() > 0 && !is_dot(comps.last()) && !is_dotdot(comps.last()) {
            comps.drop_last()
        } else {
            comps
        }
    } else {
        comps.push(cur)
    }
}

/// Reading `s` character by character after `comps`: the components so far
/// and the piece not yet ended.
pub open spec fn scan_pieces(comps: Seq<Seq<char>>, s: Seq<char>, only_backslash: bool, part: bool) -> (
    Seq<Seq<char>>,
    Seq<char>,
)
    decreases s.len(),
{
    if s.len() == 0 {
        (comps, Seq::<char>::empty())
    } else {
        let prev = scan_pieces(comps, s.drop_last(), only_backslash, part);
        if piece_sep(s.last(), only_backslash) {
            (add_piece(prev.0, prev.1, part), Seq::<char>::empty())
        } else {
            (prev.0, prev.1.push(s.last()))
        }
    }
}

/// The components after reading all of `s` after `comps`.
pub open spec fn collect_pieces(comps: Seq<Seq<char>>, s: Seq<char>, only_backslash: bool, part: bool) -> Seq<
    Seq<char>,
> {
    let r = scan_pieces(comps, s, only_backslash, part);
    add_piece(r.0, r.1, part)
}

/// The components with `\` between them.
pub open spec fn join_comps(comps: Seq<Seq<char>>) -> Seq<char>
    decreases comps.len(),
{
    if comps.len() == 0 {
        Seq::<char>::empty()
    } else if comps.len() == 1 {
        comps[0]
    } else {
        join_comps(comps.drop_last()) + seq!['\\'] + comps.last()
    }
}

/// A part without prefix joined to a base with a verbatim prefix: the base's
/// components (split at `\` only) are extended by the part's (split at `/`
/// and `\`); a part that starts at the root keeps only the base's prefix;
/// `.` of the part is dropped and `..` takes away a name before it; the
/// result is written with `\` after the prefix and between components.
pub open spec fn verbatim_join(base: Seq<char>, part: Seq<char>) -> Seq<char> {
    let pl = win_prefix_len(base);
    let rest = base.skip(pl);
    let base_root = rest.len() > 0 && win_sep(rest[0]);
    let body = if base_root { rest.skip(1) } else { rest };
    let part_root = part.len() > 0 && win_sep(part[0]);
    let start = if part_root { Seq::<Seq<char>>::empty() } else { collect_pieces(Seq::empty(), body, true, false) };
    let comps = collect_pieces(start, part, false, true);
    base.take(pl) + (if base_root || part_root || comps.len() > 0 { seq!['\\'] } else { Seq::<char>::empty() })
        + join_comps(comps)
}

/// `part` put below `base`, as `Path::join` does; `windows` selects the
/// Windows rules. Elsewhere a part that starts with `/` replaces `base`, and
/// otherwise one `/` stands between them unless `base` is empty or ends
/// with `/`. On Windows a part with a prefix replaces `base`; below a
/// verbatim base a non-empty part is joined by `verbatim_join`; a part that
/// starts at the root keeps only `base`'s prefix; otherwise one `\` stands
/// between them, unless `base` is empty, ends with a separator, or is a bare
/// drive such as `C:`.
pub open spec fn join_path(base: Seq<char>, part: Seq<char>, windows: bool) -> Seq<char> {
    if !windows {
        if part.len() > 0 && part[0] == '/' {
            part
        } else if base.len() == 0 || base.last() == '/' {
            base + part
        } else {
            base + seq!['/'] + part
        }
    } else if win_prefix_len(part) > 0 {
        part
    } else if is_verbatim(base) && part.len() > 0 {
        verbatim_join(base, part)
    } else if part.len() > 0 && win_sep(part[0]) {
        base.take(win_prefix_len(base)) + part
    } else if base.len() == 0 || win_sep(base.last()) || (is_disk(base) && base.len() == 2) {
        base + part
    } else {
        base + seq!['\\'] + part
    }
}

fn win_sep_char(c: char) -> (r: bool)
    ensures
        r == win_sep(c),
{
    c == '/' || c == '\\'
}

fn letter_char(c: char) -> (r: bool)
    ensures
        r == is_ascii_letter(c),
{
    ('a' <= c && c <= 'z') || ('A' <= c && c <= 'Z')
}

fn next_sep_exec(s: &Vec<char>, i: usize, verbatim: bool) -> (r: usize)
    requires
        i <= s@.len(),
    ensures
        r as int == next_sep(s@, i as int, verbatim),
        i <= r <= s@.len(),
{
    let mut j = i;
    while j < s.len()
        invariant
            i <= j <= s@.len(),
            next_sep(s@, i as int, verbatim) == next_sep(s@, j as int, verbatim),
        decreases s@.len() - j,
    {
        if s[j] == '\\' || (!verbatim && s[j] == '/') {
            return j;
        }
        j = j + 1;
    }
    j
}

fn verbatim_exec(s: &Vec<char>) -> (r: bool)
    ensures
        r == is_verbatim(s@),
{
    s.len() >= 4 && s[0] == '\\' && s[1] == '\\' && s[2] == '?' && s[3] == '\\'
}

fn prefix_len_exec(s: &Vec<char>) -> (r: usize)
    ensures
        r as int == win_prefix_len(s@),
        r <= s@.len(),
{
    let n = s.len();
    if n >= 2 && win_sep_char(s[0]) && win_sep_char(s[1]) {
        if verbatim_exec(s) {
            if n >= 8 && s[4] == 'U' && s[5] == 'N' && s[6] == 'C' && win_sep_char(s[7]) {
                let e = next_sep_exec(s, 8, true);
                if e < n {
                    let f = next_sep_exec(s, e + 1, true);
                    if f > e + 1 {
                        f
                    } else {
                        e
                    }
                } else {
                    e
                }
            } else if n >= 6 && letter_char(s[4]) && s[5] == ':' && (n == 6 || s[6] == '\\') {
                6
            } else {
                next_sep_exec(s, 4, true)
            }
        } else if n >= 4 && s[2] == '.' && win_sep_char(s[3]) {
            next_sep_exec(s, 4, false)
        } else {
            let e = next_sep_exec(s, 2, false);
            if e > 2 && e < n {
                let f = next_sep_exec(s, e + 1, false);
                if f > e + 1 {
                    f
                } else {
                    0
                }
            } else {
                0
            }
        }
    } else if n >= 2 && letter_char(s[0]) && s[1] == ':' {
        2
    } else {
        0
    }
}

/// The texts of some character vectors.
pub open spec fn texts(v: Seq<Vec<char>>) -> Seq<Seq<char>> {
    v.map_values(|t: Vec<char>| t@)
}

fn is_dot_exec(t: &Vec<char>) -> (r: bool)
    ensures
        r == is_dot(t@),
{
    t.len() == 1 && t[0] == '.'
}

fn is_dotdot_exec(t: &Vec<char>) -> (r: bool)
    ensures
        r == is_dotdot(t@),
{
    t.len() == 2 && t[0] == '.' && t[1] == '.'
}

fn add_piece_exec(comps: &mut Vec<Vec<char>>, cur: Vec<char>, part: bool)
    ensures
        texts(final(comps)@) == add_piece(texts(old(comps)@), cur@, part),
{
    let ghost before = comps@;
    if cur.len() == 0 || (part && is_dot_exec(&cur)) {
    } else if part && is_dotdot_exec(&cur) {
        let n = comps.len();
        if n > 0 {
            let name = !is_dot_exec(&comps[n - 1]) && !is_dotdot_exec(&comps[n - 1]);
            assert(texts(before).last() == comps@[n - 1]@);
            if name {
                comps.pop();
                assert(texts(comps@) =~= texts(before).drop_last());
            }
        }
    } else {
        comps.push(cur);
        assert(texts(comps@) =~= texts(before).push(cur@));
    }
}

fn collect_exec(comps: &mut Vec<Vec<char>>, s: &Vec<char>, from: usize, only_backslash: bool, part: bool)
    requires
        from <= s@.len(),
    ensures
        texts(final(comps)@) == collect_pieces(texts(old(comps)@), s@.skip(from as int), only_backslash, part),
{
    let ghost init = texts(comps@);
    let mut cur: Vec<char> = Vec::new();
    let mut i = from;
    assert(s@.subrange(from as int, from as int) =~= Seq::<char>::empty());
    while i < s.len()
        invariant
            from <= i <= s@.len(),
            scan_pieces(init, s@.subrange(from as int, i as int), only_backslash, part) == (texts(comps@), cur@),
        decreases s@.len() - i,
    {
        let c = s[i];
        let ghost sub = s@.subrange(from as int, i + 1);
        assert(sub.drop_last() =~= s@.subrange(from as int, i as int));
        assert(sub.last() == c);
        if c == '\\' || (!only_backslash && c == '/') {
            let done = cur;
            add_piece_exec(comps, done, part);
            cur = Vec::new();
            assert(cur@ =~= Seq::<char>::empty());
        } else {
            cur.push(c);
        }
        i = i + 1;
    }
    assert(s@.subrange(from as int, s@.len() as int) =~= s@.skip(from as int));
    add_piece_exec(comps, cur, part);
}

fn push_prefix(out: &mut String, s: &Vec<char>, k: usize)
    requires
        k <= s@.len(),
    ensures
        final(out)@ == old(out)@ + s@.take(k as int),
{
    let ghost start = out@;
    let mut i: usize = 0;
    while i < k
        invariant
            k <= s@.len(),
            i <= k,
            out@ == start + s@.take(i as int),
        decreases k - i,
    {
        push_char(out, s[i]);
        assert(s@.take(i + 1) =~= s@.take(i as int).push(s@[i as int]));
        i = i + 1;
    }
}

fn push_joined(out: &mut String, comps: &Vec<Vec<char>>)
    ensures
        final(out)@ == old(out)@ + join_comps(texts(comps@)),
{
    let ghost start = out@;
    let mut k: usize = 0;
    assert(texts(comps@).take(0) =~= Seq::<Seq<char>>::empty());
    while k < comps.len()
        invariant
            k <= comps@.len(),
            out@ == start + join_comps(texts(comps@).take(k as int)),
        decreases comps@.len() - k,
    {
        let ghost before = out@;
        let ghost t = texts(comps@).take(k + 1);
        assert(t.drop_last() =~= texts(comps@).take(k as int));
        assert(t.last() == comps@[k as int]@);
        if k > 0 {
            push_char(out, '\\');
        }
        push_chars(out, comps[k].as_slice());
        if k > 0 {
            assert(out@ =~= start + join_comps(t));
        } else {
            assert(out@ =~= start + join_comps(t));
        }
        k = k + 1;
    }
    assert(texts(comps@).take(comps@.len() as int) =~= texts(comps@));
}

fn verbatim_join_exec(b: &Vec<char>, p: &Vec<char>) -> (r: String)
    requires
        is_verbatim(b@),
        p@.len() > 0,
    ensures
        r@ == verbatim_join(b@, p@),
{
    let pl = prefix_len_exec(b);
    let base_root = pl < b.len() && win_sep_char(b[pl]);
    let part_root = win_sep_char(p[0]);
    let ghost rest = b@.skip(pl as int);
    assert(rest.len() > 0 ==> rest[0] == b@[pl as int]);
    let mut comps: Vec<Vec<char>> = Vec::new();
    assert(texts(comps@) =~= Seq::<Seq<char>>::empty());
    if !part_root {
        let from = if base_root { pl + 1 } else { pl };
        assert(base_root ==> rest.skip(1) =~= b@.skip(from as int));
        collect_exec(&mut comps, b, from, true, false);
    }
    collect_exec(&mut comps, p, 0, false, true);
    assert(p@.skip(0) =~= p@);
    let mut out = String::new();
    push_prefix(&mut out, b, pl);
    if base_root || part_root || comps.len() > 0 {
        push_char(&mut out, '\\');
    }
    push_joined(&mut out, &comps);
    out
}

/// The path `part` below `base`; `windows` selects Windows path rules.
pub fn path_join(base: &str, part: &str, windows: bool) -> (r: String)
    ensures
        r@ == join_path(base@, part@, windows),
{
    let b = chars_of(base);
    let p = chars_of(part);
    if !windows {
        if p.len() > 0 && p[0] == '/' {
            return string_of(p.as_slice());
        }
        let mut s = string_of(b.as_slice());
        if !(b.len() == 0 || b[b.len() - 1] == '/') {
            push_char(&mut s, '/');
        }
        push_chars(&mut s, p.as_slice());
        return s;
    }
    if prefix_len_exec(&p) > 0 {
        return string_of(p.as_slice());
    }
    if p.len() > 0 && verbatim_exec(&b) {
        return verbatim_join_exec(&b, &p);
    }
    if p.len() > 0 && win_sep_char(p[0]) {
        let k = prefix_len_exec(&b);
        let mut s = String::new();
        push_prefix(&mut s, &b, k);
        push_chars(&mut s, p.as_slice());
        return s;
    }
    let mut s = string_of(b.as_slice());
    let bare_drive = b.len() == 2 && !(win_sep_char(b[0]) && win_sep_char(b[1])) && letter_char(b[0]) && b[1] == ':';
    if !(b.len() == 0 || win_sep_char(b[b.len() - 1]) || bare_drive) {
        push_char(&mut s, '\\');
    }
    push_chars(&mut s, p.as_slice());
    s
}

/// Why no home directory based path can be given.
#[derive(Debug, Clone, Copy, PartialEq, Eq, Structural)]
pub enum HomeError {
    NoHomeDir,
}

impl HomeError {
    /// The message of this error.
    pub fn message(&self) -> (r: String)
        ensures
            r@ == "No home dir"@,
    {
        String::from_str("No home dir")
    }
}

/// The directory that uv installs itself into: `.local/bin` below the
/// user's home directory.
pub open spec fn uv_bin_dir_path(home: Seq<char>, windows: bool) -> Seq<char> {
    join_path(join_path(home, ".local"@, windows), "bin"@, windows)
}

/// Where uv lives when it is installed for the user, given the user's home
/// directory if there is one.
pub fn uv_bin_dir(home: Option<&str>, windows: bool) -> (r: Result<String, HomeError>)
    ensures
        home is None ==> r == Err::<String, HomeError>(HomeError::NoHomeDir),
        home matches Some(h) ==> (r matches Ok(p) && p@ == uv_bin_dir_path(h@, windows)),
{
    match home {
        None => Err(HomeError::NoHomeDir),
        Some(h) => {
            let local = path_join(h, ".local", windows);
            Ok(path_join(local.as_str(), "bin", windows))
        },
    }
}

/// The name of uv's executable.
pub open spec fn uv_file_name(is_windows: bool) -> Seq<char> {
    if is_windows { "uv.exe"@ } else { "uv"@ }
}

/// The uv executable to run: the one found on the search path if there is
/// one, else the one in the user's install directory.
pub fn uv_exec_path(on_search_path: Option<String>, home: Option<&str>, is_windows: bool) -> (r: Result<String, HomeError>)
    ensures
        on_search_path matches Some(p) ==> r == Ok::<String, HomeError>(p),
        on_search_path is None && home is None ==> r == Err::<String, HomeError>(HomeError::NoHomeDir),
        on_search_path is None && home is Some ==> (r matches Ok(p)
            && p@ == join_path(uv_bin_dir_path(home->0@, is_windows), uv_file_name(is_windows), is_windows)),
{
    match on_search_path {
        Some(p) => Ok(p),
        None => {
            let dir = uv_bin_dir(home, is_windows)?;
            let name = if is_windows { "uv.exe" } else { "uv" };
            Ok(path_join(dir.as_str(), name, is_windows))
        },
    }
}

}
