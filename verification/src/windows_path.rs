//! Windows path joining: how a relative path is placed under a base path on
//! Windows, where a path may start with a drive (`C:`), both `\` and `/`
//! separate components, and a drive-relative path such as `C:foo` takes the
//! directories of the base onto its own drive.
//!
//! The model covers drive prefixes; other Windows prefixes (`\\server\share`,
//! `\\?\`) are read as rooted paths without a drive.

use vstd::prelude::*;
use crate::path::names_view;
use crate::path_model::{dot, finish_piece};
use crate::text::{chars_extend, chars_of, chars_skip, string_from_chars};

verus! {

/// A Windows component separator.
pub open spec fn is_win_sep(c: char) -> bool {
    c == '\\' || c == '/'
}

/// A letter that can name a drive.
pub open spec fn is_drive_letter(c: char) -> bool {
    ('a' <= c && c <= 'z') || ('A' <= c && c <= 'Z')
}

/// Whether the path starts with a drive prefix such as `C:`.
pub open spec fn has_drive(s: Seq<char>) -> bool {
    s.len() >= 2 && is_drive_letter(s[0]) && s[1] == ':'
}

/// The length of the drive prefix: 2 with a drive, 0 without.
pub open spec fn drive_len(s: Seq<char>) -> int {
    if has_drive(s) {
        2
    } else {
        0
    }
}

/// The path after its drive prefix.
pub open spec fn after_drive(s: Seq<char>) -> Seq<char> {
    s.skip(drive_len(s))
}

/// Whether the path has a root: a separator right after the drive prefix
/// (or at the start, without one).
pub open spec fn win_rooted(s: Seq<char>) -> bool {
    after_drive(s).len() > 0 && is_win_sep(after_drive(s)[0])
}

/// Left-to-right scan with Windows separators: the names closed so far and
/// the piece still being read.
pub open spec fn win_scan(s: Seq<char>) -> (Seq<Seq<char>>, Seq<char>)
    decreases s.len(),
{
    if s.len() == 0 {
        (seq![], seq![])
    } else {
        let prev = win_scan(s.drop_last());
        if is_win_sep(s.last()) {
            (finish_piece(prev.0, prev.1), seq![])
        } else {
            (prev.0, prev.1.push(s.last()))
        }
    }
}

/// The names of a prefix-free path: its pieces between separators, with empty
/// pieces and `.` pieces left out and `..` kept.
pub open spec fn win_names(s: Seq<char>) -> Seq<Seq<char>> {
    finish_piece(win_scan(s).0, win_scan(s).1)
}

/// Whether an unrooted prefix-free path starts with the current directory
/// `.` as a component of its own.
pub open spec fn leading_cur_dir(r: Seq<char>) -> bool {
    r.len() > 0 && r[0] == '.' && (r.len() == 1 || is_win_sep(r[1]))
}

/// The components of a path after its drive and root: a leading `.` when
/// the path is unrooted and starts with one, then its names.
pub open spec fn win_rel_components(s: Seq<char>) -> Seq<Seq<char>> {
    let r = after_drive(s);
    if !win_rooted(s) && leading_cur_dir(r) {
        seq![dot()] + win_names(r)
    } else {
        win_names(r)
    }
}

/// Components joined with single `\` separators.
pub open spec fn win_join_names(cs: Seq<Seq<char>>) -> Seq<char>
    decreases cs.len(),
{
    if cs.len() == 0 {
        seq![]
    } else if cs.len() == 1 {
        cs[0]
    } else {
        win_join_names(cs.drop_last()) + seq!['\\'] + cs.last()
    }
}

/// `base.join(path)` on Windows: a path with a drive replaces the base; a
/// rooted path keeps only the base's drive; otherwise `\` is inserted when
/// the base is non-empty, does not end with a separator and is not a bare
/// drive.
pub open spec fn win_joined(path: Seq<char>, base: Seq<char>) -> Seq<char> {
    if has_drive(path) {
        path
    } else if win_rooted(path) {
        base.take(drive_len(base)) + path
    } else if base.len() > 0 && !is_win_sep(base.last()) && !(has_drive(base) && base.len()
        == 2) {
        base + seq!['\\'] + path
    } else {
        base + path
    }
}

/// A path placed under a base on Windows. A rooted path, or one without a
/// drive, is joined onto the base. A drive-relative path takes the base's
/// root and components onto its own drive and appends its own; a bare drive
/// such as `C:` becomes the drive's root `C:\`.
pub open spec fn win_path_with_base(path: Seq<char>, base: Seq<char>) -> Seq<char> {
    if win_rooted(path) || !has_drive(path) {
        win_joined(path, base)
    } else {
        let cs = win_rel_components(path);
        if cs.len() == 0 {
            path.take(2) + seq!['\\']
        } else {
            let root = if win_rooted(base) {
                seq!['\\']
            } else {
                Seq::<char>::empty()
            };
            path.take(2) + root + win_join_names(win_rel_components(base) + cs)
        }
    }
}

fn is_win_sep_char(c: char) -> (r: bool)
    ensures
        r == is_win_sep(c),
{
    c == '\\' || c == '/'
}

fn has_drive_chars(s: &Vec<char>) -> (r: bool)
    ensures
        r == has_drive(s@),
{
    s.len() >= 2 && ((s[0] >= 'a' && s[0] <= 'z') || (s[0] >= 'A' && s[0] <= 'Z')) && s[1] == ':'
}

fn after_drive_chars(s: &Vec<char>) -> (r: Vec<char>)
    ensures
        r@ == after_drive(s@),
{
    if has_drive_chars(s) {
        chars_skip(s, 2)
    } else {
        chars_skip(s, 0)
    }
}

fn win_rooted_chars(s: &Vec<char>) -> (r: bool)
    ensures
        r == win_rooted(s@),
{
    let a = after_drive_chars(s);
    a.len() > 0 && is_win_sep_char(a[0])
}

/// Closes the piece `cur` into the name list `cs`.
fn close_name(cs: &mut Vec<Vec<char>>, cur: Vec<char>)
    ensures
        names_view(final(cs)@) == finish_piece(names_view(old(cs)@), cur@),
{
    if cur.len() == 0 || (cur.len() == 1 && cur[0] == '.') {
        if cur.len() == 1 {
            assert(cur@ =~= dot());
        }
        return;
    }
    assert(cur@ != dot());
    let ghost c = cur@;
    cs.push(cur);
    assert(names_view(cs@) =~= names_view(old(cs)@).push(c));
}

fn win_names_chars(s: &Vec<char>) -> (cs: Vec<Vec<char>>)
    ensures
        names_view(cs@) == win_names(s@),
{
    let mut cs: Vec<Vec<char>> = Vec::new();
    let mut cur: Vec<char> = Vec::new();
    let mut i: usize = 0;
    assert(s@.take(0) =~= Seq::<char>::empty());
    assert(names_view(cs@) =~= Seq::<Seq<char>>::empty());
    while i < s.len()
        invariant
            i <= s@.len(),
            win_scan(s@.take(i as int)).1 == cur@,
            names_view(cs@) == win_scan(s@.take(i as int)).0,
        decreases s@.len() - i,
    {
        let c = s[i];
        assert(s@.take(i + 1).drop_last() =~= s@.take(i as int));
        assert(s@.take(i + 1).last() == c);
        if is_win_sep_char(c) {
            let piece = cur;
            cur = Vec::new();
            close_name(&mut cs, piece);
            assert(cur@ =~= Seq::<char>::empty());
        } else {
            cur.push(c);
        }
        i = i + 1;
    }
    assert(s@.take(s@.len() as int) =~= s@);
    close_name(&mut cs, cur);
    cs
}

fn copy_chars(v: &Vec<char>) -> (r: Vec<char>)
    ensures
        r@ == v@,
{
    let r = chars_skip(v, 0);
    assert(v@.skip(0) =~= v@);
    r
}

fn win_rel_components_chars(s: &Vec<char>) -> (cs: Vec<Vec<char>>)
    ensures
        names_view(cs@) == win_rel_components(s@),
{
    let r = after_drive_chars(s);
    let names = win_names_chars(&r);
    let rooted = win_rooted_chars(s);
    if !rooted && r.len() > 0 && r[0] == '.' && (r.len() == 1 || is_win_sep_char(r[1])) {
        let mut cs: Vec<Vec<char>> = Vec::new();
        let d = vec!['.'];
        assert(d@ =~= dot());
        cs.push(d);
        let mut i: usize = 0;
        assert(names_view(cs@) =~= seq![dot()] + names_view(names@).take(0));
        while i < names.len()
            invariant
                i <= names@.len(),
                names_view(cs@) == seq![dot()] + names_view(names@).take(i as int),
            decreases names@.len() - i,
        {
            let ghost before = cs@;
            let n = copy_chars(&names[i]);
            cs.push(n);
            assert(names_view(cs@) =~= names_view(before).push(names@[i as int]@));
            assert(names_view(names@).take(i + 1) =~= names_view(names@).take(i as int).push(
                names@[i as int]@,
            ));
            assert(names_view(cs@) =~= seq![dot()] + names_view(names@).take(i + 1));
            i = i + 1;
        }
        assert(names_view(names@).take(names@.len() as int) =~= names_view(names@));
        cs
    } else {
        names
    }
}

/// Writes `cs` after `out`, separated by `\`.
fn push_joined(out: &mut Vec<char>, cs: &Vec<Vec<char>>)
    ensures
        final(out)@ == old(out)@ + win_join_names(names_view(cs@)),
{
    let ghost names = names_view(cs@);
    let ghost start = out@;
    let mut i: usize = 0;
    assert(names.take(0) =~= Seq::<Seq<char>>::empty());
    assert(out@ =~= start + win_join_names(names.take(0)));
    while i < cs.len()
        invariant
            i <= cs@.len(),
            names == names_view(cs@),
            out@ == start + win_join_names(names.take(i as int)),
        decreases cs@.len() - i,
    {
        if i > 0 {
            out.push('\\');
        }
        chars_extend(out, &cs[i]);
        proof {
            let t = names.take(i + 1);
            assert(t.drop_last() =~= names.take(i as int));
            assert(t.last() == cs@[i as int]@);
            if i == 0 {
                assert(win_join_names(t) == t[0]);
                assert(win_join_names(names.take(0)) =~= Seq::<char>::empty());
            }
            assert(out@ =~= start + win_join_names(t));
        }
        i = i + 1;
    }
    assert(names.take(cs@.len() as int) =~= names);
}

fn win_joined_chars(path: &Vec<char>, base: &Vec<char>) -> (r: Vec<char>)
    ensures
        r@ == win_joined(path@, base@),
{
    if has_drive_chars(path) {
        return path.clone();
    }
    if win_rooted_chars(path) {
        let mut r: Vec<char> = Vec::new();
        if has_drive_chars(base) {
            r.push(base[0]);
            r.push(base[1]);
            assert(r@ =~= base@.take(2));
        } else {
            assert(r@ =~= base@.take(0));
        }
        chars_extend(&mut r, path);
        return r;
    }
    let mut r = base.clone();
    if base.len() > 0 && !is_win_sep_char(base[base.len() - 1]) && !(has_drive_chars(base)
        && base.len() == 2) {
        r.push('\\');
    }
    chars_extend(&mut r, path);
    r
}

/// `path` placed under `base_path` on Windows, as
/// [`win_path_with_base`] states it: `C:foo` under `D:\base` is
/// `C:\base\foo`, `C:` is `C:\`, and `x` is `D:\base\x`.
pub fn path_with_base_windows(path: &str, base_path: &str) -> (r: String)
    ensures
        r@ == win_path_with_base(path@, base_path@),
{
    let p = chars_of(path);
    let b = chars_of(base_path);
    if win_rooted_chars(&p) || !has_drive_chars(&p) {
        return string_from_chars(win_joined_chars(&p, &b));
    }
    let cs = win_rel_components_chars(&p);
    let mut out: Vec<char> = Vec::new();
    out.push(p[0]);
    out.push(p[1]);
    assert(out@ =~= p@.take(2));
    if cs.len() == 0 {
        out.push('\\');
        return string_from_chars(out);
    }
    if win_rooted_chars(&b) {
        out.push('\\');
    }
    let mut all = win_rel_components_chars(&b);
    let ghost base_cs = names_view(all@);
    let mut i: usize = 0;
    assert(names_view(all@) =~= base_cs + names_view(cs@).take(0));
    while i < cs.len()
        invariant
            i <= cs@.len(),
            names_view(all@) == base_cs + names_view(cs@).take(i as int),
        decreases cs@.len() - i,
    {
        let ghost before = all@;
        let n = copy_chars(&cs[i]);
        all.push(n);
        assert(names_view(all@) =~= names_view(before).push(cs@[i as int]@));
        assert(names_view(cs@).take(i + 1) =~= names_view(cs@).take(i as int).push(
            cs@[i as int]@,
        ));
        assert(names_view(all@) =~= base_cs + names_view(cs@).take(i + 1));
        i = i + 1;
    }
    assert(names_view(cs@).take(cs@.len() as int) =~= names_view(cs@));
    push_joined(&mut out, &all);
    proof {
        let root = if win_rooted(base_path@) {
            seq!['\\']
        } else {
            Seq::<char>::empty()
        };
        assert(out@ =~= path@.take(2) + root + win_join_names(
            win_rel_components(base_path@) + win_rel_components(path@),
        ));
    }
    string_from_chars(out)
}

/// A path placed under a base keeps the path's own drive; a bare drive such
/// as `C:` becomes that drive's root; a path with a drive and a root is
/// kept as it is; a rooted path without a drive takes only the base's drive;
/// and a path with neither is written after the whole base.
pub proof fn law_path_with_base_keeps_drive(path: Seq<char>, base: Seq<char>)
    ensures
        has_drive(path) ==> win_path_with_base(path, base).take(2) == path.take(2),
        has_drive(path) && path.len() == 2 ==> win_path_with_base(path, base) == path + seq!['\\'],
        has_drive(path) && win_rooted(path) ==> win_path_with_base(path, base) == path,
        !has_drive(path) && win_rooted(path) ==> win_path_with_base(path, base) == base.take(
            drive_len(base),
        ) + path,
        !has_drive(path) && !win_rooted(path) ==> win_path_with_base(path, base).take(
            base.len() as int,
        ) == base,
{
    let r = win_path_with_base(path, base);
    if has_drive(path) && !win_rooted(path) {
        let cs = win_rel_components(path);
        if cs.len() == 0 {
            assert((path.take(2) + seq!['\\']).take(2) =~= path.take(2));
        } else {
            let root = if win_rooted(base) {
                seq!['\\']
            } else {
                Seq::<char>::empty()
            };
            let rest = root + win_join_names(win_rel_components(base) + cs);
            assert(r == path.take(2) + rest);
            assert((path.take(2) + rest).take(2) =~= path.take(2));
        }
        if path.len() == 2 {
            assert(after_drive(path).len() == 0);
            assert(win_scan(after_drive(path)) == (Seq::<Seq<char>>::empty(), Seq::<char>::empty()));
            assert(cs.len() == 0);
            assert(path.take(2) =~= path);
        }
    }
    if has_drive(path) && win_rooted(path) {
        assert(r.take(2) =~= path.take(2));
    }
    if !has_drive(path) && !win_rooted(path) {
        if base.len() > 0 && !is_win_sep(base.last()) && !(has_drive(base) && base.len() == 2) {
            assert((base + seq!['\\'] + path).take(base.len() as int) =~= base);
        } else {
            assert((base + path).take(base.len() as int) =~= base);
        }
    }
}

} // verus!
