//! The mathematical model of Unix path strings: how a path splits into
//! components, how `.` and `..` resolve, and how a component list is written
//! back as a string.

use vstd::prelude::*;

verus! {

/// The separator of path components.
pub open spec fn is_sep(c: char) -> bool {
    c == '/'
}

/// The component `..`.
pub open spec fn dot_dot() -> Seq<char> {
    seq!['.', '.']
}

/// The component `.`.
pub open spec fn dot() -> Seq<char> {
    seq!['.']
}

/// Whether a path has a root, i.e. is absolute on Unix.
pub open spec fn has_root(s: Seq<char>) -> bool {
    s.len() > 0 && is_sep(s[0])
}

/// Closes the piece `cur` that ended at a separator (or at the end of the
/// path): empty pieces and `.` pieces carry no component.
pub open spec fn finish_piece(ps: Seq<Seq<char>>, cur: Seq<char>) -> Seq<Seq<char>> {
    if cur.len() == 0 || cur == dot() {
        ps
    } else {
        ps.push(cur)
    }
}

/// Left-to-right scan of a path: the components closed so far and the piece
/// still being read.
pub open spec fn scan(s: Seq<char>) -> (Seq<Seq<char>>, Seq<char>)
    decreases s.len(),
{
    if s.len() == 0 {
        (seq![], seq![])
    } else {
        let prev = scan(s.drop_last());
        if is_sep(s.last()) {
            (finish_piece(prev.0, prev.1), seq![])
        } else {
            (prev.0, prev.1.push(s.last()))
        }
    }
}

/// The named components of a path (the root and `.` pieces excluded; `..`
/// kept), as `std::path::Path::components` yields them on Unix.
pub open spec fn components(s: Seq<char>) -> Seq<Seq<char>> {
    finish_piece(scan(s).0, scan(s).1)
}

/// One step of lexical resolution: `..` drops the last name (if any), any
/// other name is appended.
pub open spec fn resolve_step(st: Seq<Seq<char>>, name: Seq<char>) -> Seq<Seq<char>> {
    if name == dot_dot() {
        if st.len() > 0 {
            st.drop_last()
        } else {
            st
        }
    } else {
        st.push(name)
    }
}

/// Lexical resolution of a component list.
pub open spec fn resolve(cs: Seq<Seq<char>>) -> Seq<Seq<char>>
    decreases cs.len(),
{
    if cs.len() == 0 {
        seq![]
    } else {
        resolve_step(resolve(cs.drop_last()), cs.last())
    }
}

/// Components joined with single separators.
pub open spec fn join_names(cs: Seq<Seq<char>>) -> Seq<char>
    decreases cs.len(),
{
    if cs.len() == 0 {
        seq![]
    } else if cs.len() == 1 {
        cs[0]
    } else {
        join_names(cs.drop_last()) + seq!['/'] + cs.last()
    }
}

/// A component list written back as a path, with a leading root when `rooted`.
pub open spec fn render(rooted: bool, cs: Seq<Seq<char>>) -> Seq<char> {
    if rooted {
        seq!['/'] + join_names(cs)
    } else {
        join_names(cs)
    }
}

/// Lexical normalization: drop `.`, resolve `..`, collapse separators; an
/// empty relative result is written `.`.
pub open spec fn normalize(s: Seq<char>) -> Seq<char> {
    let cs = resolve(components(s));
    if !has_root(s) && cs.len() == 0 {
        dot()
    } else {
        render(has_root(s), cs)
    }
}

/// `base.join(path)` followed by nothing else: an absolute `path` replaces
/// the base; otherwise a separator is inserted when the base is non-empty and
/// does not already end with one.
pub open spec fn joined_path(path: Seq<char>, base: Seq<char>) -> Seq<char> {
    if has_root(path) {
        path
    } else if base.len() > 0 && !is_sep(base.last()) {
        base + seq!['/'] + path
    } else {
        base + path
    }
}

/// Normalization of `path` resolved against `base`.
pub open spec fn absolutized(path: Seq<char>, base: Seq<char>) -> Seq<char> {
    normalize(joined_path(path, base))
}

/// A component name as it can appear inside a component list: non-empty,
/// free of separators, not `.`.
pub open spec fn is_name(n: Seq<char>) -> bool {
    &&& n.len() > 0
    &&& forall|i: int| 0 <= i < n.len() ==> !is_sep(#[trigger] n[i])
    &&& n != dot()
}

/// A name that is also not `..`.
pub open spec fn is_plain_name(n: Seq<char>) -> bool {
    is_name(n) && n != dot_dot()
}

pub open spec fn all_names(cs: Seq<Seq<char>>) -> bool {
    forall|i: int| 0 <= i < cs.len() ==> is_name(#[trigger] cs[i])
}

pub open spec fn all_plain_names(cs: Seq<Seq<char>>) -> bool {
    forall|i: int| 0 <= i < cs.len() ==> is_plain_name(#[trigger] cs[i])
}

/// A path already in normal form.
pub open spec fn is_normalized(s: Seq<char>) -> bool {
    normalize(s) == s
}

/// The final component of a path, if it is a name (not `..`), as
/// `std::path::Path::file_name` gives it on Unix.
pub open spec fn file_name(s: Seq<char>) -> Option<Seq<char>> {
    let cs = components(s);
    if cs.len() == 0 || cs.last() == dot_dot() {
        None
    } else {
        Some(cs.last())
    }
}

/// `path` lies at or below `root` (`path` absolute; compared by components).
pub open spec fn path_within(path: Seq<char>, root: Seq<char>) -> bool {
    let pc = components(path);
    let rc = components(root);
    &&& has_root(path)
    &&& rc.len() <= pc.len()
    &&& pc.take(rc.len() as int) == rc
}

// ----------------------------------------------------------------------------
// Lemmas
// ----------------------------------------------------------------------------

/// Scanning separator-free characters only extends the current piece.
pub proof fn lemma_scan_append_plain(p: Seq<char>, q: Seq<char>)
    requires
        forall|i: int| 0 <= i < q.len() ==> !is_sep(#[trigger] q[i]),
    ensures
        scan(p + q) == (scan(p).0, scan(p).1 + q),
    decreases q.len(),
{
    if q.len() == 0 {
        assert(p + q =~= p);
        assert(scan(p).1 + q =~= scan(p).1);
    } else {
        let q0 = q.drop_last();
        lemma_scan_append_plain(p, q0);
        assert((p + q).drop_last() =~= p + q0);
        assert((p + q).last() == q.last());
        assert(scan(p).1 + q0 + seq![q.last()] =~= scan(p).1 + q);
        assert((scan(p).1 + q0).push(q.last()) =~= scan(p).1 + q);
    }
}

/// Scanning a separator closes the current piece.
pub proof fn lemma_scan_append_sep(p: Seq<char>)
    ensures
        scan(p + seq!['/']) == (finish_piece(scan(p).0, scan(p).1), Seq::<char>::empty()),
{
    assert((p + seq!['/']).drop_last() =~= p);
}

/// The scan of a rendered name list ends with the last name as open piece.
proof fn lemma_scan_join(prefix: Seq<char>, cs: Seq<Seq<char>>)
    requires
        cs.len() > 0,
        all_names(cs),
        scan(prefix).1.len() == 0,
    ensures
        scan(prefix + join_names(cs)) == (scan(prefix).0 + cs.drop_last(), cs.last()),
    decreases cs.len(),
{
    if cs.len() == 1 {
        assert(is_name(cs[0]));
        lemma_scan_append_plain(prefix, cs[0]);
        assert(scan(prefix).1 + cs[0] =~= cs[0]);
        assert(scan(prefix).0 + cs.drop_last() =~= scan(prefix).0);
    } else {
        let init = cs.drop_last();
        assert forall|i: int| 0 <= i < init.len() implies is_name(#[trigger] init[i]) by {
            assert(init[i] == cs[i]);
        }
        lemma_scan_join(prefix, init);
        let a = prefix + join_names(init);
        lemma_scan_append_sep(a);
        let b = a + seq!['/'];
        assert(is_name(cs.last()));
        assert(is_name(init.last()));
        lemma_scan_append_plain(b, cs.last());
        assert(prefix + join_names(cs) =~= b + cs.last());
        assert(scan(b).1 + cs.last() =~= cs.last());
        assert(init.last() != dot() && init.last().len() > 0);
        assert(finish_piece(scan(prefix).0 + init.drop_last(), init.last()) =~= scan(prefix).0
            + init.drop_last().push(init.last()));
        assert(init.drop_last().push(init.last()) =~= init);
        assert(cs.drop_last() =~= init);
    }
}

/// Rendering a list of names and splitting it again gives back the list.
pub proof fn lemma_components_render(rooted: bool, cs: Seq<Seq<char>>)
    requires
        all_names(cs),
    ensures
        components(render(rooted, cs)) == cs,
{
    let prefix: Seq<char> = if rooted {
        seq!['/']
    } else {
        seq![]
    };
    if rooted {
        lemma_scan_append_sep(Seq::<char>::empty());
        assert(Seq::<char>::empty() + seq!['/'] =~= seq!['/']);
        assert(scan(Seq::<char>::empty()) == (Seq::<Seq<char>>::empty(), Seq::<char>::empty()));
    }
    assert(scan(prefix).0.len() == 0 && scan(prefix).1.len() == 0);
    if cs.len() == 0 {
        assert(render(rooted, cs) =~= prefix);
        assert(components(prefix) =~= cs);
    } else {
        lemma_scan_join(prefix, cs);
        assert(render(rooted, cs) =~= prefix + join_names(cs));
        assert(is_name(cs.last()));
        assert(scan(prefix).0 + cs.drop_last() =~= cs.drop_last());
        assert(cs.drop_last().push(cs.last()) =~= cs);
    }
}

/// Components are names.
pub proof fn lemma_scan_names(s: Seq<char>)
    ensures
        all_names(scan(s).0),
        forall|i: int| 0 <= i < scan(s).1.len() ==> !is_sep(#[trigger] scan(s).1[i]),
        all_names(components(s)),
    decreases s.len(),
{
    if s.len() > 0 {
        lemma_scan_names(s.drop_last());
        let prev = scan(s.drop_last());
        if !is_sep(s.last()) {
            assert forall|i: int| 0 <= i < prev.1.push(s.last()).len() implies !is_sep(
                #[trigger] prev.1.push(s.last())[i],
            ) by {
                if i < prev.1.len() {
                    assert(prev.1.push(s.last())[i] == prev.1[i]);
                }
            }
        }
    }
}

/// Resolution keeps only names, and never `..`.
pub proof fn lemma_resolve_plain(cs: Seq<Seq<char>>)
    requires
        all_names(cs),
    ensures
        all_plain_names(resolve(cs)),
    decreases cs.len(),
{
    if cs.len() > 0 {
        let init = cs.drop_last();
        assert forall|i: int| 0 <= i < init.len() implies is_name(#[trigger] init[i]) by {
            assert(init[i] == cs[i]);
        }
        lemma_resolve_plain(init);
        assert(is_name(cs.last()));
        let st = resolve(init);
        if cs.last() == dot_dot() {
            if st.len() > 0 {
                assert forall|i: int| 0 <= i < st.drop_last().len() implies is_plain_name(
                    #[trigger] st.drop_last()[i],
                ) by {
                    assert(st.drop_last()[i] == st[i]);
                }
            }
        } else {
            assert forall|i: int| 0 <= i < st.push(cs.last()).len() implies is_plain_name(
                #[trigger] st.push(cs.last())[i],
            ) by {
                if i < st.len() {
                    assert(st.push(cs.last())[i] == st[i]);
                }
            }
        }
    }
}

/// A list without `..` resolves to itself.
pub proof fn lemma_resolve_identity(cs: Seq<Seq<char>>)
    requires
        all_plain_names(cs),
    ensures
        resolve(cs) == cs,
    decreases cs.len(),
{
    if cs.len() > 0 {
        let init = cs.drop_last();
        assert forall|i: int| 0 <= i < init.len() implies is_plain_name(#[trigger] init[i]) by {
            assert(init[i] == cs[i]);
        }
        lemma_resolve_identity(init);
        assert(is_plain_name(cs.last()));
        assert(init.push(cs.last()) =~= cs);
    }
}

/// A rendered list of names starts with a separator exactly when rooted
/// (or when the list is empty and unrooted, it is empty).
pub proof fn lemma_render_root(rooted: bool, cs: Seq<Seq<char>>)
    requires
        all_names(cs),
    ensures
        has_root(render(rooted, cs)) == (rooted || false),
        !rooted && cs.len() > 0 ==> render(rooted, cs).len() > 0,
        !rooted && cs.len() == 0 ==> render(rooted, cs).len() == 0,
    decreases cs.len(),
{
    if !rooted && cs.len() > 0 {
        lemma_join_first(cs);
        assert(is_name(cs[0]));
        assert(!is_sep(cs[0][0]));
    }
    if rooted {
        assert(render(rooted, cs)[0] == '/');
    }
}

/// The rendering of a non-empty list starts with the first name.
proof fn lemma_join_first(cs: Seq<Seq<char>>)
    requires
        cs.len() > 0,
        all_names(cs),
    ensures
        join_names(cs).len() > 0,
        join_names(cs)[0] == cs[0][0],
    decreases cs.len(),
{
    assert(is_name(cs[0]));
    if cs.len() > 1 {
        let init = cs.drop_last();
        assert forall|i: int| 0 <= i < init.len() implies is_name(#[trigger] init[i]) by {
            assert(init[i] == cs[i]);
        }
        lemma_join_first(init);
        assert(init[0] == cs[0]);
    }
}

/// `.` has no components.
pub proof fn lemma_components_dot()
    ensures
        components(dot()) == Seq::<Seq<char>>::empty(),
        !has_root(dot()),
{
    let e = Seq::<char>::empty();
    lemma_scan_append_plain(e, dot());
    assert(e + dot() =~= dot());
    assert(scan(e).1 + dot() =~= dot());
}

/// Normalization is idempotent.
pub proof fn lemma_normalize_idempotent(s: Seq<char>)
    ensures
        normalize(normalize(s)) == normalize(s),
        has_root(normalize(s)) == has_root(s),
{
    let cs = resolve(components(s));
    lemma_scan_names(s);
    lemma_resolve_plain(components(s));
    assert(all_names(cs));
    if !has_root(s) && cs.len() == 0 {
        lemma_components_dot();
    } else {
        let n = render(has_root(s), cs);
        lemma_components_render(has_root(s), cs);
        lemma_resolve_identity(cs);
        lemma_render_root(has_root(s), cs);
    }
}

/// A normalized path is rendered from plain names (or is `.`).
pub proof fn lemma_normalize_shape(s: Seq<char>)
    ensures
        all_plain_names(resolve(components(s))),
        components(normalize(s)) == resolve(components(s)),
{
    lemma_scan_names(s);
    lemma_resolve_plain(components(s));
    let cs = resolve(components(s));
    if !has_root(s) && cs.len() == 0 {
        lemma_components_dot();
    } else {
        lemma_components_render(has_root(s), cs);
    }
}

} // verus!
