//! Path types used by the sandbox: [`AbsolutePathBuf`], a path kept in
//! lexically normalized form, and the normalization itself.
//!
//! Paths follow Unix conventions: `/` separates components and a leading `/`
//! is the root. Resolution is purely lexical: nothing here touches the file
//! system.

use vstd::prelude::*;
use crate::error::SandboxError;
use crate::path_model::{
    absolutized, all_plain_names, components, dot, dot_dot, has_root, is_plain_name,
    lemma_components_dot, lemma_components_render, lemma_normalize_shape, lemma_render_root,
    lemma_resolve_identity, normalize, joined_path, render, resolve, resolve_step, scan,
    finish_piece, join_names, is_sep, path_within,
};
use crate::text::{chars_eq, chars_extend, chars_of, chars_skip, chars_start_with, string_from_chars};

verus! {

/// The character view of a list of component buffers.
pub open spec fn names_view(v: Seq<Vec<char>>) -> Seq<Seq<char>> {
    v.map_values(|x: Vec<char>| x@)
}

/// Resolution of a list of names extended by a closed piece.
pub open spec fn resolve_piece(st: Seq<Seq<char>>, cur: Seq<char>) -> Seq<Seq<char>> {
    if cur.len() == 0 || cur == dot() {
        st
    } else {
        resolve_step(st, cur)
    }
}

proof fn lemma_resolve_finish(ps: Seq<Seq<char>>, cur: Seq<char>)
    ensures
        resolve(finish_piece(ps, cur)) == resolve_piece(resolve(ps), cur),
{
    if !(cur.len() == 0 || cur == dot()) {
        assert(ps.push(cur).drop_last() =~= ps);
    }
}

fn is_dot_chars(v: &Vec<char>) -> (r: bool)
    ensures
        r == (v@ == dot()),
{
    if v.len() == 1 && v[0] == '.' {
        assert(v@ =~= dot());
        true
    } else {
        false
    }
}

fn is_dot_dot_chars(v: &Vec<char>) -> (r: bool)
    ensures
        r == (v@ == dot_dot()),
{
    if v.len() == 2 && v[0] == '.' && v[1] == '.' {
        assert(v@ =~= dot_dot());
        true
    } else {
        false
    }
}

/// Closes the piece `cur` into the resolved stack `st`.
fn close_piece(st: &mut Vec<Vec<char>>, cur: Vec<char>)
    ensures
        names_view(final(st)@) == resolve_piece(names_view(old(st)@), cur@),
{
    if cur.len() == 0 || is_dot_chars(&cur) {
        return;
    }
    if is_dot_dot_chars(&cur) {
        if st.len() > 0 {
            let _ = st.pop();
            assert(names_view(st@) =~= names_view(old(st)@).drop_last());
        }
    } else {
        let ghost c = cur@;
        st.push(cur);
        assert(names_view(st@) =~= names_view(old(st)@).push(c));
    }
}

/// Splits a path into its components and resolves `.` and `..` lexically.
fn resolved_components(s: &Vec<char>) -> (st: Vec<Vec<char>>)
    ensures
        names_view(st@) == resolve(components(s@)),
{
    let mut st: Vec<Vec<char>> = Vec::new();
    let mut cur: Vec<char> = Vec::new();
    let mut i: usize = 0;
    assert(s@.take(0) =~= Seq::<char>::empty());
    assert(names_view(st@) =~= Seq::<Seq<char>>::empty());
    while i < s.len()
        invariant
            i <= s@.len(),
            scan(s@.take(i as int)).1 == cur@,
            names_view(st@) == resolve(scan(s@.take(i as int)).0),
        decreases s@.len() - i,
    {
        let c = s[i];
        let ghost prev = scan(s@.take(i as int));
        assert(s@.take(i + 1).drop_last() =~= s@.take(i as int));
        assert(s@.take(i + 1).last() == c);
        if c == '/' {
            proof {
                lemma_resolve_finish(prev.0, prev.1);
            }
            let piece = cur;
            cur = Vec::new();
            close_piece(&mut st, piece);
            assert(cur@ =~= Seq::<char>::empty());
        } else {
            cur.push(c);
        }
        i = i + 1;
    }
    assert(s@.take(s@.len() as int) =~= s@);
    proof {
        lemma_resolve_finish(scan(s@).0, scan(s@).1);
    }
    close_piece(&mut st, cur);
    st
}

/// Closes the piece `cur` into the component list `cs`.
fn push_piece(cs: &mut Vec<Vec<char>>, cur: Vec<char>)
    ensures
        names_view(final(cs)@) == finish_piece(names_view(old(cs)@), cur@),
{
    if cur.len() == 0 || is_dot_chars(&cur) {
        return;
    }
    let ghost c = cur@;
    cs.push(cur);
    assert(names_view(cs@) =~= names_view(old(cs)@).push(c));
}

/// Splits a path into its components (`..` kept).
fn raw_components(s: &Vec<char>) -> (cs: Vec<Vec<char>>)
    ensures
        names_view(cs@) == components(s@),
{
    let mut cs: Vec<Vec<char>> = Vec::new();
    let mut cur: Vec<char> = Vec::new();
    let mut i: usize = 0;
    assert(s@.take(0) =~= Seq::<char>::empty());
    assert(names_view(cs@) =~= Seq::<Seq<char>>::empty());
    while i < s.len()
        invariant
            i <= s@.len(),
            scan(s@.take(i as int)).1 == cur@,
            names_view(cs@) == scan(s@.take(i as int)).0,
        decreases s@.len() - i,
    {
        let c = s[i];
        assert(s@.take(i + 1).drop_last() =~= s@.take(i as int));
        assert(s@.take(i + 1).last() == c);
        if c == '/' {
            let piece = cur;
            cur = Vec::new();
            push_piece(&mut cs, piece);
            assert(cur@ =~= Seq::<char>::empty());
        } else {
            cur.push(c);
        }
        i = i + 1;
    }
    assert(s@.take(s@.len() as int) =~= s@);
    push_piece(&mut cs, cur);
    cs
}

/// The final component of `path` when it is a name (`Path::file_name`).
pub fn file_name(path: &str) -> (r: Option<String>)
    ensures
        r matches Some(n) ==> crate::path_model::file_name(path@) == Some(n@),
        r is None ==> crate::path_model::file_name(path@) is None,
{
    let mut cs = raw_components(&chars_of(path));
    if cs.len() == 0 {
        return None;
    }
    let ghost v = names_view(cs@);
    let last = cs.pop().unwrap();
    assert(last@ == v.last());
    if is_dot_dot_chars(&last) {
        return None;
    }
    Some(string_from_chars(last))
}

/// Writes a list of names back as a path.
fn render_chars(rooted: bool, st: &Vec<Vec<char>>) -> (out: Vec<char>)
    ensures
        out@ == render(rooted, names_view(st@)),
{
    let ghost names = names_view(st@);
    let mut out: Vec<char> = Vec::new();
    if rooted {
        out.push('/');
    }
    let mut i: usize = 0;
    assert(names.take(0) =~= Seq::<Seq<char>>::empty());
    assert(out@ =~= render(rooted, names.take(0)));
    while i < st.len()
        invariant
            i <= st@.len(),
            names == names_view(st@),
            out@ == render(rooted, names.take(i as int)),
        decreases st@.len() - i,
    {
        let ghost before = out@;
        if i > 0 {
            out.push('/');
        }
        chars_extend(&mut out, &st[i]);
        proof {
            let t = names.take(i + 1);
            assert(t.drop_last() =~= names.take(i as int));
            assert(t.last() == st@[i as int]@);
            if i == 0 {
                assert(join_names(t) == t[0]);
                assert(join_names(names.take(0)) =~= Seq::<char>::empty());
            }
            if rooted {
                assert(out@ =~= seq!['/'] + join_names(t));
            } else {
                assert(out@ =~= join_names(t));
            }
        }
        i = i + 1;
    }
    assert(names.take(st@.len() as int) =~= names);
    out
}

fn has_root_chars(s: &Vec<char>) -> (r: bool)
    ensures
        r == has_root(s@),
{
    s.len() > 0 && s[0] == '/'
}

/// Lexical normalization of a path.
pub fn normalize_chars(s: &Vec<char>) -> (r: Vec<char>)
    ensures
        r@ == normalize(s@),
{
    let rooted = has_root_chars(s);
    let st = resolved_components(s);
    if !rooted && st.len() == 0 {
        let r = vec!['.'];
        assert(r@ =~= dot());
        r
    } else {
        render_chars(rooted, &st)
    }
}

/// `base.join(path)`: an absolute `path` replaces `base`.
pub fn path_with_base_chars(path: &Vec<char>, base: &Vec<char>) -> (r: Vec<char>)
    ensures
        r@ == joined_path(path@, base@),
{
    if has_root_chars(path) {
        return path.clone();
    }
    let mut r = base.clone();
    if base.len() > 0 && base[base.len() - 1] != '/' {
        r.push('/');
    }
    chars_extend(&mut r, path);
    r
}

/// Lexical normalization of `path`, as a string.
pub fn normalize_path(path: &str) -> (r: String)
    ensures
        r@ == normalize(path@),
{
    string_from_chars(normalize_chars(&chars_of(path)))
}

/// `path` resolved against `base_path` and normalized.
pub fn absolutize_from(path: &str, base_path: &str) -> (r: String)
    ensures
        r@ == absolutized(path@, base_path@),
{
    let joined = path_with_base_chars(&chars_of(path), &chars_of(base_path));
    string_from_chars(normalize_chars(&joined))
}

/// `base_path.join(path)`, before normalization.
pub fn path_with_base(path: &str, base_path: &str) -> (r: String)
    ensures
        r@ == joined_path(path@, base_path@),
{
    string_from_chars(path_with_base_chars(&chars_of(path), &chars_of(base_path)))
}

/// Whether `path` is absolute (has a root).
pub fn is_absolute_path(path: &str) -> (r: bool)
    ensures
        r == has_root(path@),
{
    has_root_chars(&chars_of(path))
}

/// The form an [`AbsolutePathBuf`] keeps: rooted, and unchanged by normalization.
pub open spec fn is_absolute_normal(s: Seq<char>) -> bool {
    has_root(s) && normalize(s) == s
}

/// `std::path::Path::parent`: the path without its last component, `None`
/// when there is no component to drop.
pub open spec fn spec_parent(s: Seq<char>) -> Option<Seq<char>> {
    if components(s).len() == 0 {
        None
    } else {
        Some(render(has_root(s), components(s).drop_last()))
    }
}

/// The character views of a list of strings.
pub open spec fn string_seq_view(v: Seq<String>) -> Seq<Seq<char>> {
    v.map_values(|s: String| s@)
}

/// A path joined onto a base has a root exactly when one of them has.
pub proof fn lemma_joined_root(path: Seq<char>, base: Seq<char>)
    ensures
        has_root(joined_path(path, base)) == (has_root(path) || has_root(base)),
        has_root(absolutized(path, base)) == (has_root(path) || has_root(base)),
{
    if !has_root(path) && base.len() > 0 {
        if !is_sep(base.last()) {
            assert((base + seq!['/'] + path)[0] == base[0]);
        } else {
            assert((base + path)[0] == base[0]);
        }
    }
    if !has_root(path) && base.len() == 0 {
        assert(base + path =~= path);
    }
    crate::path_model::lemma_normalize_idempotent(joined_path(path, base));
}

/// A rooted path in normal form is the root followed by plain names.
proof fn lemma_normal_shape(s: Seq<char>)
    requires
        is_absolute_normal(s),
    ensures
        all_plain_names(components(s)),
        s == render(true, components(s)),
{
    lemma_normalize_shape(s);
}

/// The root followed by plain names is a rooted path in normal form.
proof fn lemma_render_normal(cs: Seq<Seq<char>>)
    requires
        all_plain_names(cs),
    ensures
        is_absolute_normal(render(true, cs)),
        components(render(true, cs)) == cs,
{
    lemma_components_render(true, cs);
    lemma_render_root(true, cs);
    lemma_resolve_identity(cs);
}

/// Normalizing a rooted path gives a rooted path in normal form.
proof fn lemma_normalize_absolute(s: Seq<char>)
    requires
        has_root(s),
    ensures
        is_absolute_normal(normalize(s)),
{
    crate::path_model::lemma_normalize_idempotent(s);
}

proof fn lemma_plain_drop_last(cs: Seq<Seq<char>>)
    requires
        all_plain_names(cs),
        cs.len() > 0,
    ensures
        all_plain_names(cs.drop_last()),
{
    assert forall|i: int| 0 <= i < cs.drop_last().len() implies is_plain_name(
        #[trigger] cs.drop_last()[i],
    ) by {
        assert(cs.drop_last()[i] == cs[i]);
    }
}

fn names_to_strings(st: &Vec<Vec<char>>) -> (r: Vec<String>)
    ensures
        string_seq_view(r@) == names_view(st@),
{
    let mut out: Vec<String> = Vec::new();
    let mut i: usize = 0;
    while i < st.len()
        invariant
            i <= st@.len(),
            out@.len() == i,
            forall|j: int| 0 <= j < i ==> #[trigger] out@[j]@ == st@[j]@,
        decreases st@.len() - i,
    {
        out.push(string_from_chars(st[i].clone()));
        i = i + 1;
    }
    assert(string_seq_view(out@) =~= names_view(st@));
    out
}

/// A path that is guaranteed to be absolute and normalized (though not
/// necessarily canonicalized or existing on disk). Paths are ordered by
/// their components, as `std::path::Path` orders them.
#[derive(Debug, Hash, Eq, PartialOrd, Ord)]
pub struct AbsolutePathBuf {
    components: Vec<String>,
    text: String,
}

impl View for AbsolutePathBuf {
    type V = Seq<char>;

    closed spec fn view(&self) -> Seq<char> {
        if is_absolute_normal(self.text@) {
            self.text@
        } else {
            seq!['/']
        }
    }
}

/// Every [`AbsolutePathBuf`] is absolute and in normal form: building it
/// again from its own text gives it back.
pub proof fn law_absolute_normal_form(p: AbsolutePathBuf)
    ensures
        has_root(p@),
        normalize(p@) == p@,
        is_absolute_normal(p@),
{
    if !is_absolute_normal(p.text@) {
        lemma_render_normal(Seq::<Seq<char>>::empty());
        assert(render(true, Seq::<Seq<char>>::empty()) =~= seq!['/']);
    }
}

impl AbsolutePathBuf {
    #[verifier::type_invariant]
    spec fn well_formed(self) -> bool {
        &&& is_absolute_normal(self.text@)
        &&& string_seq_view(self.components@) == components(self.text@)
    }

    fn from_normalized(s: Vec<char>) -> (r: Self)
        requires
            is_absolute_normal(s@),
        ensures
            r@ == s@,
    {
        proof {
            lemma_normal_shape(s@);
            lemma_resolve_identity(components(s@));
        }
        let st = resolved_components(&s);
        let components = names_to_strings(&st);
        AbsolutePathBuf { components, text: string_from_chars(s) }
    }

    /// The path `path`, made absolute against `current_dir` when it is
    /// relative, and normalized.
    pub fn from_absolute_path(path: &str, current_dir: &str) -> (r: Self)
        requires
            has_root(path@) || has_root(current_dir@),
        ensures
            r@ == absolutized(path@, current_dir@),
            has_root(path@) ==> r@ == normalize(path@),
    {
        let joined = path_with_base_chars(&chars_of(path), &chars_of(current_dir));
        let n = normalize_chars(&joined);
        proof {
            lemma_joined_root(path@, current_dir@);
            lemma_normalize_absolute(joined@);
        }
        Self::from_normalized(n)
    }

    /// The path `path` normalized; an error when it is not absolute.
    pub fn from_absolute_path_checked(path: &str) -> (r: Result<Self, SandboxError>)
        ensures
            has_root(path@) <==> r is Ok,
            r matches Ok(p) ==> p@ == normalize(path@),
            r matches Err(e) ==> (e matches SandboxError::NotAbsolutePath(p) && p@ == path@),
    {
        let chars = chars_of(path);
        if !has_root_chars(&chars) {
            return Err(SandboxError::NotAbsolutePath(string_from_chars(chars)));
        }
        let root = vec!['/'];
        let joined = path_with_base_chars(&chars, &root);
        let n = normalize_chars(&joined);
        proof {
            lemma_normalize_absolute(joined@);
        }
        Ok(Self::from_normalized(n))
    }

    /// `path` resolved against the absolute `base_path` (an absolute `path`
    /// replaces the base) and normalized.
    pub fn resolve_path_against_base(path: &str, base_path: &str) -> (r: Self)
        requires
            has_root(path@) || has_root(base_path@),
        ensures
            r@ == absolutized(path@, base_path@),
    {
        let joined = path_with_base_chars(&chars_of(path), &chars_of(base_path));
        let n = normalize_chars(&joined);
        proof {
            lemma_joined_root(path@, base_path@);
            lemma_normalize_absolute(joined@);
        }
        Self::from_normalized(n)
    }

    /// `path` resolved against this path and normalized.
    pub fn join(&self, path: &str) -> (r: Self)
        ensures
            r@ == absolutized(path@, self@),
    {
        proof {
            use_type_invariant(self);
        }
        Self::resolve_path_against_base(path, self.text.as_str())
    }

    /// The path without its final component; `None` for the root.
    pub fn parent(&self) -> (r: Option<Self>)
        ensures
            r matches Some(p) ==> spec_parent(self@) == Some(p@),
            r is None ==> spec_parent(self@) is None,
    {
        proof {
            use_type_invariant(self);
            lemma_normal_shape(self@);
            lemma_resolve_identity(components(self@));
        }
        let chars = chars_of(self.text.as_str());
        let mut st = resolved_components(&chars);
        if st.len() == 0 {
            return None;
        }
        let _ = st.pop();
        proof {
            assert(names_view(st@) =~= components(chars@).drop_last());
            lemma_plain_drop_last(components(chars@));
            lemma_render_normal(names_view(st@));
        }
        let out = render_chars(true, &st);
        Some(Self::from_normalized(out))
    }

    /// The path itself, its parent, its parent's parent, and so on up to
    /// the root.
    pub fn ancestors(&self) -> (r: Vec<Self>)
        ensures
            r@.len() > 0,
            r@[0]@ == self@,
            forall|i: int| 0 <= i < r@.len() - 1 ==> spec_parent(#[trigger] r@[i]@) == Some(r@[i + 1]@),
            spec_parent(r@.last()@) is None,
            r@.last()@ == seq!['/'],
    {
        let mut out: Vec<Self> = Vec::new();
        let mut cur = self.clone_path();
        loop
            invariant
                out@.len() > 0 ==> out@[0]@ == self@,
                out@.len() == 0 ==> cur@ == self@,
                forall|i: int| 0 <= i < out@.len() - 1 ==> spec_parent(#[trigger] out@[i]@) == Some(out@[i + 1]@),
                out@.len() > 0 ==> spec_parent(out@.last()@) == Some(cur@),
            decreases components(cur@).len(),
        {
            proof {
                use_type_invariant(&cur);
                lemma_parent_step(cur@);
            }
            let next = cur.parent();
            let ghost prev = out@;
            let ghost cv = cur@;
            out.push(cur);
            assert(out@.last()@ == cv);
            assert forall|i: int| 0 <= i < out@.len() - 1 implies spec_parent(
                #[trigger] out@[i]@,
            ) == Some(out@[i + 1]@) by {
                if i < prev.len() - 1 {
                    assert(out@[i] == prev[i]);
                    assert(out@[i + 1] == prev[i + 1]);
                } else {
                    assert(out@[i] == prev.last());
                }
            }
            match next {
                Some(p) => {
                    cur = p;
                },
                None => {
                    return out;
                },
            }
        }
    }

    /// A copy of this path.
    pub fn clone_path(&self) -> (r: Self)
        ensures
            r@ == self@,
    {
        proof {
            use_type_invariant(self);
        }
        Self::from_normalized(chars_of(self.text.as_str()))
    }

    /// The path as a string slice.
    pub fn as_path(&self) -> (r: &str)
        ensures
            r@ == self@,
    {
        proof {
            use_type_invariant(self);
        }
        self.text.as_str()
    }

    /// The path as an owned string.
    pub fn into_path_buf(self) -> (r: String)
        ensures
            r@ == self@,
    {
        proof {
            use_type_invariant(&self);
        }
        self.text
    }

    /// A copy of the path as an owned string.
    pub fn to_path_buf(&self) -> (r: String)
        ensures
            r@ == self@,
    {
        proof {
            use_type_invariant(self);
        }
        self.text.clone()
    }

    /// The path as text; stored paths are always valid UTF-8, so nothing is lost.
    pub fn to_string_lossy(&self) -> (r: &str)
        ensures
            r@ == self@,
    {
        proof {
            use_type_invariant(self);
        }
        self.text.as_str()
    }

    /// The path as text for display.
    pub fn display(&self) -> (r: &str)
        ensures
            r@ == self@,
    {
        proof {
            use_type_invariant(self);
        }
        self.text.as_str()
    }

    /// Whether this path lies at or below `root`.
    pub fn is_within(&self, root: &Self) -> (r: bool)
        ensures
            r == path_within(self@, root@),
    {
        proof {
            use_type_invariant(self);
            use_type_invariant(root);
            lemma_normal_shape(self@);
            lemma_normal_shape(root@);
            lemma_resolve_identity(components(self@));
            lemma_resolve_identity(components(root@));
        }
        let a = chars_of(self.text.as_str());
        let b = chars_of(root.text.as_str());
        let pa = resolved_components(&a);
        let pb = resolved_components(&b);
        let ghost pc = components(self@);
        let ghost rc = components(root@);
        assert(names_view(pa@) == pc);
        assert(names_view(pb@) == rc);
        if pb.len() > pa.len() {
            return false;
        }
        let mut i: usize = 0;
        while i < pb.len()
            invariant
                pb@.len() <= pa@.len(),
                i <= pb@.len(),
                names_view(pa@) == pc,
                names_view(pb@) == rc,
                pc == components(self@),
                rc == components(root@),
                forall|j: int| 0 <= j < i ==> pc[j] == rc[j],
            decreases pb@.len() - i,
        {
            assert(names_view(pa@)[i as int] == pa@[i as int]@);
            assert(names_view(pb@)[i as int] == pb@[i as int]@);
            if !chars_eq(&pa[i], &pb[i]) {
                assert(pc.take(rc.len() as int)[i as int] != rc[i as int]);
                return false;
            }
            i = i + 1;
        }
        assert(pc.take(rc.len() as int) =~= rc);
        true
    }

    /// Whether two paths are the same string.
    pub fn same_path(&self, other: &Self) -> (r: bool)
        ensures
            r == (self@ == other@),
    {
        proof {
            use_type_invariant(self);
            use_type_invariant(other);
        }
        self.text == other.text
    }
}

impl<'a> TryFrom<&'a str> for AbsolutePathBuf {
    type Error = SandboxError;

    /// [`AbsolutePathBuf::from_absolute_path_checked`] on `value`.
    fn try_from(value: &'a str) -> (r: Result<Self, SandboxError>)
        ensures
            has_root(value@) <==> r is Ok,
            r matches Ok(p) ==> p@ == normalize(value@),
            r matches Err(e) ==> (e matches SandboxError::NotAbsolutePath(p) && p@ == value@),
    {
        Self::from_absolute_path_checked(value)
    }
}

/// The result of a conversion is stated by the `ensures` of `try_from`
/// itself, over the path's view: no spec function can build the `String`
/// and `Vec` fields that `try_from` returns, so none is offered here.
impl<'a> vstd::std_specs::convert::TryFromSpecImpl<&'a str> for AbsolutePathBuf {
    open spec fn obeys_try_from_spec() -> bool {
        false
    }

    open spec fn try_from_spec(v: &'a str) -> Result<Self, SandboxError> {
        vstd::pervasive::arbitrary()
    }
}

impl PartialEq for AbsolutePathBuf {
    fn eq(&self, other: &Self) -> (r: bool) {
        self.same_path(other)
    }
}

impl vstd::std_specs::cmp::PartialEqSpecImpl for AbsolutePathBuf {
    open spec fn obeys_eq_spec() -> bool {
        true
    }

    open spec fn eq_spec(&self, other: &Self) -> bool {
        self@ == other@
    }
}

impl Clone for AbsolutePathBuf {
    fn clone(&self) -> (r: Self)
        ensures
            r@ == self@,
    {
        self.clone_path()
    }
}

/// The parent of a path in normal form is in normal form and has fewer
/// components; a path without parent is the root.
proof fn lemma_parent_step(s: Seq<char>)
    requires
        is_absolute_normal(s),
    ensures
        spec_parent(s) matches Some(p) ==> is_absolute_normal(p) && components(p).len()
            < components(s).len(),
        spec_parent(s) is None ==> s == seq!['/'],
{
    lemma_normal_shape(s);
    if components(s).len() > 0 {
        lemma_plain_drop_last(components(s));
        lemma_render_normal(components(s).drop_last());
    } else {
        assert(s =~= seq!['/']);
    }
}

} // verus!

verus! {

/// `\\?\UNC\`
pub open spec fn verbatim_unc_prefix() -> Seq<char> {
    seq!['\\', '\\', '?', '\\', 'U', 'N', 'C', '\\']
}

/// `\\.\UNC\`
pub open spec fn device_unc_prefix() -> Seq<char> {
    seq!['\\', '\\', '.', '\\', 'U', 'N', 'C', '\\']
}

/// `\\?\`
pub open spec fn verbatim_prefix() -> Seq<char> {
    seq!['\\', '\\', '?', '\\']
}

/// `\\.\`
pub open spec fn device_prefix() -> Seq<char> {
    seq!['\\', '\\', '.', '\\']
}

pub open spec fn starts_with(s: Seq<char>, prefix: Seq<char>) -> bool {
    prefix.len() <= s.len() && s.take(prefix.len() as int) == prefix
}

pub open spec fn is_ascii_alpha(c: char) -> bool {
    ('a' <= c && c <= 'z') || ('A' <= c && c <= 'Z')
}

/// A Windows drive-absolute path such as `C:\dir` or `c:/dir`.
pub open spec fn is_drive_absolute(s: Seq<char>) -> bool {
    &&& s.len() >= 3
    &&& is_ascii_alpha(s[0])
    &&& s[1] == ':'
    &&& (s[2] == '\\' || s[2] == '/')
}

/// The plain form of a Windows device or verbatim path, when it has one:
/// `\\?\UNC\server\share` and `\\.\UNC\server\share` become
/// `\\server\share`, `\\?\C:\dir` and `\\.\C:\dir` become `C:\dir`.
pub open spec fn spec_windows_device_path(s: Seq<char>) -> Option<Seq<char>> {
    if starts_with(s, verbatim_unc_prefix()) {
        Some(seq!['\\', '\\'] + s.skip(8))
    } else if starts_with(s, device_unc_prefix()) {
        Some(seq!['\\', '\\'] + s.skip(8))
    } else if starts_with(s, verbatim_prefix()) && is_drive_absolute(s.skip(4)) {
        Some(s.skip(4))
    } else if starts_with(s, device_prefix()) && is_drive_absolute(s.skip(4)) {
        Some(s.skip(4))
    } else {
        None
    }
}

fn is_drive_absolute_chars(s: &Vec<char>) -> (r: bool)
    ensures
        r == is_drive_absolute(s@),
{
    if s.len() < 3 {
        return false;
    }
    let c = s[0];
    (('a' <= c && c <= 'z') || ('A' <= c && c <= 'Z')) && s[1] == ':' && (s[2] == '\\' || s[2]
        == '/')
}

/// Whether `path` is a Windows drive-absolute path (`C:\...` or `C:/...`).
///
/// An ASCII letter, `:` and a separator are single bytes in UTF-8, so this
/// character test agrees with a test on the first three bytes.
pub fn is_windows_drive_absolute_path(path: &str) -> (r: bool)
    ensures
        r == is_drive_absolute(path@),
{
    is_drive_absolute_chars(&chars_of(path))
}

/// Rewrites a Windows device or verbatim path into its plain form, or
/// `None` when `path` is neither.
pub fn normalize_windows_device_path(path: &str) -> (r: Option<String>)
    ensures
        r matches Some(p) ==> spec_windows_device_path(path@) == Some(p@),
        r is None ==> spec_windows_device_path(path@) is None,
{
    let s = chars_of(path);
    let verbatim_unc = vec!['\\', '\\', '?', '\\', 'U', 'N', 'C', '\\'];
    let device_unc = vec!['\\', '\\', '.', '\\', 'U', 'N', 'C', '\\'];
    let verbatim = vec!['\\', '\\', '?', '\\'];
    let device = vec!['\\', '\\', '.', '\\'];
    assert(verbatim_unc@ =~= verbatim_unc_prefix());
    assert(device_unc@ =~= device_unc_prefix());
    assert(verbatim@ =~= verbatim_prefix());
    assert(device@ =~= device_prefix());
    if chars_start_with(&s, &verbatim_unc) || chars_start_with(&s, &device_unc) {
        let mut out = vec!['\\', '\\'];
        let rest = chars_skip(&s, 8);
        chars_extend(&mut out, &rest);
        assert(out@ =~= seq!['\\', '\\'] + s@.skip(8));
        return Some(string_from_chars(out));
    }
    if chars_start_with(&s, &verbatim) || chars_start_with(&s, &device) {
        let rest = chars_skip(&s, 4);
        if is_drive_absolute_chars(&rest) {
            return Some(string_from_chars(rest));
        }
    }
    None
}

/// The path used in tests for the Unix-style `unix_path`.
pub fn test_path_buf(unix_path: &str) -> (r: String)
    ensures
        r@ == unix_path@,
{
    string_from_chars(chars_of(unix_path))
}

/// The normalized absolute path for the Unix-style absolute `unix_path`.
pub fn test_absolute(unix_path: &str) -> (r: AbsolutePathBuf)
    requires
        has_root(unix_path@),
    ensures
        r@ == normalize(unix_path@),
{
    let p = test_path_buf(unix_path);
    AbsolutePathBuf::from_absolute_path_checked(p.as_str()).unwrap()
}

} // verus!

verus! {

/// Normalizing twice is normalizing once, and normalization keeps
/// absoluteness: a path built by `from_absolute_path_checked` is accepted
/// again unchanged.
pub proof fn law_normalize_idempotent(s: Seq<char>)
    ensures
        normalize(normalize(s)) == normalize(s),
        has_root(normalize(s)) == has_root(s),
{
    crate::path_model::lemma_normalize_idempotent(s);
}

/// Joining an absolute path ignores the base.
pub proof fn law_join_absolute_replaces_base(path: Seq<char>, base: Seq<char>)
    requires
        has_root(path),
    ensures
        absolutized(path, base) == normalize(path),
{
}

/// Joining onto an absolute base gives an absolute path.
pub proof fn law_join_keeps_root(path: Seq<char>, base: Seq<char>)
    requires
        has_root(base),
    ensures
        has_root(absolutized(path, base)),
{
    crate::path_model::lemma_normalize_idempotent(joined_path(path, base));
}

/// Joining a single plain name onto a normalized absolute path appends that
/// name, and the parent of the result is the path joined onto.
pub proof fn law_parent_of_join_child(base: Seq<char>, name: Seq<char>)
    requires
        has_root(base),
        normalize(base) == base,
        is_plain_name(name),
    ensures
        components(absolutized(name, base)) == components(base).push(name),
        absolutized(name, base) == joined_path(name, base),
        spec_parent(absolutized(name, base)) == Some(base),
{
    lemma_normalize_shape(base);
    let cs = resolve(components(base));
    assert(components(base) == cs);
    assert(base == render(true, cs));
    let cs2 = cs.push(name);
    assert forall|i: int| 0 <= i < cs2.len() implies is_plain_name(#[trigger] cs2[i]) by {
        if i < cs.len() {
            assert(cs2[i] == cs[i]);
        }
    }
    assert(!has_root(name));
    let joined = joined_path(name, base);
    if cs.len() == 0 {
        assert(base =~= seq!['/']);
        assert(joined =~= seq!['/'] + name);
        assert(join_names(cs2) == cs2[0]);
        assert(render(true, cs2) =~= joined);
    } else {
        assert(is_plain_name(cs.last()));
        let jl = join_names(cs);
        if cs.len() == 1 {
            assert(jl == cs[0]);
        }
        assert(jl.last() == cs.last().last());
        assert(base.last() == jl.last());
        assert(!is_sep(base.last()));
        assert(cs2.drop_last() =~= cs);
        assert(joined =~= seq!['/'] + (jl + seq!['/'] + name));
        assert(render(true, cs2) =~= joined);
    }
    lemma_render_normal(cs2);
}

} // verus!

verus! {

/// The path that symlink-preserving canonicalization settles on, given the
/// logical (lexically absolute) path, whether it must be preserved, and the
/// canonical path when canonicalization succeeded: the logical path when
/// canonicalization failed, or when it must be preserved and the canonical
/// path differs; the canonical path otherwise.
pub fn choose_preserving_symlinks(logical: String, preserve: bool, canonical: Option<String>) -> (r:
    String)
    ensures
        r@ == match canonical {
            Some(c) => if preserve && c@ != logical@ {
                logical@
            } else {
                c@
            },
            None => logical@,
        },
{
    match canonical {
        Some(c) => {
            if preserve && c != logical {
                logical
            } else {
                c
            }
        },
        None => logical,
    }
}

/// Like [`choose_preserving_symlinks`] for a path that must exist, so that
/// canonicalization has succeeded.
pub fn choose_existing_preserving_symlinks(logical: String, preserve: bool, canonical: String) -> (r:
    String)
    ensures
        r@ == if preserve && canonical@ != logical@ {
            logical@
        } else {
            canonical@
        },
{
    if preserve && canonical != logical {
        logical
    } else {
        canonical
    }
}

/// Whether an ancestor of a logical path forces the logical path to be
/// kept: it is a symlink and lies below a top-level directory (it has a
/// grandparent), so that top-level aliases such as `/var` still resolve.
pub fn symlink_forces_logical_path(ancestor: &AbsolutePathBuf, is_symlink: bool) -> (r: bool)
    ensures
        r == (is_symlink && (spec_parent(ancestor@) matches Some(p) && spec_parent(p) is Some)),
{
    if !is_symlink {
        return false;
    }
    match ancestor.parent() {
        Some(p) => p.parent().is_some(),
        None => false,
    }
}

} // verus!
