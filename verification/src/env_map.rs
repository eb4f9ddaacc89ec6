//! [`EnvMap`]: the environment handed to a sandboxed child, a map from
//! variable names to values.

use vstd::prelude::*;

verus! {

/// An environment: variable names mapped to values, each name at most once.
///
/// The entries are a vector of pairs rather than a `HashMap<String, String>`:
/// vstd describes what a `HashMap` holds only for key types whose hashing
/// and equality it models (`obeys_key_model`), which it establishes for
/// integers and `bool` but not for `String`, so nothing could be proved of
/// a map keyed by variable names. The invariant that no name occurs twice
/// gives the vector the map's meaning.
#[derive(Debug)]
pub struct EnvMap {
    entries: Vec<(String, String)>,
}

/// The name stored at position `i`.
pub open spec fn name_at(entries: Seq<(String, String)>, i: int) -> Seq<char> {
    entries[i].0@
}

/// Whether `k` is stored somewhere.
pub open spec fn stores(entries: Seq<(String, String)>, k: Seq<char>) -> bool {
    exists|i: int| 0 <= i < entries.len() && name_at(entries, i) == k
}

/// No name is stored twice.
pub open spec fn unique_names(entries: Seq<(String, String)>) -> bool {
    forall|i: int, j: int|
        0 <= i < entries.len() && 0 <= j < entries.len() && i != j ==> name_at(entries, i)
            != name_at(entries, j)
}

/// The map that an entry list stands for.
pub open spec fn entries_map(entries: Seq<(String, String)>) -> Map<Seq<char>, Seq<char>> {
    Map::new(
        |k: Seq<char>| stores(entries, k),
        |k: Seq<char>|
            entries[choose|i: int| 0 <= i < entries.len() && name_at(entries, i) == k].1@,
    )
}

proof fn lemma_lookup(entries: Seq<(String, String)>, i: int)
    requires
        unique_names(entries),
        0 <= i < entries.len(),
    ensures
        entries_map(entries).contains_key(name_at(entries, i)),
        entries_map(entries)[name_at(entries, i)] == entries[i].1@,
{
    let k = name_at(entries, i);
    assert(stores(entries, k));
    let j = choose|j: int| 0 <= j < entries.len() && name_at(entries, j) == k;
    assert(j == i);
}

impl View for EnvMap {
    type V = Map<Seq<char>, Seq<char>>;

    closed spec fn view(&self) -> Map<Seq<char>, Seq<char>> {
        entries_map(self.entries@)
    }
}

impl EnvMap {
    #[verifier::type_invariant]
    spec fn well_formed(self) -> bool {
        unique_names(self.entries@)
    }

    /// The empty environment.
    pub fn new() -> (r: Self)
        ensures
            r@ == Map::<Seq<char>, Seq<char>>::empty(),
    {
        let r = EnvMap { entries: Vec::new() };
        assert(r@ =~= Map::<Seq<char>, Seq<char>>::empty());
        r
    }

    /// The position of `key`, if present.
    fn find(&self, key: &String) -> (r: Option<usize>)
        ensures
            r matches Some(i) ==> i < self.entries@.len() && name_at(self.entries@, i as int)
                == key@,
            r is None ==> !stores(self.entries@, key@),
    {
        let mut i: usize = 0;
        while i < self.entries.len()
            invariant
                i <= self.entries@.len(),
                forall|j: int| 0 <= j < i ==> name_at(self.entries@, j) != key@,
            decreases self.entries@.len() - i,
        {
            if self.entries[i].0 == *key {
                return Some(i);
            }
            i = i + 1;
        }
        None
    }

    /// The value of `key`, if set.
    pub fn get(&self, key: &str) -> (r: Option<&String>)
        ensures
            r matches Some(v) ==> self@.contains_key(key@) && v@ == self@[key@],
            r is None ==> !self@.contains_key(key@),
    {
        proof {
            use_type_invariant(self);
        }
        let k = key.to_owned();
        match self.find(&k) {
            Some(i) => {
                proof {
                    lemma_lookup(self.entries@, i as int);
                }
                Some(&self.entries[i].1)
            },
            None => None,
        }
    }

    /// Whether `key` is set.
    pub fn contains_key(&self, key: &str) -> (r: bool)
        ensures
            r == self@.contains_key(key@),
    {
        self.get(key).is_some()
    }

    /// Sets `key` to `value`, replacing any previous value.
    pub fn insert(&mut self, key: String, value: String)
        ensures
            final(self)@ == old(self)@.insert(key@, value@),
    {
        proof {
            use_type_invariant(&*self);
        }
        let ghost old_entries = self.entries@;
        let ghost k = key@;
        let ghost v = value@;
        match self.find(&key) {
            Some(i) => {
                let mut entries: Vec<(String, String)> = Vec::new();
                std::mem::swap(&mut entries, &mut self.entries);
                proof {
                    assert(entries@ == old_entries);
                }
                entries.set(i, (key, value));
                let ghost ne = entries@;
                assert forall|a: int, b: int|
                    0 <= a < ne.len() && 0 <= b < ne.len() && a != b implies name_at(ne, a)
                    != name_at(ne, b) by {
                    assert(name_at(ne, i as int) == name_at(old_entries, i as int));
                    if a != i {
                        assert(ne[a] == old_entries[a]);
                    }
                    if b != i {
                        assert(ne[b] == old_entries[b]);
                    }
                    assert(name_at(old_entries, a) != name_at(old_entries, b));
                }
                self.entries = entries;
                proof {
                    assert forall|q: Seq<char>|
                        #![trigger entries_map(ne).contains_key(q)]
                        entries_map(ne).contains_key(q) == entries_map(
                            old_entries,
                        ).insert(k, v).contains_key(q) by {
                        if stores(old_entries, q) {
                            let a = choose|a: int|
                                0 <= a < old_entries.len() && name_at(old_entries, a) == q;
                            if a != i {
                                assert(ne[a] == old_entries[a]);
                            }
                            assert(name_at(ne, a) == q);
                        }
                        if stores(ne, q) {
                            let a = choose|a: int| 0 <= a < ne.len() && name_at(ne, a) == q;
                            if a != i {
                                assert(ne[a] == old_entries[a]);
                            }
                            assert(name_at(old_entries, a) == q);
                        }
                    }
                    assert forall|q: Seq<char>| #[trigger]
                        entries_map(ne).contains_key(q) implies entries_map(ne)[q] == entries_map(
                        old_entries,
                    ).insert(k, v)[q] by {
                        let a = choose|a: int| 0 <= a < ne.len() && name_at(ne, a) == q;
                        lemma_lookup(ne, a);
                        if a == i {
                            assert(ne[a].1@ == v);
                        } else {
                            assert(ne[a] == old_entries[a]);
                            lemma_lookup(old_entries, a);
                        }
                    }
                    assert(entries_map(ne) =~= entries_map(old_entries).insert(k, v));
                }
            },
            None => {
                let mut entries: Vec<(String, String)> = Vec::new();
                std::mem::swap(&mut entries, &mut self.entries);
                entries.push((key, value));
                let ghost ne = entries@;
                assert(ne.len() == old_entries.len() + 1);
                assert forall|a: int| 0 <= a < old_entries.len() implies #[trigger] ne[a]
                    == old_entries[a] by {}
                assert forall|a: int, b: int|
                    0 <= a < ne.len() && 0 <= b < ne.len() && a != b implies name_at(ne, a)
                    != name_at(ne, b) by {
                    if a < old_entries.len() && b < old_entries.len() {
                        assert(name_at(old_entries, a) != name_at(old_entries, b));
                    } else if a < old_entries.len() {
                        assert(name_at(ne, a) == name_at(old_entries, a));
                        assert(name_at(old_entries, a) != k);
                    } else {
                        assert(name_at(ne, b) == name_at(old_entries, b));
                        assert(name_at(old_entries, b) != k);
                    }
                }
                self.entries = entries;
                proof {
                    let last = old_entries.len() as int;
                    assert(name_at(ne, last) == k);
                    assert forall|q: Seq<char>|
                        #![trigger entries_map(ne).contains_key(q)]
                        entries_map(ne).contains_key(q) == entries_map(
                            old_entries,
                        ).insert(k, v).contains_key(q) by {
                        if stores(old_entries, q) {
                            let a = choose|a: int|
                                0 <= a < old_entries.len() && name_at(old_entries, a) == q;
                            assert(name_at(ne, a) == q);
                        }
                        if q == k {
                            assert(name_at(ne, last) == q);
                        }
                        if stores(ne, q) && q != k {
                            let a = choose|a: int| 0 <= a < ne.len() && name_at(ne, a) == q;
                            assert(a != last);
                            assert(name_at(old_entries, a) == q);
                        }
                    }
                    assert forall|q: Seq<char>| #[trigger]
                        entries_map(ne).contains_key(q) implies entries_map(ne)[q] == entries_map(
                        old_entries,
                    ).insert(k, v)[q] by {
                        let a = choose|a: int| 0 <= a < ne.len() && name_at(ne, a) == q;
                        lemma_lookup(ne, a);
                        if a == last {
                            assert(ne[a].1@ == v);
                        } else {
                            lemma_lookup(old_entries, a);
                        }
                    }
                    assert(entries_map(ne) =~= entries_map(old_entries).insert(k, v));
                }
            },
        }
    }

    /// The number of variables set.
    pub fn len(&self) -> (r: usize)
        ensures
            r == self@.dom().len(),
    {
        proof {
            use_type_invariant(self);
            lemma_dom_len(self.entries@);
        }
        self.entries.len()
    }

    /// The variables as (name, value) pairs, each name once.
    pub fn to_pairs(&self) -> (r: Vec<(String, String)>)
        ensures
            unique_names(r@),
            entries_map(r@) == self@,
            r@.len() == self@.dom().len(),
    {
        proof {
            use_type_invariant(self);
            lemma_dom_len(self.entries@);
        }
        let mut out: Vec<(String, String)> = Vec::new();
        let mut i: usize = 0;
        while i < self.entries.len()
            invariant
                i <= self.entries@.len(),
                out@.len() == i,
                forall|j: int| 0 <= j < i ==> #[trigger] out@[j].0@ == self.entries@[j].0@
                    && out@[j].1@ == self.entries@[j].1@,
            decreases self.entries@.len() - i,
        {
            let e = &self.entries[i];
            out.push((e.0.clone(), e.1.clone()));
            i = i + 1;
        }
        proof {
            let a = out@;
            let b = self.entries@;
            assert forall|j: int| 0 <= j < a.len() implies name_at(a, j) == name_at(b, j) by {
                assert(a[j].0@ == b[j].0@);
            }
            assert forall|q: Seq<char>|
                #![trigger entries_map(a).contains_key(q)]
                entries_map(a).contains_key(q) == entries_map(b).contains_key(q) by {
                if stores(a, q) {
                    let j = choose|j: int| 0 <= j < a.len() && name_at(a, j) == q;
                    assert(name_at(b, j) == q);
                }
                if stores(b, q) {
                    let j = choose|j: int| 0 <= j < b.len() && name_at(b, j) == q;
                    assert(name_at(a, j) == q);
                }
            }
            assert forall|q: Seq<char>| #[trigger]
                entries_map(a).contains_key(q) implies entries_map(a)[q] == entries_map(b)[q] by {
                let j = choose|j: int| 0 <= j < a.len() && name_at(a, j) == q;
                lemma_lookup(a, j);
                assert(name_at(b, j) == q);
                lemma_lookup(b, j);
                assert(a[j].1@ == b[j].1@);
            }
            assert(entries_map(a) =~= entries_map(b));
        }
        out
    }
}

/// The number of names in a list without repeats is its length.
proof fn lemma_dom_len(entries: Seq<(String, String)>)
    requires
        unique_names(entries),
    ensures
        entries_map(entries).dom().finite(),
        entries_map(entries).dom().len() == entries.len(),
    decreases entries.len(),
{
    let dom = entries_map(entries).dom();
    if entries.len() == 0 {
        assert(dom =~= Set::<Seq<char>>::empty());
    } else {
        let init = entries.drop_last();
        assert forall|a: int, b: int|
            0 <= a < init.len() && 0 <= b < init.len() && a != b implies name_at(init, a)
            != name_at(init, b) by {
            assert(init[a] == entries[a]);
            assert(init[b] == entries[b]);
            assert(name_at(entries, a) != name_at(entries, b));
        }
        lemma_dom_len(init);
        let last = name_at(entries, entries.len() - 1);
        let idom = entries_map(init).dom();
        assert forall|q: Seq<char>| #[trigger] dom.contains(q) == idom.insert(last).contains(q) by {
            if stores(entries, q) {
                let a = choose|a: int| 0 <= a < entries.len() && name_at(entries, a) == q;
                if a < init.len() {
                    assert(init[a] == entries[a]);
                    assert(name_at(init, a) == q);
                }
            }
            if stores(init, q) {
                let a = choose|a: int| 0 <= a < init.len() && name_at(init, a) == q;
                assert(init[a] == entries[a]);
                assert(name_at(entries, a) == q);
            }
            if q == last {
                assert(name_at(entries, entries.len() - 1) == q);
            }
        }
        assert(dom =~= idom.insert(last));
        assert(!idom.contains(last)) by {
            if stores(init, last) {
                let a = choose|a: int| 0 <= a < init.len() && name_at(init, a) == last;
                assert(init[a] == entries[a]);
                assert(name_at(entries, a) != name_at(entries, entries.len() - 1));
            }
        }
    }
}

} // verus!
