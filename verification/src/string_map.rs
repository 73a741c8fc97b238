//! A map from strings to values, kept as a vector of key/value pairs with
//! pairwise-distinct keys.
//!
//! The callback registry and the other string-keyed stores of this crate are
//! built on this one type.  Its view is a `Map<Seq<char>, V>`, and every
//! operation is specified against that view.

use vstd::prelude::*;

verus! {

/// An association map from strings to values.  At most one entry exists per
/// key; inserting for a present key replaces the held value.
#[derive(Debug)]
pub struct StringMap<V> {
    entries: Vec<(String, V)>,
}

impl<V> View for StringMap<V> {
    type V = Map<Seq<char>, V>;

    closed spec fn view(&self) -> Map<Seq<char>, V> {
        Map::new(
            |k: Seq<char>|
                exists|i: int| 0 <= i < self.entries@.len() && self.entries@[i].0@ == k,
            |k: Seq<char>|
                self.entries@[choose|i: int|
                    0 <= i < self.entries@.len() && self.entries@[i].0@ == k].1,
        )
    }
}

impl<V> StringMap<V> {
    /// The entries in storage order: each key's characters with its value.
    pub closed spec fn kv_seq(&self) -> Seq<(Seq<char>, V)> {
        self.entries@.map_values(|e: (String, V)| (e.0@, e.1))
    }

    #[verifier::type_invariant]
    spec fn distinct_keys(&self) -> bool {
        forall|i: int, j: int|
            0 <= i < j < self.entries@.len()
                ==> (#[trigger] self.entries@[i].0@) != (#[trigger] self.entries@[j].0@)
    }

    /// An empty map.
    pub fn new() -> (m: Self)
        ensures
            m@ == Map::<Seq<char>, V>::empty(),
            m.kv_seq() == Seq::<(Seq<char>, V)>::empty(),
    {
        let m = StringMap { entries: Vec::new() };
        proof {
            assert(m@ =~= Map::<Seq<char>, V>::empty());
            assert(m.kv_seq() =~= Seq::<(Seq<char>, V)>::empty());
        }
        m
    }

    /// The index of the entry holding `key`, if one does.
    fn index_of(&self, key: &String) -> (r: Option<usize>)
        ensures
            match r {
                Some(i) => i < self.entries@.len() && self.entries@[i as int].0@ == key@,
                None => forall|i: int|
                    0 <= i < self.entries@.len() ==> #[trigger] self.entries@[i].0@ != key@,
            },
    {
        let n = self.entries.len();
        let mut i: usize = 0;
        while i < n
            invariant
                n == self.entries@.len(),
                i <= n,
                forall|j: int| 0 <= j < i ==> #[trigger] self.entries@[j].0@ != key@,
            decreases n - i,
        {
            if self.entries[i].0 == *key {
                return Some(i);
            }
            i = i + 1;
        }
        None
    }

    /// Whether an entry for `key` is present.
    pub fn contains_key(&self, key: &str) -> (b: bool)
        ensures
            b == self@.contains_key(key@),
    {
        let owned = key.to_owned();
        match self.index_of(&owned) {
            Some(_) => true,
            None => {
                proof {
                    assert(!self@.contains_key(key@));
                }
                false
            },
        }
    }

    /// Inserts `value` under `key`; a value already held under `key` is
    /// replaced, so the last insertion wins.
    pub fn insert(&mut self, key: String, value: V)
        ensures
            final(self)@ == old(self)@.insert(key@, value),
    {
        proof {
            use_type_invariant(&*self);
        }
        let _ = self.remove(key.as_str());
        let ghost mid = self@;
        let ghost base = self.entries@;
        proof {
            use_type_invariant(&*self);
            assert(!mid.contains_key(key@));
            assert(forall|i: int| 0 <= i < base.len() ==> (#[trigger] base[i]).0@ != key@);
        }
        let mut tmp: Vec<(String, V)> = Vec::new();
        core::mem::swap(&mut tmp, &mut self.entries);
        tmp.push((key, value));
        core::mem::swap(&mut tmp, &mut self.entries);
        proof {
            let post = self.entries@;
            let n = base.len() as int;
            assert(post == base.push((key, value)));
            assert(post[n] == (key, value));
            assert forall|k: Seq<char>| self@.contains_key(k) == mid.insert(key@, value).contains_key(k) by {
                if k == key@ {
                    assert(post[n].0@ == k);
                    assert(self@.contains_key(k));
                } else {
                    if mid.contains_key(k) {
                        let i = choose|i: int| 0 <= i < n && (#[trigger] base[i]).0@ == k;
                        assert(post[i].0@ == k);
                        assert(self@.contains_key(k));
                    }
                    if self@.contains_key(k) {
                        let i = choose|i: int| 0 <= i < n + 1 && (#[trigger] post[i]).0@ == k;
                        assert(i < n);
                        assert(base[i].0@ == k);
                        assert(mid.contains_key(k));
                    }
                }
            }
            assert forall|k: Seq<char>| #[trigger] self@.contains_key(k)
                implies self@[k] == mid.insert(key@, value)[k] by {
                let i = choose|i: int| 0 <= i < n + 1 && (#[trigger] post[i]).0@ == k;
                if k == key@ {
                    assert(i == n);
                    assert(self@[k] == value);
                } else {
                    assert(i < n);
                    assert(base[i].0@ == k);
                    let j = choose|j: int| 0 <= j < n && (#[trigger] base[j]).0@ == k;
                    assert(j == i);
                    assert(mid[k] == base[i].1);
                    assert(self@[k] == post[i].1);
                }
            }
            assert(self@ =~= mid.insert(key@, value));
        }
    }

    /// Removes and returns the value held under `key`, if one is.
    pub fn remove(&mut self, key: &str) -> (r: Option<V>)
        ensures
            old(self)@.contains_key(key@) ==> r == Some(old(self)@[key@])
                && final(self)@ == old(self)@.remove(key@),
            !old(self)@.contains_key(key@) ==> r is None && *final(self) == *old(self),
    {
        proof {
            use_type_invariant(&*self);
        }
        let owned = key.to_owned();
        match self.index_of(&owned) {
            Some(i) => {
                let ghost pre = self.entries@;
                let ghost n = pre.len();
                proof {
                    assert(self@.contains_key(key@));
                    let c = choose|c: int| 0 <= c < n && pre[c].0@ == key@;
                    assert(c == i);
                    assert(self@[key@] == pre[i as int].1);
                }
                let mut tmp: Vec<(String, V)> = Vec::new();
                core::mem::swap(&mut tmp, &mut self.entries);
                let entry = tmp.remove(i);
                core::mem::swap(&mut tmp, &mut self.entries);
                proof {
                    let post = self.entries@;
                    assert forall|j: int| 0 <= j < n - 1
                        implies #[trigger] post[j] == (if j < i { pre[j] } else { pre[j + 1] }) by {
                        assert(post == pre.subrange(0, i as int).add(
                            pre.subrange(i as int + 1, n as int)));
                    }
                    assert forall|k: Seq<char>|
                        self@.contains_key(k) == old(self)@.remove(key@).contains_key(k) by {
                        if k != key@ {
                            if old(self)@.contains_key(k) {
                                let j = choose|j: int| 0 <= j < n && pre[j].0@ == k;
                                if j < i {
                                    assert(post[j].0@ == k);
                                } else {
                                    assert(j > i);
                                    assert(post[j - 1].0@ == k);
                                }
                            }
                            if self@.contains_key(k) {
                                let j = choose|j: int| 0 <= j < n - 1 && post[j].0@ == k;
                                if j < i {
                                    assert(pre[j].0@ == k);
                                } else {
                                    assert(pre[j + 1].0@ == k);
                                }
                            }
                        } else {
                            if self@.contains_key(k) {
                                let j = choose|j: int| 0 <= j < n - 1 && post[j].0@ == k;
                                if j < i {
                                    assert(pre[j].0@ == key@);
                                } else {
                                    assert(pre[j + 1].0@ == key@);
                                }
                                assert(false);
                            }
                        }
                    }
                    assert forall|k: Seq<char>| #[trigger] self@.contains_key(k)
                        implies self@[k] == old(self)@.remove(key@)[k] by {
                        let j = choose|j: int| 0 <= j < n - 1 && post[j].0@ == k;
                        let j0: int = if j < i { j } else { j + 1 };
                        assert(pre[j0].0@ == k);
                        let c = choose|c: int| 0 <= c < n && pre[c].0@ == k;
                        assert(c == j0);
                    }
                    assert(self@ =~= old(self)@.remove(key@));
                }
                Some(entry.1)
            },
            None => {
                proof {
                    assert(!self@.contains_key(key@));
                }
                None
            },
        }
    }

    /// How many entries the map holds.
    ///
    /// The clauses also state that walking the entries by index visits
    /// exactly the keys of the map, each with the value the map holds for
    /// it, so that a caller's loop over the entries can conclude facts
    /// about the whole map.
    pub fn entry_count(&self) -> (n: usize)
        ensures
            n == self.kv_seq().len(),
            forall|k: Seq<char>| #[trigger] self@.contains_key(k)
                <==> exists|i: int| 0 <= i < self.kv_seq().len() && #[trigger] self.kv_seq()[i].0 == k,
            forall|i: int| 0 <= i < self.kv_seq().len()
                ==> self@.contains_key(#[trigger] self.kv_seq()[i].0)
                    && self@[self.kv_seq()[i].0] == self.kv_seq()[i].1,
            forall|i: int, j: int| 0 <= i < j < self.kv_seq().len()
                ==> (#[trigger] self.kv_seq()[i].0) != (#[trigger] self.kv_seq()[j].0),
    {
        proof {
            use_type_invariant(&*self);
            let entries = self.entries@;
            let n = entries.len() as int;
            assert forall|i: int| 0 <= i < n
                implies #[trigger] self.kv_seq()[i] == (entries[i].0@, entries[i].1) by {}
            assert forall|i: int| 0 <= i < n
                implies self@.contains_key(#[trigger] self.kv_seq()[i].0)
                    && self@[self.kv_seq()[i].0] == self.kv_seq()[i].1 by {
                assert(self.kv_seq()[i].0 == entries[i].0@);
                assert(self@.contains_key(entries[i].0@));
                let c = choose|c: int| 0 <= c < n && (#[trigger] entries[c]).0@ == entries[i].0@;
                assert(c == i);
            }
            assert forall|k: Seq<char>| #[trigger] self@.contains_key(k)
                implies exists|i: int|
                    0 <= i < self.kv_seq().len() && #[trigger] self.kv_seq()[i].0 == k by {
                let c = choose|c: int| 0 <= c < n && (#[trigger] entries[c]).0@ == k;
                assert(self.kv_seq()[c].0 == k);
            }
        }
        self.entries.len()
    }

    /// The entry at index `i`: its key and a reference to its value.
    pub fn entry_at(&self, i: usize) -> (e: (&String, &V))
        requires
            i < self.kv_seq().len(),
        ensures
            e.0@ == self.kv_seq()[i as int].0,
            *e.1 == self.kv_seq()[i as int].1,
    {
        let entry = &self.entries[i];
        (&entry.0, &entry.1)
    }
}

} // verus!
