//! Small shared utilities: a builder for string-to-string property sets and
//! a convenience hash.

use vstd::prelude::*;
use crate::string_map::StringMap;

verus! {

/// A builder that accumulates string properties, at most one value per key.
pub struct StorePropertiesBuilder {
    properties: StringMap<String>,
}

impl StorePropertiesBuilder {
    /// The accumulated properties, keys and values as characters.
    pub closed spec fn spec_properties(&self) -> Map<Seq<char>, Seq<char>> {
        self.properties@.map_values(|v: String| v@)
    }

    /// An empty builder.
    pub fn build() -> (r: Self)
        ensures
            r.spec_properties() == Map::<Seq<char>, Seq<char>>::empty(),
    {
        let r = StorePropertiesBuilder { properties: StringMap::new() };
        proof {
            assert(r.spec_properties() =~= Map::<Seq<char>, Seq<char>>::empty());
        }
        r
    }

    /// Stores `value` under `key`, replacing a value already stored there.
    pub fn insert(&mut self, key: &str, value: &str) -> (r: &mut Self)
        ensures
            (*r).spec_properties() == old(self).spec_properties().insert(key@, value@),
            *final(self) == *final(r),
    {
        self.insert_or(true, key, value)
    }

    /// Stores `value` under `key` if `condition` holds; otherwise changes
    /// nothing.
    pub fn insert_or(&mut self, condition: bool, key: &str, value: &str) -> (r: &mut Self)
        ensures
            condition ==> (*r).spec_properties()
                == old(self).spec_properties().insert(key@, value@),
            !condition ==> *r == *old(self),
            *final(self) == *final(r),
    {
        if condition {
            let ghost pre = self.properties@;
            self.properties.insert(key.to_owned(), value.to_owned());
            proof {
                assert(self.spec_properties() =~= pre.map_values(|v: String| v@).insert(
                    key@, value@));
            }
        }
        self
    }

    /// The accumulated properties as key/value pairs: each key of the
    /// builder appears exactly once, with the value stored under it.
    #[verifier::loop_isolation(false)]
    pub fn to_map(&self) -> (r: Vec<(String, String)>)
        ensures
            forall|i: int| 0 <= i < r@.len()
                ==> self.spec_properties().contains_key((#[trigger] r@[i]).0@)
                    && self.spec_properties()[r@[i].0@] == r@[i].1@,
            forall|k: Seq<char>| #[trigger] self.spec_properties().contains_key(k)
                ==> exists|i: int| 0 <= i < r@.len() && (#[trigger] r@[i]).0@ == k,
            forall|i: int, j: int| 0 <= i < j < r@.len()
                ==> (#[trigger] r@[i]).0@ != (#[trigger] r@[j]).0@,
    {
        let n = self.properties.entry_count();
        let mut r: Vec<(String, String)> = Vec::new();
        let mut i: usize = 0;
        while i < n
            invariant
                i <= n,
                n == self.properties.kv_seq().len(),
                r@.len() == i,
                forall|j: int| 0 <= j < i
                    ==> ((#[trigger] r@[j]).0@, r@[j].1) == self.properties.kv_seq()[j],
            decreases n - i,
        {
            let entry = self.properties.entry_at(i);
            r.push((entry.0.clone(), entry.1.clone()));
            i = i + 1;
        }
        proof {
            assert forall|i_: int| 0 <= i_ < r@.len()
                implies self.spec_properties().contains_key((#[trigger] r@[i_]).0@)
                    && self.spec_properties()[r@[i_].0@] == r@[i_].1@ by {
                let kv = self.properties.kv_seq()[i_];
                assert(self.properties@.contains_key(kv.0));
            }
            assert forall|k: Seq<char>| #[trigger] self.spec_properties().contains_key(k)
                implies exists|i_: int| 0 <= i_ < r@.len() && (#[trigger] r@[i_]).0@ == k by {
                assert(self.properties@.contains_key(k));
                let j = choose|j: int|
                    0 <= j < self.properties.kv_seq().len()
                        && #[trigger] self.properties.kv_seq()[j].0 == k;
                assert(r@[j].0@ == k);
            }
            assert forall|i_: int, j_: int| 0 <= i_ < j_ < r@.len()
                implies (#[trigger] r@[i_]).0@ != (#[trigger] r@[j_]).0@ by {
                assert(r@[i_].0@ == self.properties.kv_seq()[i_].0);
                assert(r@[j_].0@ == self.properties.kv_seq()[j_].0);
            }
        }
        r
    }
}

/// Relies on std's `DefaultHasher`: the value is fed to a freshly created
/// default-keyed hasher and the finished digest is returned.  Nothing is
/// promised of the digest; std does not fix it across releases.
#[verifier::external_body]
pub fn calculate_hash<T: core::hash::Hash>(t: &T) -> u64 {
    let mut s = std::collections::hash_map::DefaultHasher::new();
    core::hash::Hash::hash(t, &mut s);
    core::hash::Hasher::finish(&s)
}

} // verus!
