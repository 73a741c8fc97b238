//! A collector for values that arrive asynchronously under string keys.
//!
//! Keys are announced up front as essential or optional; the collection is
//! complete when every essential key's value has arrived non-empty.

use vstd::prelude::*;
use crate::string_map::StringMap;

verus! {

/// A slot for one collected value: nothing yet, or the arrived string
/// (possibly empty).
#[derive(Debug, Clone)]
pub struct Item {
    value: Option<String>,
}

/// Whether an item holds an arrived value that is the empty string.
pub open spec fn spec_item_is_empty(it: Item) -> bool {
    it.spec_value() matches Some(v) && v.len() == 0
}

impl Item {
    /// The held value, as characters.
    pub closed spec fn spec_value(&self) -> Option<Seq<char>> {
        match self.value {
            Some(s) => Some(s@),
            None => None,
        }
    }

    /// An item holding `value`.
    pub fn new(value: String) -> (r: Self)
        ensures
            r.spec_value() == Some(value@),
    {
        Item { value: Some(value) }
    }

    /// Whether a value has arrived.
    pub fn is_some(&self) -> (b: bool)
        ensures
            b == (self.spec_value() is Some),
    {
        self.value.is_some()
    }

    /// Whether the arrived value is the empty string.
    pub fn is_empty(&self) -> (b: bool)
        ensures
            b == spec_item_is_empty(*self),
    {
        self.is_some() && self.value.as_ref().unwrap().as_str().is_empty()
    }
}

impl Default for Item {
    /// An item whose value has not arrived.
    fn default() -> (r: Self)
        ensures
            r.spec_value() is None,
    {
        Item { value: None }
    }
}

/// The two key sets of a collector, with its expiry.
#[derive(Debug)]
pub struct AsyncCollector {
    essential_items: StringMap<Item>,
    optional_items: StringMap<Item>,
    expires_seconds: i32,
}

/// `post` is `pre` with an unfilled slot put under every key of `keys`,
/// and nothing else changed.
pub open spec fn spec_inited(
    pre: Map<Seq<char>, Item>,
    post: Map<Seq<char>, Item>,
    keys: Seq<String>,
) -> bool {
    &&& forall|i: int|
        0 <= i < keys.len() ==> post.contains_key(#[trigger] keys[i]@)
            && (post[keys[i]@].spec_value() is None)
    &&& forall|k: Seq<char>|
        !(exists|i: int| 0 <= i < keys.len() && #[trigger] keys[i]@ == k) ==> (
            (#[trigger] post.contains_key(k)) == pre.contains_key(k)
            && (pre.contains_key(k) ==> post[k] == pre[k]))
}

impl AsyncCollector {
    /// The essential slots, by key.
    pub closed spec fn spec_essential(&self) -> Map<Seq<char>, Item> {
        self.essential_items@
    }

    /// The optional slots, by key.
    pub closed spec fn spec_optional(&self) -> Map<Seq<char>, Item> {
        self.optional_items@
    }

    /// The expiry, in seconds.
    pub closed spec fn spec_expires(&self) -> int {
        self.expires_seconds as int
    }

    /// Whether every essential slot holds a value other than the empty
    /// string.  Unfilled essential slots do not count against completion;
    /// only a key whose value arrived empty does.
    #[verifier::loop_isolation(false)]
    pub fn is_complete(&self) -> (b: bool)
        ensures
            b == (forall|k: Seq<char>| #[trigger] self.spec_essential().contains_key(k)
                ==> !spec_item_is_empty(self.spec_essential()[k])),
    {
        let n = self.essential_items.entry_count();
        let mut i: usize = 0;
        while i < n
            invariant
                i <= n,
                n == self.essential_items.kv_seq().len(),
                forall|j: int| 0 <= j < i
                    ==> !spec_item_is_empty((#[trigger] self.essential_items.kv_seq()[j]).1),
            decreases n - i,
        {
            let entry = self.essential_items.entry_at(i);
            if entry.1.is_empty() {
                proof {
                    let k = self.essential_items.kv_seq()[i as int].0;
                    assert(self.spec_essential().contains_key(k));
                    assert(spec_item_is_empty(self.spec_essential()[k]));
                }
                return false;
            }
            i = i + 1;
        }
        proof {
            assert forall|k: Seq<char>| #[trigger] self.spec_essential().contains_key(k)
                implies !spec_item_is_empty(self.spec_essential()[k]) by {
                let j = choose|j: int|
                    0 <= j < self.essential_items.kv_seq().len()
                        && #[trigger] self.essential_items.kv_seq()[j].0 == k;
                assert(!spec_item_is_empty(self.essential_items.kv_seq()[j].1));
            }
        }
        true
    }

    /// Announces `keys`, each with an unfilled slot, in the optional or the
    /// essential set.
    #[verifier::loop_isolation(false)]
    pub fn init(&mut self, keys: Vec<String>, optional: bool)
        ensures
            optional ==> final(self).spec_essential() == old(self).spec_essential()
                && spec_inited(old(self).spec_optional(), final(self).spec_optional(), keys@),
            !optional ==> final(self).spec_optional() == old(self).spec_optional()
                && spec_inited(old(self).spec_essential(), final(self).spec_essential(), keys@),
            final(self).spec_expires() == old(self).spec_expires(),
    {
        let n = keys.len();
        let mut i: usize = 0;
        if optional {
            while i < n
                invariant
                    i <= n,
                    n == keys@.len(),
                    self.essential_items@ == old(self).essential_items@,
                    self.expires_seconds == old(self).expires_seconds,
                    forall|j: int| 0 <= j < i
                        ==> self.optional_items@.contains_key(#[trigger] keys@[j]@)
                            && (self.optional_items@[keys@[j]@].spec_value() is None),
                    forall|k: Seq<char>|
                        !(exists|j: int| 0 <= j < i && #[trigger] keys@[j]@ == k) ==> (
                            (#[trigger] self.optional_items@.contains_key(k))
                                == old(self).optional_items@.contains_key(k)
                            && (old(self).optional_items@.contains_key(k)
                                ==> self.optional_items@[k] == old(self).optional_items@[k])),
                decreases n - i,
            {
                let ghost pre = self.optional_items@;
                self.optional_items.insert(keys[i].clone(), Item::default());
                proof {
                    assert forall|k: Seq<char>|
                        !(exists|j: int| 0 <= j < i + 1 && #[trigger] keys@[j]@ == k)
                        implies (self.optional_items@.contains_key(k)
                                == old(self).optional_items@.contains_key(k)
                            && (old(self).optional_items@.contains_key(k)
                                ==> self.optional_items@[k]
                                    == old(self).optional_items@[k])) by {
                        assert(keys@[i as int]@ != k);
                        assert(self.optional_items@.contains_key(k) == pre.contains_key(k));
                    }
                }
                i = i + 1;
            }
        } else {
            while i < n
                invariant
                    i <= n,
                    n == keys@.len(),
                    self.optional_items@ == old(self).optional_items@,
                    self.expires_seconds == old(self).expires_seconds,
                    forall|j: int| 0 <= j < i
                        ==> self.essential_items@.contains_key(#[trigger] keys@[j]@)
                            && (self.essential_items@[keys@[j]@].spec_value() is None),
                    forall|k: Seq<char>|
                        !(exists|j: int| 0 <= j < i && #[trigger] keys@[j]@ == k) ==> (
                            (#[trigger] self.essential_items@.contains_key(k))
                                == old(self).essential_items@.contains_key(k)
                            && (old(self).essential_items@.contains_key(k)
                                ==> self.essential_items@[k] == old(self).essential_items@[k])),
                decreases n - i,
            {
                let ghost pre = self.essential_items@;
                self.essential_items.insert(keys[i].clone(), Item::default());
                proof {
                    assert forall|k: Seq<char>|
                        !(exists|j: int| 0 <= j < i + 1 && #[trigger] keys@[j]@ == k)
                        implies (self.essential_items@.contains_key(k)
                                == old(self).essential_items@.contains_key(k)
                            && (old(self).essential_items@.contains_key(k)
                                ==> self.essential_items@[k]
                                    == old(self).essential_items@[k])) by {
                        assert(keys@[i as int]@ != k);
                        assert(self.essential_items@.contains_key(k) == pre.contains_key(k));
                    }
                }
                i = i + 1;
            }
        }
    }

    /// Records the arrived value `item` under `key`, in the optional or the
    /// essential set.
    pub fn set(&mut self, key: String, item: String, optional: bool)
        ensures
            optional ==> final(self).spec_essential() == old(self).spec_essential()
                && exists|it: Item| it.spec_value() == Some(item@)
                    && final(self).spec_optional()
                        == old(self).spec_optional().insert(key@, it),
            !optional ==> final(self).spec_optional() == old(self).spec_optional()
                && exists|it: Item| it.spec_value() == Some(item@)
                    && final(self).spec_essential()
                        == old(self).spec_essential().insert(key@, it),
            final(self).spec_expires() == old(self).spec_expires(),
    {
        let slot = Item::new(item);
        let ghost witness = slot;
        if optional {
            self.optional_items.insert(key, slot);
            proof {
                assert(self.spec_optional()
                    == old(self).spec_optional().insert(key@, witness));
            }
        } else {
            self.essential_items.insert(key, slot);
            proof {
                assert(self.spec_essential()
                    == old(self).spec_essential().insert(key@, witness));
            }
        }
    }

    /// Sets the expiry, in seconds.
    pub fn set_expires(&mut self, seconds: i32)
        ensures
            final(self).spec_expires() == seconds as int,
            final(self).spec_essential() == old(self).spec_essential(),
            final(self).spec_optional() == old(self).spec_optional(),
    {
        self.expires_seconds = seconds;
    }
}

impl Default for AsyncCollector {
    /// A collector with no keys and an expiry of 6000 seconds.
    fn default() -> (r: Self)
        ensures
            r.spec_essential() == Map::<Seq<char>, Item>::empty(),
            r.spec_optional() == Map::<Seq<char>, Item>::empty(),
            r.spec_expires() == 6000,
    {
        AsyncCollector {
            essential_items: StringMap::new(),
            optional_items: StringMap::new(),
            expires_seconds: 6000,
        }
    }
}

} // verus!
