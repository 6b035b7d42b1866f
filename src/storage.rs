//! Named key/value storages whose writes are reported as events.
use vstd::prelude::*;
use vstd::string::*;
use crate::events::EventType;
use crate::invocation::{opt_view, pairs_map};
use crate::namespaces::StorageType;

verus! {

/// A named store of string values under string keys; a later entry for a key
/// overrides an earlier one.
#[derive(Debug, Clone)]
pub struct Storage {
    pub name: String,
    pub type_: StorageType,
    pub entries: Vec<(String, String)>,
}

/// The value stored under `key`, if any.
pub open spec fn lookup(m: Map<Seq<char>, Seq<char>>, key: Seq<char>) -> Option<Seq<char>> {
    if m.contains_key(key) { Some(m[key]) } else { None }
}

/// What a write of `value` under `key` does: `after` is `before` with the
/// key set, and `r` reports the storage, the key, the replaced value and the
/// new one.
pub open spec fn written(before: Storage, after: Storage, key: Seq<char>, value: String, r: EventType) -> bool {
    &&& after.name == before.name
    &&& after.type_ == before.type_
    &&& after.contents() == before.contents().insert(key, value@)
    &&& r matches EventType::StorageUpdate { storage_name, storage_type, key: k, prev, new: Some(n) }
        && storage_name == before.name && storage_type == before.type_ && k@ == key
        && opt_view(prev) == lookup(before.contents(), key) && n == value
}

impl Storage {
    pub open spec fn contents(&self) -> Map<Seq<char>, Seq<char>> {
        pairs_map(self.entries@)
    }

    /// An empty storage.
    pub fn new(name: String, type_: StorageType) -> (r: Storage)
        ensures
            r.name == name,
            r.type_ == type_,
            r.contents() == Map::<Seq<char>, Seq<char>>::empty(),
    {
        Storage { name, type_, entries: Vec::new() }
    }

    /// The value under `key`.
    pub fn get(&self, key: &str) -> (r: Option<String>)
        ensures
            opt_view(r) == lookup(self.contents(), key@),
    {
        let target = String::from_str(key);
        let mut k: usize = self.entries.len();
        assert(self.entries@.take(k as int) =~= self.entries@);
        while k > 0
            invariant
                k <= self.entries.len(),
                target@ == key@,
                lookup(self.contents(), key@) == lookup(pairs_map(self.entries@.take(k as int)), key@),
            decreases k,
        {
            assert(self.entries@.take(k as int).drop_last() =~= self.entries@.take(k - 1));
            if self.entries[k - 1].0 == target {
                return Some(self.entries[k - 1].1.clone());
            }
            k = k - 1;
        }
        assert(self.entries@.take(0) =~= Seq::<(String, String)>::empty());
        None
    }

    /// Stores `value` under `key` and reports the write: the storage's name
    /// and type, the key, the value it replaced (if any) and the new value.
    pub fn set(&mut self, key: &str, value: String) -> (r: EventType)
        ensures
            written(*old(self), *final(self), key@, value, r),
    {
        let prev = self.get(key);
        let ghost old_entries = self.entries@;
        self.entries.push((String::from_str(key), value.clone()));
        assert(self.entries@.drop_last() =~= old_entries);
        EventType::StorageUpdate {
            storage_name: self.name.clone(),
            storage_type: self.type_,
            key: String::from_str(key),
            prev,
            new: Some(value),
        }
    }
}

/// Two writes to one key that the storage did not hold: the first reports no
/// previous value and the new one; the second reports the first write's value
/// as the previous one and its own as the new one.
pub proof fn lemma_write_sequence(
    s0: Storage,
    s1: Storage,
    s2: Storage,
    key: Seq<char>,
    first: String,
    second: String,
    e1: EventType,
    e2: EventType,
)
    requires
        !s0.contents().contains_key(key),
        written(s0, s1, key, first, e1),
        written(s1, s2, key, second, e2),
    ensures
        e1 matches EventType::StorageUpdate { prev: None, new: Some(n), .. } && n == first,
        e2 matches EventType::StorageUpdate { prev: Some(p), new: Some(n), .. } && p@ == first@ && n == second,
        lookup(s2.contents(), key) == Some(second@),
{
    assert(s1.contents().contains_key(key));
}

} // verus!
