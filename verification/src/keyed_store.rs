//! A finite map keyed by strings.
//!
//! The stores of the ledger are keyed by account names and by content. This map
//! keeps its entries in a vector, no key twice, and is viewed as a mathematical
//! map from the characters of a key to the value stored under it.

use vstd::prelude::*;

verus! {

/// The key of the entry at position `i`, as characters.
spec fn key_at<V>(entries: Seq<(String, V)>, i: int) -> Seq<char> {
    entries[i].0@
}

/// Some entry has the key `k`.
spec fn holds<V>(entries: Seq<(String, V)>, k: Seq<char>) -> bool {
    exists|i: int| 0 <= i < entries.len() && #[trigger] key_at(entries, i) == k
}

/// A position at which the key `k` stands, where there is one.
spec fn slot_of<V>(entries: Seq<(String, V)>, k: Seq<char>) -> int {
    choose|i: int| 0 <= i < entries.len() && #[trigger] key_at(entries, i) == k
}

/// No key stands at two positions.
spec fn keys_distinct<V>(entries: Seq<(String, V)>) -> bool {
    forall|i: int, j: int|
        0 <= i < j < entries.len() ==> key_at(entries, i) != key_at(entries, j)
}

/// The map that the entries stand for.
spec fn as_map<V>(entries: Seq<(String, V)>) -> Map<Seq<char>, V> {
    Map::new(|k: Seq<char>| holds(entries, k), |k: Seq<char>| entries[slot_of(entries, k)].1)
}

/// Where keys are distinct, the entry at position `i` is what the map holds
/// under its key.
proof fn lemma_entry_in_map<V>(entries: Seq<(String, V)>, i: int)
    requires
        keys_distinct(entries),
        0 <= i < entries.len(),
    ensures
        as_map(entries).contains_key(key_at(entries, i)),
        as_map(entries)[key_at(entries, i)] == entries[i].1,
{
    let k = key_at(entries, i);
    assert(holds(entries, k));
    let j = slot_of(entries, k);
    assert(key_at(entries, j) == k);
    assert(i == j);
}

/// Overwriting the value at a key's position overwrites it in the map.
proof fn lemma_update<V>(entries: Seq<(String, V)>, i: int, key: String, value: V)
    requires
        keys_distinct(entries),
        0 <= i < entries.len(),
        key_at(entries, i) == key@,
    ensures
        keys_distinct(entries.update(i, (key, value))),
        as_map(entries.update(i, (key, value))) == as_map(entries).insert(key@, value),
{
    let after = entries.update(i, (key, value));
    assert forall|j: int| 0 <= j < entries.len() implies key_at(after, j) == key_at(
        entries,
        j,
    ) by {}
    assert forall|k: Seq<char>| holds(after, k) == holds(entries, k) by {
        if holds(after, k) {
            assert(key_at(entries, slot_of(after, k)) == k);
        }
        if holds(entries, k) {
            assert(key_at(after, slot_of(entries, k)) == k);
        }
    }
    assert forall|k: Seq<char>| holds(after, k) implies as_map(after)[k] == as_map(
        entries,
    ).insert(key@, value)[k] by {
        let j = slot_of(after, k);
        lemma_entry_in_map(after, j);
        if j != i {
            lemma_entry_in_map(entries, j);
        }
    }
    assert(as_map(after) =~= as_map(entries).insert(key@, value));
}

/// Appending an entry under a new key adds it to the map.
proof fn lemma_push<V>(entries: Seq<(String, V)>, key: String, value: V)
    requires
        keys_distinct(entries),
        !holds(entries, key@),
    ensures
        keys_distinct(entries.push((key, value))),
        as_map(entries.push((key, value))) == as_map(entries).insert(key@, value),
{
    let after = entries.push((key, value));
    let n = entries.len() as int;
    assert forall|j: int| 0 <= j < n implies key_at(after, j) == key_at(entries, j) by {}
    assert(key_at(after, n) == key@);
    assert forall|i: int, j: int| 0 <= i < j < after.len() implies key_at(after, i) != key_at(
        after,
        j,
    ) by {
        if j == n {
            assert(key_at(entries, i) != key@);
        }
    }
    assert forall|k: Seq<char>| holds(after, k) == (holds(entries, k) || k == key@) by {
        if holds(after, k) {
            let j = slot_of(after, k);
            if j < n {
                assert(key_at(entries, j) == k);
            }
        }
        if holds(entries, k) {
            assert(key_at(after, slot_of(entries, k)) == k);
        }
    }
    assert forall|k: Seq<char>| holds(after, k) implies as_map(after)[k] == as_map(
        entries,
    ).insert(key@, value)[k] by {
        let j = slot_of(after, k);
        lemma_entry_in_map(after, j);
        if j < n {
            lemma_entry_in_map(entries, j);
        }
    }
    assert(as_map(after) =~= as_map(entries).insert(key@, value));
}

/// Taking out the entry at a key's position takes the key out of the map.
proof fn lemma_remove<V>(entries: Seq<(String, V)>, i: int)
    requires
        keys_distinct(entries),
        0 <= i < entries.len(),
    ensures
        keys_distinct(entries.remove(i)),
        as_map(entries.remove(i)) == as_map(entries).remove(key_at(entries, i)),
{
    let after = entries.remove(i);
    let gone = key_at(entries, i);
    assert forall|j: int| 0 <= j < after.len() implies key_at(after, j) == key_at(
        entries,
        if j < i {
            j
        } else {
            j + 1
        },
    ) by {}
    assert forall|k: Seq<char>| holds(after, k) == (holds(entries, k) && k != gone) by {
        if holds(after, k) {
            let j = slot_of(after, k);
            let orig = if j < i {
                j
            } else {
                j + 1
            };
            assert(key_at(entries, orig) == k);
        }
        if holds(entries, k) && k != gone {
            let j = slot_of(entries, k);
            let moved = if j < i {
                j
            } else {
                j - 1
            };
            assert(key_at(after, moved) == k);
        }
    }
    assert forall|k: Seq<char>| holds(after, k) implies as_map(after)[k] == as_map(
        entries,
    ).remove(gone)[k] by {
        let j = slot_of(after, k);
        lemma_entry_in_map(after, j);
        lemma_entry_in_map(
            entries,
            if j < i {
                j
            } else {
                j + 1
            },
        );
    }
    assert(as_map(after) =~= as_map(entries).remove(gone));
}

/// A finite map from strings to values of type `V`.
#[derive(Debug)]
pub struct KeyedStore<V> {
    entries: Vec<(String, V)>,
}

impl<V> View for KeyedStore<V> {
    type V = Map<Seq<char>, V>;

    /// The map from each stored key to its value.
    closed spec fn view(&self) -> Map<Seq<char>, V> {
        as_map(self.entries@)
    }
}

impl<V> KeyedStore<V> {
    #[verifier::type_invariant]
    spec fn well_formed(self) -> bool {
        keys_distinct(self.entries@)
    }

    /// A store without entries.
    pub fn new() -> (store: Self)
        ensures
            store@ == Map::<Seq<char>, V>::empty(),
    {
        let store = KeyedStore { entries: Vec::new() };
        assert(store@ =~= Map::<Seq<char>, V>::empty());
        store
    }

    /// The position of the entry under `key`, if there is one.
    fn position(&self, key: &String) -> (found: Option<usize>)
        ensures
            match found {
                Some(i) => i < self.entries@.len() && key_at(self.entries@, i as int) == key@,
                None => !holds(self.entries@, key@),
            },
    {
        let mut i: usize = 0;
        while i < self.entries.len()
            invariant
                i <= self.entries@.len(),
                forall|j: int| 0 <= j < i ==> key_at(self.entries@, j) != key@,
            decreases self.entries@.len() - i,
        {
            if self.entries[i].0 == *key {
                return Some(i);
            }
            i += 1;
        }
        None
    }

    /// The value stored under `key`, if there is one.
    pub fn get(&self, key: &String) -> (value: Option<&V>)
        ensures
            match value {
                Some(v) => self@.contains_key(key@) && self@[key@] == *v,
                None => !self@.contains_key(key@),
            },
    {
        proof {
            use_type_invariant(self);
        }
        match self.position(key) {
            Some(i) => {
                proof {
                    lemma_entry_in_map(self.entries@, i as int);
                }
                Some(&self.entries[i].1)
            },
            None => None,
        }
    }

    /// Stores `value` under `key`, in place of what was stored there before.
    pub fn insert(&mut self, key: String, value: V)
        ensures
            final(self)@ == old(self)@.insert(key@, value),
    {
        proof {
            use_type_invariant(&*self);
        }
        let found = self.position(&key);
        let mut entries: Vec<(String, V)> = Vec::new();
        core::mem::swap(&mut self.entries, &mut entries);
        match found {
            Some(i) => {
                proof {
                    lemma_update(entries@, i as int, key, value);
                }
                entries.set(i, (key, value));
            },
            None => {
                proof {
                    lemma_push(entries@, key, value);
                }
                entries.push((key, value));
            },
        }
        self.entries = entries;
    }

    /// Takes away what is stored under `key`, if anything is.
    pub fn remove(&mut self, key: &String)
        ensures
            final(self)@ == old(self)@.remove(key@),
    {
        proof {
            use_type_invariant(&*self);
        }
        match self.position(key) {
            Some(i) => {
                let mut entries: Vec<(String, V)> = Vec::new();
                core::mem::swap(&mut self.entries, &mut entries);
                proof {
                    lemma_remove(entries@, i as int);
                }
                let _ = entries.remove(i);
                self.entries = entries;
            },
            None => {
                assert(self@ =~= old(self)@.remove(key@));
            },
        }
    }
}

} // verus!
