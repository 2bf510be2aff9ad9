//! The APL lookup table: a map from the byte encoding of a group token to
//! the identifier of the ciphertext stored for it.
use vstd::prelude::*;

use crate::schemes::she::hope::object_id::ObjectIdBytes;
use crate::schemes::she::hope::paillier_values::same_bytes;

verus! {

/// A finite map from byte strings to object ids. Each key occurs once.
pub struct AplTable {
    entries: Vec<(Vec<u8>, ObjectIdBytes)>,
}

impl AplTable {
    /// The key of entry `i`.
    spec fn key_at(self, i: int) -> Seq<u8> {
        self.entries@[i].0@
    }

    /// Entry `i` holds `k`.
    spec fn holds_at(self, i: int, k: Seq<u8>) -> bool {
        0 <= i < self.entries@.len() && self.key_at(i) == k
    }

    /// No key occurs twice.
    #[verifier::type_invariant]
    spec fn keys_distinct(self) -> bool {
        forall|i: int, j: int|
            0 <= i < self.entries@.len() && 0 <= j < self.entries@.len() && i != j ==> #[trigger] self.key_at(i)
                != #[trigger] self.key_at(j)
    }

    /// The entry that holds `k`, where there is one.
    spec fn index_of(self, k: Seq<u8>) -> int {
        choose|i: int| self.holds_at(i, k)
    }

    /// The map that the table stands for.
    pub closed spec fn as_map(self) -> Map<Seq<u8>, ObjectIdBytes> {
        Map::new(
            |k: Seq<u8>| exists|i: int| self.holds_at(i, k),
            |k: Seq<u8>| self.entries@[self.index_of(k)].1,
        )
    }

    /// The table stands for a finite map.
    pub proof fn lemma_finite(self)
        ensures
            self@.dom().finite(),
    {
        let keys = self.entries@.map_values(|e: (Vec<u8>, ObjectIdBytes)| e.0@);
        assert forall|k: Seq<u8>| #[trigger] self@.dom().contains(k) <==> keys.to_set().contains(k) by {
            if self@.dom().contains(k) {
                let i = choose|i: int| self.holds_at(i, k);
                assert(keys[i] == k);
            }
            if keys.to_set().contains(k) {
                let i = choose|i: int| 0 <= i < keys.len() && keys[i] == k;
                assert(self.holds_at(i, k));
            }
        }
        assert(self@.dom() =~= keys.to_set());
        vstd::seq_lib::seq_to_set_is_finite(keys);
    }

    proof fn lemma_entry_in_map(self, i: int)
        requires
            self.keys_distinct(),
            0 <= i < self.entries@.len(),
        ensures
            self.as_map().contains_key(self.key_at(i)),
            self.as_map()[self.key_at(i)] == self.entries@[i].1,
    {
        let k = self.key_at(i);
        assert(self.holds_at(i, k));
        let j = self.index_of(k);
        assert(self.holds_at(j, k));
        if j != i {
            assert(self.key_at(i) != self.key_at(j));
        }
    }

    /// An empty table.
    pub fn new() -> (t: AplTable)
        ensures
            t@ == Map::<Seq<u8>, ObjectIdBytes>::empty(),
            t@.dom().finite(),
    {
        let t = AplTable { entries: Vec::new() };
        assert(t@ =~= Map::<Seq<u8>, ObjectIdBytes>::empty());
        t
    }

    /// The id filed under `key`, as `BTreeMap::get`.
    pub fn get(&self, key: &Vec<u8>) -> (r: Option<ObjectIdBytes>)
        ensures
            self@.contains_key(key@) ==> r == Some(self@[key@]),
            !self@.contains_key(key@) ==> r is None,
            self@.dom().finite(),
    {
        proof {
            self.lemma_finite();
        }
        proof {
            use_type_invariant(self);
        }
        let mut i: usize = 0;
        while i < self.entries.len()
            invariant
                self.keys_distinct(),
                self@.dom().finite(),
                0 <= i <= self.entries@.len(),
                forall|j: int| 0 <= j < i ==> self.key_at(j) != key@,
            decreases self.entries@.len() - i,
        {
            if same_bytes(&self.entries[i].0, key) {
                proof {
                    self.lemma_entry_in_map(i as int);
                }
                return Some(self.entries[i].1);
            }
            i = i + 1;
        }
        proof {
            if self@.contains_key(key@) {
                let j = choose|j: int| self.holds_at(j, key@);
                assert(self.key_at(j) == key@);
            }
        }
        None
    }

    /// Files `value` under `key`, as `BTreeMap::insert`: the table then maps
    /// `key` to `value` and every other key as before, and the id that
    /// `key` had before, if any, is returned.
    pub fn insert(&mut self, key: Vec<u8>, value: ObjectIdBytes) -> (r: Option<ObjectIdBytes>)
        ensures
            final(self)@ == old(self)@.insert(key@, value),
            old(self)@.contains_key(key@) ==> r == Some(old(self)@[key@]),
            !old(self)@.contains_key(key@) ==> r is None,
            old(self)@.dom().finite(),
            final(self)@.dom().finite(),
            final(self)@.len() == old(self)@.len() + if old(self)@.contains_key(key@) {
                0int
            } else {
                1int
            },
    {
        proof {
            old(self).lemma_finite();
        }
        proof {
            use_type_invariant(&*self);
        }
        let ghost old_table = *self;
        let ghost k = key@;
        let mut entries: Vec<(Vec<u8>, ObjectIdBytes)> = Vec::new();
        std::mem::swap(&mut entries, &mut self.entries);
        let mut i: usize = 0;
        while i < entries.len()
            invariant
                *old(self) == old_table,
                entries@ == old_table.entries@,
                old_table.keys_distinct(),
                0 <= i <= entries@.len(),
                forall|j: int| 0 <= j < i ==> old_table.key_at(j) != k,
                k == key@,
            decreases entries@.len() - i,
        {
            if same_bytes(&entries[i].0, &key) {
                let previous = entries[i].1;
                proof {
                    old_table.lemma_entry_in_map(i as int);
                }
                let ghost at = i as int;
                entries.set(i, (key, value));
                let ghost new_table = AplTable { entries };
                proof {
                    assert(new_table.key_at(at) == k);
                    assert forall|a: int, b: int|
                        0 <= a < new_table.entries@.len() && 0 <= b < new_table.entries@.len() && a
                            != b implies #[trigger] new_table.key_at(a) != #[trigger] new_table.key_at(
                        b,
                    ) by {
                        assert(old_table.key_at(a) == new_table.key_at(a));
                        assert(old_table.key_at(b) == new_table.key_at(b));
                    }
                    new_table.lemma_same_keys_update(old_table, at, value);
                }
                self.entries = entries;
                proof {
                    self.lemma_finite();
                    assert(old_table@.insert(k, value).dom() =~= old_table@.dom());
                }
                return Some(previous);
            }
            i = i + 1;
        }
        proof {
            if old_table@.contains_key(k) {
                let j = choose|j: int| old_table.holds_at(j, k);
                assert(old_table.key_at(j) == k);
            }
        }
        entries.push((key, value));
        let ghost new_table = AplTable { entries };
        proof {
            let n = old_table.entries@.len() as int;
            assert forall|a: int, b: int|
                0 <= a < new_table.entries@.len() && 0 <= b < new_table.entries@.len() && a
                    != b implies #[trigger] new_table.key_at(a) != #[trigger] new_table.key_at(b) by {
                if a < n {
                    assert(old_table.key_at(a) == new_table.key_at(a));
                }
                if b < n {
                    assert(old_table.key_at(b) == new_table.key_at(b));
                }
            }
            new_table.lemma_push_new_key(old_table, value);
        }
        self.entries = entries;
        proof {
            self.lemma_finite();
        }
        None
    }

    /// Replacing the id of an entry replaces it in the map.
    proof fn lemma_same_keys_update(self, before: AplTable, at: int, value: ObjectIdBytes)
        requires
            self.keys_distinct(),
            before.keys_distinct(),
            0 <= at < before.entries@.len(),
            self.entries@.len() == before.entries@.len(),
            forall|j: int| 0 <= j < self.entries@.len() ==> self.key_at(j) == before.key_at(j),
            forall|j: int| 0 <= j < self.entries@.len() && j != at ==> self.entries@[j].1 == before.entries@[j].1,
            self.entries@[at].1 == value,
        ensures
            self.as_map() == before.as_map().insert(before.key_at(at), value),
    {
        let m = before.as_map().insert(before.key_at(at), value);
        assert forall|k: Seq<u8>| #[trigger] self.as_map().contains_key(k) <==> m.contains_key(k) by {
            if self.as_map().contains_key(k) {
                let j = choose|j: int| self.holds_at(j, k);
                assert(before.holds_at(j, k));
            }
            if m.contains_key(k) {
                if k == before.key_at(at) {
                    assert(self.holds_at(at, k));
                } else {
                    let j = choose|j: int| before.holds_at(j, k);
                    assert(self.holds_at(j, k));
                }
            }
        }
        assert forall|k: Seq<u8>| self.as_map().contains_key(k) implies #[trigger] self.as_map()[k]
            == m[k] by {
            let j = choose|j: int| self.holds_at(j, k);
            assert(self.holds_at(j, k));
            self.lemma_entry_in_map(j);
            assert(self.key_at(j) == k);
            if j != at {
                before.lemma_entry_in_map(j);
                assert(before.key_at(j) == k);
                assert(k != before.key_at(at)) by {
                    assert(before.key_at(j) != before.key_at(at));
                }
            }
        }
        assert(self.as_map() =~= m);
    }

    /// Appending an entry with a new key inserts it into the map.
    proof fn lemma_push_new_key(self, before: AplTable, value: ObjectIdBytes)
        requires
            self.keys_distinct(),
            before.keys_distinct(),
            self.entries@.len() == before.entries@.len() + 1,
            forall|j: int| 0 <= j < before.entries@.len() ==> self.entries@[j] == before.entries@[j],
            self.entries@.last().1 == value,
            !before.as_map().contains_key(self.entries@.last().0@),
        ensures
            self.as_map() == before.as_map().insert(self.entries@.last().0@, value),
    {
        let n = before.entries@.len() as int;
        let k0 = self.key_at(n);
        let m = before.as_map().insert(k0, value);
        assert forall|k: Seq<u8>| #[trigger] self.as_map().contains_key(k) <==> m.contains_key(k) by {
            if self.as_map().contains_key(k) {
                let j = choose|j: int| self.holds_at(j, k);
                if j < n {
                    assert(before.holds_at(j, k));
                }
            }
            if m.contains_key(k) {
                if k == k0 {
                    assert(self.holds_at(n, k));
                } else {
                    let j = choose|j: int| before.holds_at(j, k);
                    assert(self.holds_at(j, k));
                }
            }
        }
        assert forall|k: Seq<u8>| self.as_map().contains_key(k) implies #[trigger] self.as_map()[k]
            == m[k] by {
            let j = choose|j: int| self.holds_at(j, k);
            assert(self.holds_at(j, k));
            self.lemma_entry_in_map(j);
            if j < n {
                assert(before.holds_at(j, k));
                before.lemma_entry_in_map(j);
                assert(k != k0) by {
                    assert(self.key_at(j) != self.key_at(n));
                }
            }
        }
        assert(self.as_map() =~= m);
    }
}

impl View for AplTable {
    type V = Map<Seq<u8>, ObjectIdBytes>;

    open spec fn view(&self) -> Map<Seq<u8>, ObjectIdBytes> {
        self.as_map()
    }
}

/// Filing the same id under the same key a second time returns that id and
/// leaves the table as it was.
pub proof fn lemma_insert_same_twice(
    before: AplTable,
    once: AplTable,
    twice: AplTable,
    key: Seq<u8>,
    value: ObjectIdBytes,
)
    requires
        once@ == before@.insert(key, value),
        twice@ == once@.insert(key, value),
    ensures
        once@.contains_key(key),
        once@[key] == value,
        twice@ == once@,
{
    assert(twice@ =~= once@);
}

/// Reading a key after filing an id under it gives that id back; filing
/// under one key leaves every other key as it was.
pub proof fn lemma_get_after_insert(
    before: AplTable,
    after: AplTable,
    key: Seq<u8>,
    value: ObjectIdBytes,
    other: Seq<u8>,
)
    requires
        after@ == before@.insert(key, value),
        other != key,
    ensures
        after@.contains_key(key),
        after@[key] == value,
        after@.contains_key(other) == before@.contains_key(other),
        before@.contains_key(other) ==> after@[other] == before@[other],
{
}

} // verus!
