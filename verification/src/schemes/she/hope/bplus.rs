//! The code tree: the leaves of the stored ciphertexts, in the order in which
//! they were inserted. The order code of a ciphertext is the insertion
//! position of its leaf.
use vstd::prelude::*;

use crate::schemes::she::hope::object_id::{same_object_id, ObjectIdBytes};
use crate::schemes::she::hope::paillier_values::PaillierCiphertext;

verus! {

/// A leaf of the code tree: the id of a stored ciphertext and the
/// ciphertext.
pub struct Leaf {
    pub _id: ObjectIdBytes,
    pub _c: PaillierCiphertext,
}

impl Leaf {
    /// A leaf for the ciphertext `_c` stored under `_id`.
    pub fn new(_id: ObjectIdBytes, _c: PaillierCiphertext) -> (l: Leaf)
        ensures
            l._id == _id,
            l._c == _c,
    {
        Leaf { _id, _c }
    }
}

/// The position of the first occurrence of `id` in `s`, if it occurs.
pub open spec fn first_index(s: Seq<ObjectIdBytes>, id: ObjectIdBytes) -> Option<nat>
    decreases s.len(),
{
    if s.len() == 0 {
        None
    } else {
        match first_index(s.drop_last(), id) {
            Some(i) => Some(i),
            None => if s.last() == id {
                Some((s.len() - 1) as nat)
            } else {
                None
            },
        }
    }
}

/// The order code of `id` among the leaf ids `s`: the position of its first
/// leaf.
pub open spec fn code_in(s: Seq<ObjectIdBytes>, id: ObjectIdBytes) -> Option<u64> {
    match first_index(s, id) {
        Some(i) => Some(i as u64),
        None => None,
    }
}

/// `first_index` is the least position that holds `id`, and it is absent
/// exactly when no position holds `id`.
pub proof fn lemma_first_index(s: Seq<ObjectIdBytes>, id: ObjectIdBytes)
    ensures
        first_index(s, id) is None <==> !s.contains(id),
        first_index(s, id) matches Some(i) ==> i < s.len() && s[i as int] == id && forall|j: int|
            0 <= j < i ==> s[j] != id,
    decreases s.len(),
{
    if s.len() > 0 {
        let p = s.drop_last();
        lemma_first_index(p, id);
        if first_index(p, id) is None {
            assert forall|j: int| 0 <= j < s.len() - 1 implies s[j] != id by {
                assert(s[j] == p[j]);
                if s[j] == id {
                    assert(p.contains(id));
                }
            }
            if s.contains(id) {
                let k = choose|k: int| 0 <= k < s.len() && s[k] == id;
                if k < s.len() - 1 {
                    assert(p[k] == id);
                }
            }
        } else {
            let i = first_index(p, id)->0;
            assert(s[i as int] == p[i as int]);
            assert(s.contains(id));
            assert forall|j: int| 0 <= j < i implies s[j] != id by {
                assert(s[j] == p[j]);
            }
        }
        if !s.contains(id) {
            if p.contains(id) {
                let k = choose|k: int| 0 <= k < p.len() && p[k] == id;
                assert(s[k] == id);
            }
        }
    }
}

/// A leaf that was just added has a code: its position, or the position of
/// an earlier leaf with the same id.
pub proof fn lemma_code_after_insert(s: Seq<ObjectIdBytes>, id: ObjectIdBytes)
    ensures
        first_index(s.push(id), id) is Some,
        !s.contains(id) ==> first_index(s.push(id), id) == Some(s.len()),
        s.contains(id) ==> first_index(s.push(id), id) == first_index(s, id),
{
    assert(s.push(id).drop_last() =~= s);
    lemma_first_index(s, id);
}

/// Adding a leaf leaves the code of every leaf already in the tree as it was.
pub proof fn lemma_insert_keeps_codes(s: Seq<ObjectIdBytes>, id: ObjectIdBytes, other: ObjectIdBytes)
    requires
        s.contains(other),
    ensures
        first_index(s.push(id), other) == first_index(s, other),
{
    assert(s.push(id).drop_last() =~= s);
    lemma_first_index(s, other);
}

/// The code tree of a hOPE system.
pub struct Tree {
    degree: usize,
    leaves: Vec<Leaf>,
}

impl Tree {
    /// The ids of the leaves, in tree order.
    pub closed spec fn ids(self) -> Seq<ObjectIdBytes> {
        self.leaves@.map_values(|l: Leaf| l._id)
    }

    /// The ciphertexts of the leaves, in tree order.
    pub closed spec fn ciphertexts(self) -> Seq<Seq<u8>> {
        self.leaves@.map_values(|l: Leaf| l._c@)
    }

    /// The degree that the tree was made with.
    pub closed spec fn degree(self) -> usize {
        self.degree
    }

    /// The order code of `id` in this tree.
    pub open spec fn code_of(self, id: ObjectIdBytes) -> Option<u64> {
        code_in(self.ids(), id)
    }

    /// An empty tree of the given degree.
    pub fn new(degree: usize) -> (t: Tree)
        ensures
            t.ids() == Seq::<ObjectIdBytes>::empty(),
            t.ciphertexts() == Seq::<Seq<u8>>::empty(),
            t.degree() == degree,
    {
        let t = Tree { degree, leaves: Vec::new() };
        assert(t.ids() =~= Seq::<ObjectIdBytes>::empty());
        assert(t.ciphertexts() =~= Seq::<Seq<u8>>::empty());
        t
    }

    /// The number of leaves.
    pub fn len(&self) -> (n: usize)
        ensures
            n == self.ids().len(),
    {
        self.leaves.len()
    }

    /// Adds `leaf` after the leaves already in the tree.
    pub fn insert(&mut self, leaf: Leaf)
        ensures
            final(self).ids() == old(self).ids().push(leaf._id),
            final(self).ciphertexts() == old(self).ciphertexts().push(leaf._c@),
            final(self).degree() == old(self).degree(),
    {
        self.leaves.push(leaf);
        assert(self.ids() =~= old(self).ids().push(leaf._id));
        assert(self.ciphertexts() =~= old(self).ciphertexts().push(leaf._c@));
    }

    /// The order code of the ciphertext stored under `id`: the position of
    /// its first leaf, or `None` where no leaf holds `id`.
    pub fn code(&self, id: ObjectIdBytes) -> (r: Option<u64>)
        ensures
            r == self.code_of(id),
    {
        proof {
            lemma_first_index(self.ids(), id);
        }
        let mut i: usize = 0;
        while i < self.leaves.len()
            invariant
                0 <= i <= self.leaves@.len(),
                self.ids().len() == self.leaves@.len(),
                forall|j: int| 0 <= j < i ==> self.ids()[j] != id,
                first_index(self.ids(), id) is None <==> !self.ids().contains(id),
                first_index(self.ids(), id) matches Some(k) ==> k < self.ids().len()
                    && self.ids()[k as int] == id && forall|j: int| 0 <= j < k ==> self.ids()[j] != id,
            decreases self.leaves@.len() - i,
        {
            if same_object_id(&self.leaves[i]._id, &id) {
                proof {
                    assert(self.ids()[i as int] == id);
                    assert(self.ids().contains(id));
                    let k = first_index(self.ids(), id)->0;
                    if k < i {
                        assert(self.ids()[k as int] != id);
                    }
                    if k > i {
                        assert(self.ids()[i as int] != id);
                    }
                }
                return Some(i as u64);
            }
            i = i + 1;
        }
        proof {
            if self.ids().contains(id) {
                let k = choose|k: int| 0 <= k < self.ids().len() && self.ids()[k] == id;
                assert(self.ids()[k] != id);
            }
        }
        None
    }
}

} // verus!
