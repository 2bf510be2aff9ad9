//! The hOPE scheme: homomorphic encryption with order codes.
//!
//! * Setting: bilinear groups (asymmetric)
//!
//! A system keeps two group elements `p` and `q`, a code tree whose leaves
//! hold the stored Paillier ciphertexts in the order in which they were
//! inserted, and a lookup table (APL) that files the byte encoding of each
//! ciphertext's group token under the ciphertext's id. A ciphertext carries
//! its Paillier ciphertext, its token `g` in G1, the pairing of `g` with `q`,
//! and its order code: the insertion position of its leaf in the code tree.
//! Ciphertexts compare by their order codes. The codes follow the order of
//! insertion; nothing here compares plaintexts, so they are ordered by
//! plaintext only where the ciphertexts were inserted in plaintext order.
//!
//! The Paillier operations themselves (key generation, encryption,
//! decryption, homomorphic addition) are made by the caller; the system is
//! handed their results as the bytes of their serialized form.
pub mod apl;
pub mod bplus;
pub mod digits;
pub mod group;
pub mod object_id;
pub mod order;
pub mod paillier_values;

use rabe_bn::{G1, Gt};
use vstd::prelude::*;

use crate::schemes::she::hope::apl::AplTable;
use crate::schemes::she::hope::bplus::{lemma_code_after_insert, lemma_insert_keeps_codes, Leaf, Tree};
use crate::schemes::she::hope::digits::{decimal, decimal_string};
use crate::schemes::she::hope::group::{
    fr_from_str, fr_parsed, g1_difference, g1_encoding, g1_scaled, g1_sum, pairing_value,
    G1Element, G2Element,
};
use crate::schemes::she::hope::object_id::{local_object_id, new_object_id, ObjectIdBytes};
use crate::schemes::she::hope::paillier_values::{
    PaillierCiphertext, PaillierDecryptionKey, PaillierEncryptionKey,
};

verus! {

/// A hOPE key (SK): a Paillier key pair, the decryption half optional.
#[allow(non_camel_case_types)]
#[derive(Clone)]
pub struct hopeKey {
    pub _dk: Option<PaillierDecryptionKey>,
    pub _ek: PaillierEncryptionKey,
}

/// A hOPE ciphertext.
#[allow(non_camel_case_types)]
pub struct hopeCiphertext {
    /// The id under which the ciphertext is stored.
    pub _id: ObjectIdBytes,
    /// The Paillier ciphertext of the plaintext.
    pub _c: PaillierCiphertext,
    /// The group token of the ciphertext.
    pub _g: G1Element,
    /// The pairing of the token with the system's `q`.
    pub _h: Gt,
    /// The order code: the insertion position of the ciphertext's leaf in the
    /// code tree.
    pub _o: u64,
}

/// A hOPE system (SP).
#[allow(non_camel_case_types)]
pub struct hope {
    /// The id of the system.
    pub _id: ObjectIdBytes,
    /// The name of the collection that stores the system.
    pub _name: String,
    /// The element `p` of the scheme, in G1.
    pub _p: G1Element,
    /// The element `q` of the scheme, in G2.
    pub _q: G2Element,
    /// The code tree.
    pub _tree: Tree,
    /// The lookup table.
    pub _apl: AplTable,
    /// The key pair.
    pub _key: Option<hopeKey>,
}

/// The bytes of a key pair.
pub open spec fn key_bytes(k: hopeKey) -> (Option<Seq<u8>>, Seq<u8>) {
    (
        match k._dk {
            Some(d) => Some(d@),
            None => None,
        },
        k._ek@,
    )
}

/// The bytes of an optional key pair.
pub open spec fn opt_key_bytes(k: Option<hopeKey>) -> Option<(Option<Seq<u8>>, Seq<u8>)> {
    match k {
        Some(k) => Some(key_bytes(k)),
        None => None,
    }
}

/// The group token of plaintext `m` in a system whose element is `p`: `p`
/// scaled by `m`, read from its decimal text into the scalar field.
pub open spec fn message_token(p: G1, m: u64) -> G1 {
    g1_scaled(p, fr_parsed(decimal(m as nat))->0)
}

impl View for hopeCiphertext {
    type V = (ObjectIdBytes, Seq<u8>, G1, Gt, u64);

    open spec fn view(&self) -> (ObjectIdBytes, Seq<u8>, G1, Gt, u64) {
        (self._id, self._c@, self._g@, self._h, self._o)
    }
}

impl hopeKey {
    /// A key made of a fresh Paillier key pair (`Paillier::keypair().keys()`,
    /// made by the caller).
    pub fn new(_ek: PaillierEncryptionKey, _dk: PaillierDecryptionKey) -> (k: hopeKey)
        ensures
            k._ek == _ek,
            k._dk == Some(_dk),
    {
        hopeKey { _dk: Some(_dk), _ek }
    }

    /// A copy of this key.
    pub fn copied(&self) -> (k: hopeKey)
        ensures
            key_bytes(k) == key_bytes(*self),
    {
        let _dk = match &self._dk {
            Some(d) => Some(d.copied()),
            None => None,
        };
        hopeKey { _dk, _ek: self._ek.copied() }
    }
}

impl hopeCiphertext {
    /// A ciphertext made of the given parts.
    pub fn clone(_id: ObjectIdBytes, _c: PaillierCiphertext, _g: G1Element, _h: Gt, _o: u64) -> (ct:
        hopeCiphertext)
        ensures
            ct._id == _id,
            ct._c == _c,
            ct._g == _g,
            ct._h == _h,
            ct._o == _o,
    {
        hopeCiphertext { _id, _c, _g, _h, _o }
    }

    /// A ciphertext stored under `_id`, made of the given parts.
    pub fn from_id(_id: ObjectIdBytes, _c: PaillierCiphertext, _g: G1Element, _h: Gt, _o: u64) -> (ct:
        hopeCiphertext)
        ensures
            ct._id == _id,
            ct._c == _c,
            ct._g == _g,
            ct._h == _h,
            ct._o == _o,
    {
        hopeCiphertext { _id, _c, _g, _h, _o }
    }

    /// A ciphertext of the given parts under a fresh id; `None` where no
    /// fresh id can be made.
    pub fn new(_c: PaillierCiphertext, _g: G1Element, _h: Gt, _o: u64) -> (r: Option<hopeCiphertext>)
        ensures
            r matches Some(ct) ==> ct._c == _c && ct._g == _g && ct._h == _h && ct._o == _o,
    {
        match new_object_id() {
            Some(_id) => Some(hopeCiphertext { _id, _c, _g, _h, _o }),
            None => None,
        }
    }

    /// A copy of this ciphertext.
    pub fn copied(&self) -> (ct: hopeCiphertext)
        ensures
            ct@ == self@,
    {
        hopeCiphertext {
            _id: self._id,
            _c: self._c.copied(),
            _g: self._g,
            _h: self._h,
            _o: self._o,
        }
    }
}

impl hope {
    /// The parts that no operation changes: id, name, `p`, `q`, key pair and
    /// the tree's degree.
    pub open spec fn same_setup(self, other: hope) -> bool {
        &&& self._id == other._id
        &&& self._name@ == other._name@
        &&& self._p == other._p
        &&& self._q == other._q
        &&& opt_key_bytes(self._key) == opt_key_bytes(other._key)
        &&& self._tree.degree() == other._tree.degree()
    }

    /// `new` stands for `old` after storing a ciphertext whose token is `g`
    /// and whose Paillier ciphertext is `c`, and `r` is what the storing
    /// returns: exactly one leaf was added to the code tree, under a new id
    /// (see `stored_under`).
    pub open spec fn stored(
        old: hope,
        new: hope,
        g: G1,
        c: Seq<u8>,
        r: Option<hopeCiphertext>,
    ) -> bool {
        &&& new._tree.ids().len() == old._tree.ids().len() + 1
        &&& hope::stored_under(old, new, g, c, new._tree.ids().last(), r)
    }

    /// `new` stands for `old` after storing, under the id `id`, a ciphertext
    /// whose token is `g` and whose Paillier ciphertext is `c`, and `r` is
    /// what the storing returns: one leaf, with `id` and `c`, was added to the
    /// code tree, `id` was filed in the lookup table under the encoding of
    /// `g`, and the new ciphertext is returned exactly when that encoding was
    /// filed already: it carries `id`, `c`, `g`, the pairing of `g` with `q`,
    /// and the order code of its leaf.
    pub open spec fn stored_under(
        old: hope,
        new: hope,
        g: G1,
        c: Seq<u8>,
        id: ObjectIdBytes,
        r: Option<hopeCiphertext>,
    ) -> bool {
        let b = g1_encoding(g)->0;
        &&& new.same_setup(old)
        &&& new._tree.ids() == old._tree.ids().push(id)
        &&& new._tree.ciphertexts() == old._tree.ciphertexts().push(c)
        &&& new._tree.code_of(id) is Some
        &&& g1_encoding(g) is Some
        &&& old._apl@.dom().finite()
        &&& new._apl@.dom().finite()
        &&& new._apl@ == old._apl@.insert(b, id)
        &&& (r is Some <==> old._apl@.contains_key(b))
        &&& r matches Some(ct) ==> {
            &&& ct._id == id
            &&& ct._c@ == c
            &&& ct._g@ == g
            &&& ct._h == pairing_value(g, old._q@)
            &&& new._tree.code_of(id) == Some(ct._o)
        }
    }

    /// A new system named `_name` whose code tree has degree `_degree` and
    /// whose key pair is `_key` (`hope::keygen`, made by the caller), with
    /// random `p` and `q`, an empty tree and an empty lookup table; `None`
    /// where no fresh id can be made for it.
    pub fn new(_name: String, _degree: usize, _key: Option<hopeKey>) -> (r: Option<hope>)
        ensures
            r matches Some(h) ==> {
                &&& h._name == _name
                &&& h._tree.ids() == Seq::<ObjectIdBytes>::empty()
                &&& h._tree.ciphertexts() == Seq::<Seq<u8>>::empty()
                &&& h._tree.degree() == _degree
                &&& h._apl@ == Map::<Seq<u8>, ObjectIdBytes>::empty()
                &&& h._key == _key
            },
    {
        match new_object_id() {
            Some(_id) => {
                let _p = G1Element::random();
                let _q = G2Element::random();
                Some(hope::from_parts(_id, _name, _p, _q, _degree, _key))
            },
            None => None,
        }
    }

    /// A new system with the id `_id` (`ObjectId::new`, made by `new`), the
    /// name `_name`, the elements `_p` and `_q` (`G1::random`, `G2::random`,
    /// made by `new`), an empty code tree of degree `_degree`, an empty lookup
    /// table and the key pair `_key`.
    pub fn from_parts(
        _id: ObjectIdBytes,
        _name: String,
        _p: G1Element,
        _q: G2Element,
        _degree: usize,
        _key: Option<hopeKey>,
    ) -> (h: hope)
        ensures
            h._id == _id,
            h._name == _name,
            h._p == _p,
            h._q == _q,
            h._tree.ids() == Seq::<ObjectIdBytes>::empty(),
            h._tree.ciphertexts() == Seq::<Seq<u8>>::empty(),
            h._tree.degree() == _degree,
            h._apl@ == Map::<Seq<u8>, ObjectIdBytes>::empty(),
            h._key == _key,
    {
        hope { _id, _name, _p, _q, _tree: Tree::new(_degree), _apl: AplTable::new(), _key }
    }

    /// The key pair of a new system, made of a fresh Paillier key pair.
    pub fn keygen(_ek: PaillierEncryptionKey, _dk: PaillierDecryptionKey) -> (r: Option<hopeKey>)
        ensures
            r matches Some(k) && k._ek == _ek && k._dk == Some(_dk),
    {
        Some(hopeKey::new(_ek, _dk))
    }

    /// Encrypts `_m` where the system holds a key pair, `_c` being the
    /// Paillier encryption of `_m` under the system's encryption key: the
    /// system then stores it as `encrypt_ek` does. Returns `None` in every
    /// case.
    pub fn encrypt(&mut self, _m: u64, _c: PaillierCiphertext) -> (r: Option<hopeCiphertext>)
        ensures
            r is None,
            old(self)._key is None ==> *final(self) == *old(self),
            old(self)._key is Some ==> exists|s: Option<hopeCiphertext>|
                hope::stored(*old(self), *final(self), message_token(old(self)._p@, _m), _c@, s),
    {
        if self.enc_key().is_some() {
            let s = self.encrypt_ek(_m, _c);
            assert(hope::stored(*old(self), *self, message_token(old(self)._p@, _m), _c@, s));
        }
        None
    }

    /// Encrypts `_m`, `_c` being its Paillier encryption (`Paillier::encrypt`,
    /// made by the caller): computes the token `p * m` of `_m` and stores a
    /// new ciphertext for it (see `stored`).
    pub fn encrypt_ek(&mut self, _m: u64, _c: PaillierCiphertext) -> (r: Option<hopeCiphertext>)
        ensures
            hope::stored(*old(self), *final(self), message_token(old(self)._p@, _m), _c@, r),
    {
        let text = decimal_string(_m);
        match fr_from_str(text.as_str()) {
            Some(_fr) => {
                let _g = self._p.scaled(_fr);
                match self.lookup_apl(_g) {
                    Some(_ct) => Some(_ct),
                    None => self.record(_g, _c),
                }
            },
            None => None,
        }
    }

    /// Stores a new ciphertext whose token is `_g` and whose Paillier
    /// ciphertext is `_c` under a fresh object id, or, where no fresh object
    /// id can be had, under the library's own id for the new leaf's position.
    fn record(&mut self, _g: G1Element, _c: PaillierCiphertext) -> (r: Option<hopeCiphertext>)
        ensures
            hope::stored(*old(self), *final(self), _g@, _c@, r),
    {
        let _id = match new_object_id() {
            Some(_id) => _id,
            None => local_object_id(self._tree.len() as u64),
        };
        self.record_under(_g, _c, _id)
    }

    /// Stores a new ciphertext whose token is `_g` and whose Paillier
    /// ciphertext is `_c` under the fresh id `_id` (`ObjectId::new`, made by
    /// `record`): see `stored_under`.
    pub fn record_under(&mut self, _g: G1Element, _c: PaillierCiphertext, _id: ObjectIdBytes) -> (r:
        Option<hopeCiphertext>)
        ensures
            hope::stored_under(*old(self), *final(self), _g@, _c@, _id, r),
    {
        let _h = _g.pair(&self._q);
        let leaf = Leaf::new(_id, _c.copied());
        self.insert_tree(leaf);
        self.update_tree();
        proof {
            lemma_code_after_insert(old(self)._tree.ids(), _id);
        }
        match self.lookup_tree(_id) {
            Some(_code) => {
                let _hct = hopeCiphertext::from_id(_id, _c, _g, _h, _code);
                match self.insert_apl(_hct.copied()) {
                    Some(_ins_res) => Some(_hct),
                    None => None,
                }
            },
            None => None,
        }
    }

    /// Adds two ciphertexts where the system holds a key pair, `_c` being
    /// the Paillier sum of their Paillier ciphertexts under the system's
    /// encryption key (`Paillier::add`, made by the caller): stores a new
    /// ciphertext whose token is the sum of their tokens (see `stored`).
    /// Without a key pair nothing changes and `None` is returned.
    pub fn add(&mut self, _ct1: &hopeCiphertext, _ct2: &hopeCiphertext, _c: PaillierCiphertext) -> (r:
        Option<hopeCiphertext>)
        ensures
            old(self)._key is None ==> *final(self) == *old(self) && r is None,
            old(self)._key is Some ==> hope::stored(
                *old(self),
                *final(self),
                g1_sum(_ct1._g@, _ct2._g@),
                _c@,
                r,
            ),
    {
        if self.enc_key().is_some() {
            let _g1 = _ct1._g.add(&_ct2._g);
            match self.lookup_apl(_g1) {
                Some(_ct) => {
                    return Some(_ct);
                },
                None => {
                    return self.record(_g1, _c);
                },
            }
        }
        None
    }

    /// Subtracts `_ct2` from `_ct1` where the system holds a key pair, `_c`
    /// being the Paillier difference of their Paillier ciphertexts under the
    /// system's encryption key (made by the caller): stores a new ciphertext
    /// whose token is the difference of their tokens (see `stored`).
    /// Without a key pair nothing changes and `None` is returned.
    pub fn sub(&mut self, _ct1: &hopeCiphertext, _ct2: &hopeCiphertext, _c: PaillierCiphertext) -> (r:
        Option<hopeCiphertext>)
        ensures
            old(self)._key is None ==> *final(self) == *old(self) && r is None,
            old(self)._key is Some ==> hope::stored(
                *old(self),
                *final(self),
                g1_difference(_ct1._g@, _ct2._g@),
                _c@,
                r,
            ),
    {
        if self.enc_key().is_some() {
            let _g1 = _ct1._g.sub(&_ct2._g);
            match self.lookup_apl(_g1) {
                Some(_ct) => {
                    return Some(_ct);
                },
                None => {
                    return self.record(_g1, _c);
                },
            }
        }
        None
    }

    /// The stored ciphertext with id `_id`; the system keeps no ciphertexts
    /// of its own, so there is none.
    pub fn fetch_ct(&self, _id: ObjectIdBytes) -> (r: Option<hopeCiphertext>)
        ensures
            r is None,
    {
        None
    }

    /// Stores a ciphertext outside the system; nothing is stored.
    pub fn insert_ct(&self, _ct: hopeCiphertext) -> (r: Option<ObjectIdBytes>)
        ensures
            r is None,
    {
        None
    }

    /// Adds `_elem` to the code tree, after the leaves already there.
    pub fn insert_tree(&mut self, _elem: Leaf)
        ensures
            final(self).same_setup(*old(self)),
            final(self)._tree.ids() == old(self)._tree.ids().push(_elem._id),
            final(self)._tree.ciphertexts() == old(self)._tree.ciphertexts().push(_elem._c@),
            final(self)._apl@ == old(self)._apl@,
    {
        self._tree.insert(_elem);
    }

    /// Brings the stored codes up to date with the tree; there is nothing to
    /// bring up to date here.
    pub fn update_tree(&self) {
    }

    /// The order code of the ciphertext with id `_id`.
    pub fn lookup_tree(&self, _id: ObjectIdBytes) -> (r: Option<u64>)
        ensures
            r == self._tree.code_of(_id),
    {
        self._tree.code(_id)
    }

    /// The stored ciphertext whose token is `_token`: the lookup table gives
    /// its id, and `fetch_ct` the ciphertext, of which there is none.
    pub fn lookup_apl(&self, _token: G1Element) -> (r: Option<hopeCiphertext>)
        ensures
            r is None,
    {
        let _g = _token.encoding();
        match self._apl.get(&_g) {
            Some(_id) => self.fetch_ct(_id),
            None => None,
        }
    }

    /// Files the id of `_elem` in the lookup table under the encoding of its
    /// token, and returns the id filed there before, if any.
    pub fn insert_apl(&mut self, _elem: hopeCiphertext) -> (r: Option<ObjectIdBytes>)
        ensures
            final(self).same_setup(*old(self)),
            final(self)._tree.ids() == old(self)._tree.ids(),
            final(self)._tree.ciphertexts() == old(self)._tree.ciphertexts(),
            g1_encoding(_elem._g@) is Some,
            ({
                let b = g1_encoding(_elem._g@)->0;
                &&& final(self)._apl@ == old(self)._apl@.insert(b, _elem._id)
                &&& old(self)._apl@.contains_key(b) ==> r == Some(old(self)._apl@[b])
                &&& !old(self)._apl@.contains_key(b) ==> r is None
                &&& old(self)._apl@.dom().finite()
                &&& final(self)._apl@.dom().finite()
                &&& final(self)._apl@.len() == old(self)._apl@.len() + if r is None {
                    1int
                } else {
                    0int
                }
            }),
    {
        let _g = _elem._g.encoding();
        self._apl.insert(_g, _elem._id)
    }

    /// A copy of the system's key pair.
    pub fn keys(&self) -> (r: Option<hopeKey>)
        ensures
            opt_key_bytes(r) == opt_key_bytes(self._key),
    {
        match &self._key {
            Some(k) => Some(k.copied()),
            None => None,
        }
    }

    /// A copy of the system's encryption key.
    pub fn enc_key(&self) -> (r: Option<PaillierEncryptionKey>)
        ensures
            match self._key {
                Some(k) => r matches Some(e) && e@ == k._ek@,
                None => r is None,
            },
    {
        if let Some(_k) = &self._key {
            return Some(_k._ek.copied());
        }
        None
    }

    /// A copy of the system's decryption key, where it holds one.
    pub fn dec_key(&self) -> (r: Option<PaillierDecryptionKey>)
        ensures
            match self._key {
                Some(k) => match k._dk {
                    Some(d) => r matches Some(x) && x@ == d@,
                    None => r is None,
                },
                None => r is None,
            },
    {
        if let Some(_k) = &self._key {
            return match &_k._dk {
                Some(d) => Some(d.copied()),
                None => None,
            };
        }
        None
    }
}

/// A token that was stored once is answered: when a ciphertext with token
/// `g` was stored, storing
/// another ciphertext with the same token returns the new ciphertext.
pub proof fn lemma_repeated_token_returns_ciphertext(
    h0: hope,
    h1: hope,
    h2: hope,
    g: G1,
    c1: Seq<u8>,
    c2: Seq<u8>,
    r1: Option<hopeCiphertext>,
    r2: Option<hopeCiphertext>,
)
    requires
        hope::stored(h0, h1, g, c1, r1),
        hope::stored(h1, h2, g, c2, r2),
    ensures
        r2 is Some,
        r2->0._g@ == g,
        r2->0._c@ == c2,
        h2._tree.code_of(r2->0._id) == Some(r2->0._o),
{
}

/// Encrypting the same plaintext twice under a system answers the second
/// time with the new ciphertext, whose token is the token of the plaintext.
pub proof fn lemma_repeated_plaintext_returns_ciphertext(
    h0: hope,
    h1: hope,
    h2: hope,
    m: u64,
    c1: Seq<u8>,
    c2: Seq<u8>,
    r1: Option<hopeCiphertext>,
    r2: Option<hopeCiphertext>,
)
    requires
        hope::stored(h0, h1, message_token(h0._p@, m), c1, r1),
        hope::stored(h1, h2, message_token(h1._p@, m), c2, r2),
    ensures
        r2 is Some,
        r2->0._g@ == message_token(h0._p@, m),
{
    lemma_repeated_token_returns_ciphertext(h0, h1, h2, message_token(h0._p@, m), c1, c2, r1, r2);
}

/// Storing a ciphertext adds exactly one leaf to the code tree, after the
/// leaves already there, holding the ciphertext; files the new leaf's id
/// under the encoding of the token; keeps the code of every leaf already in
/// the tree; and gives the new leaf, where its id is new to the tree, the
/// code that is its position. A returned ciphertext carries the token, the
/// Paillier ciphertext and that code.
pub proof fn lemma_store_adds_one_leaf(
    h0: hope,
    h1: hope,
    g: G1,
    c: Seq<u8>,
    r: Option<hopeCiphertext>,
    other: ObjectIdBytes,
)
    requires
        hope::stored(h0, h1, g, c, r),
    ensures
        h1._tree.ids().len() == h0._tree.ids().len() + 1,
        h1._tree.ids().drop_last() == h0._tree.ids(),
        h1._tree.ciphertexts().last() == c,
        g1_encoding(g) is Some,
        h1._apl@.contains_key(g1_encoding(g)->0),
        h1._apl@[g1_encoding(g)->0] == h1._tree.ids().last(),
        h1._apl@.len() <= h0._apl@.len() + 1,
        h0._tree.ids().contains(other) ==> h1._tree.code_of(other) == h0._tree.code_of(other),
        !h0._tree.ids().contains(h1._tree.ids().last()) ==> h1._tree.code_of(h1._tree.ids().last())
            == Some(h0._tree.ids().len() as u64),
        r matches Some(ct) ==> ct._g@ == g && ct._c@ == c && ct._id == h1._tree.ids().last()
            && h1._tree.code_of(ct._id) == Some(ct._o),
{
    let id = h1._tree.ids().last();
    assert(h1._tree.ids().drop_last() =~= h0._tree.ids());
    lemma_code_after_insert(h0._tree.ids(), id);
    if h0._tree.ids().contains(other) {
        lemma_insert_keeps_codes(h0._tree.ids(), id, other);
    }
    let b = g1_encoding(g)->0;
    if h0._apl@.contains_key(b) {
        assert(h1._apl@.dom() =~= h0._apl@.dom());
    } else {
        assert(h1._apl@.dom() =~= h0._apl@.dom().insert(b));
    }
}

/// With a key pair, adding the same two ciphertexts twice stores two new
/// leaves, and the second addition returns the new ciphertext, whose token is
/// the sum of the two tokens and whose pairing is that of the sum with `q`.
pub proof fn lemma_add_twice(
    h0: hope,
    h1: hope,
    h2: hope,
    ct1: hopeCiphertext,
    ct2: hopeCiphertext,
    c1: Seq<u8>,
    c2: Seq<u8>,
    r1: Option<hopeCiphertext>,
    r2: Option<hopeCiphertext>,
)
    requires
        h0._key is Some,
        h0._key is Some ==> hope::stored(h0, h1, g1_sum(ct1._g@, ct2._g@), c1, r1),
        h1._key is Some ==> hope::stored(h1, h2, g1_sum(ct1._g@, ct2._g@), c2, r2),
    ensures
        h1._tree.ids().len() == h0._tree.ids().len() + 1,
        h2._tree.ids().len() == h0._tree.ids().len() + 2,
        r2 is Some,
        r2->0._g@ == g1_sum(ct1._g@, ct2._g@),
        r2->0._h == pairing_value(g1_sum(ct1._g@, ct2._g@), h0._q@),
        r2->0._c@ == c2,
        h2._tree.code_of(r2->0._id) == Some(r2->0._o),
{
    lemma_repeated_token_returns_ciphertext(h0, h1, h2, g1_sum(ct1._g@, ct2._g@), c1, c2, r1, r2);
}

/// With a key pair, subtracting the same two ciphertexts twice stores two
/// new leaves, and the second subtraction returns the new ciphertext, whose
/// token is the difference of the two tokens, whatever their order codes.
pub proof fn lemma_sub_twice(
    h0: hope,
    h1: hope,
    h2: hope,
    ct1: hopeCiphertext,
    ct2: hopeCiphertext,
    c1: Seq<u8>,
    c2: Seq<u8>,
    r1: Option<hopeCiphertext>,
    r2: Option<hopeCiphertext>,
)
    requires
        h0._key is Some,
        h0._key is Some ==> hope::stored(h0, h1, g1_difference(ct1._g@, ct2._g@), c1, r1),
        h1._key is Some ==> hope::stored(h1, h2, g1_difference(ct1._g@, ct2._g@), c2, r2),
    ensures
        h1._tree.ids().len() == h0._tree.ids().len() + 1,
        h2._tree.ids().len() == h0._tree.ids().len() + 2,
        r2 is Some,
        r2->0._g@ == g1_difference(ct1._g@, ct2._g@),
        r2->0._h == pairing_value(g1_difference(ct1._g@, ct2._g@), h0._q@),
        r2->0._c@ == c2,
        h2._tree.code_of(r2->0._id) == Some(r2->0._o),
{
    lemma_repeated_token_returns_ciphertext(
        h0,
        h1,
        h2,
        g1_difference(ct1._g@, ct2._g@),
        c1,
        c2,
        r1,
        r2,
    );
}

/// With a key pair, encrypting any plaintext stores exactly one new leaf and
/// files its id under the encoding of the plaintext's token.
pub proof fn lemma_encrypt_stores(h0: hope, h1: hope, m: u64, c: Seq<u8>)
    requires
        h0._key is Some,
        exists|s: Option<hopeCiphertext>|
            hope::stored(h0, h1, message_token(h0._p@, m), c, s),
    ensures
        h1._tree.ids().len() == h0._tree.ids().len() + 1,
        h1._tree.ciphertexts().last() == c,
        g1_encoding(message_token(h0._p@, m)) is Some,
        h1._apl@[g1_encoding(message_token(h0._p@, m))->0] == h1._tree.ids().last(),
{
    let s = choose|s: Option<hopeCiphertext>| hope::stored(h0, h1, message_token(h0._p@, m), c, s);
    lemma_store_adds_one_leaf(h0, h1, message_token(h0._p@, m), c, s, h1._tree.ids().last());
}

} // verus!
