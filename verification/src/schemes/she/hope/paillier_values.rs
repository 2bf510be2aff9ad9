//! Paillier keys and ciphertexts as the scheme carries them: the bytes of
//! their serialized form. The scheme stores and hands them on; it never
//! reads inside them.
use vstd::prelude::*;

verus! {

/// Copies a byte string.
pub fn copy_bytes(b: &Vec<u8>) -> (r: Vec<u8>)
    ensures
        r@ == b@,
{
    let mut r: Vec<u8> = Vec::new();
    let mut i: usize = 0;
    while i < b.len()
        invariant
            0 <= i <= b.len(),
            r@ == b@.subrange(0, i as int),
        decreases b.len() - i,
    {
        r.push(b[i]);
        i = i + 1;
        proof {
            assert(r@ =~= b@.subrange(0, i as int));
        }
    }
    proof {
        assert(b@.subrange(0, b.len() as int) =~= b@);
    }
    r
}

/// Whether two byte strings are equal.
pub fn same_bytes(a: &Vec<u8>, b: &Vec<u8>) -> (r: bool)
    ensures
        r == (a@ == b@),
{
    if a.len() != b.len() {
        return false;
    }
    let mut i: usize = 0;
    while i < a.len()
        invariant
            a.len() == b.len(),
            0 <= i <= a.len(),
            forall|j: int| 0 <= j < i ==> a@[j] == b@[j],
        decreases a.len() - i,
    {
        if a[i] != b[i] {
            return false;
        }
        i = i + 1;
    }
    proof {
        assert(a@ =~= b@);
    }
    true
}

/// A Paillier ciphertext of a `u64` (`paillier::EncodedCiphertext<u64>`),
/// as the bytes of its serialized form.
#[derive(Clone, Debug)]
pub struct PaillierCiphertext {
    pub bytes: Vec<u8>,
}

/// A Paillier encryption key (`paillier::EncryptionKey`), as the bytes of
/// its serialized form.
#[derive(Clone, Debug)]
pub struct PaillierEncryptionKey {
    pub bytes: Vec<u8>,
}

/// A Paillier decryption key (`paillier::DecryptionKey`), as the bytes of
/// its serialized form.
#[derive(Clone, Debug)]
pub struct PaillierDecryptionKey {
    pub bytes: Vec<u8>,
}

impl View for PaillierCiphertext {
    type V = Seq<u8>;

    open spec fn view(&self) -> Seq<u8> {
        self.bytes@
    }
}

impl View for PaillierEncryptionKey {
    type V = Seq<u8>;

    open spec fn view(&self) -> Seq<u8> {
        self.bytes@
    }
}

impl View for PaillierDecryptionKey {
    type V = Seq<u8>;

    open spec fn view(&self) -> Seq<u8> {
        self.bytes@
    }
}

impl PaillierCiphertext {
    /// A copy of this ciphertext.
    pub fn copied(&self) -> (r: Self)
        ensures
            r@ == self@,
    {
        PaillierCiphertext { bytes: copy_bytes(&self.bytes) }
    }
}

impl PaillierEncryptionKey {
    /// A copy of this key.
    pub fn copied(&self) -> (r: Self)
        ensures
            r@ == self@,
    {
        PaillierEncryptionKey { bytes: copy_bytes(&self.bytes) }
    }
}

impl PaillierDecryptionKey {
    /// A copy of this key.
    pub fn copied(&self) -> (r: Self)
        ensures
            r@ == self@,
    {
        PaillierDecryptionKey { bytes: copy_bytes(&self.bytes) }
    }
}

} // verus!
