//! Identifiers of stored ciphertexts: MongoDB object ids, held as their
//! twelve bytes.
use vstd::prelude::*;

verus! {

/// The twelve bytes of a `bson::oid::ObjectId`.
pub type ObjectIdBytes = [u8; 12];

/// A fresh object id: `bson::oid::ObjectId::new`, as its bytes. The id is
/// built from the clock, the machine, the process and a counter, so nothing
/// is promised of its bytes; `None` stands for the error that
/// `ObjectId::new` returns when the machine's id cannot be read.
#[verifier::external_body]
pub(crate) fn new_object_id() -> Option<ObjectIdBytes> {
    match bson::oid::ObjectId::new() {
        Ok(id) => Some(id.bytes()),
        Err(_) => None,
    }
}

/// The number held in the last eight bytes of an id, most significant byte
/// first.
pub open spec fn id_number(id: ObjectIdBytes) -> int {
    ((((((id[4] * 256 + id[5]) * 256 + id[6]) * 256 + id[7]) * 256 + id[8]) * 256 + id[9]) * 256
        + id[10]) * 256 + id[11]
}

/// An id made by the library itself for the leaf at `position`, where no
/// fresh object id can be had: a zero timestamp, which no clock-made id has
/// since 1970, followed by `position` in eight bytes. Distinct positions give
/// distinct ids.
pub fn local_object_id(position: u64) -> (id: ObjectIdBytes)
    ensures
        id[0] == 0 && id[1] == 0 && id[2] == 0 && id[3] == 0,
        id_number(id) == position,
{
    let b11 = (position % 256) as u8;
    let p1 = position / 256;
    let b10 = (p1 % 256) as u8;
    let p2 = p1 / 256;
    let b9 = (p2 % 256) as u8;
    let p3 = p2 / 256;
    let b8 = (p3 % 256) as u8;
    let p4 = p3 / 256;
    let b7 = (p4 % 256) as u8;
    let p5 = p4 / 256;
    let b6 = (p5 % 256) as u8;
    let p6 = p5 / 256;
    let b5 = (p6 % 256) as u8;
    let p7 = p6 / 256;
    let b4 = (p7 % 256) as u8;
    assert(p7 < 256);
    [0, 0, 0, 0, b4, b5, b6, b7, b8, b9, b10, b11]
}

/// Whether two object ids are the same.
pub fn same_object_id(a: &ObjectIdBytes, b: &ObjectIdBytes) -> (r: bool)
    ensures
        r == (*a == *b),
{
    let mut i: usize = 0;
    while i < 12
        invariant
            0 <= i <= 12,
            forall|j: int| 0 <= j < i ==> a[j] == b[j],
        decreases 12 - i,
    {
        if a[i] != b[i] {
            return false;
        }
        i = i + 1;
    }
    proof {
        broadcast use vstd::array::axiom_array_ext_equal;

        assert(*a =~= *b);
    }
    true
}

} // verus!
