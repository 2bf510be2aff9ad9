//! How hOPE ciphertexts compare: by their order codes alone.
use std::cmp::Ordering;
use vstd::prelude::*;
use vstd::std_specs::cmp::PartialEqSpec;
use vstd::std_specs::cmp::PartialEqSpecImpl;
use vstd::std_specs::cmp::PartialOrdSpec;
use vstd::std_specs::cmp::PartialOrdSpecImpl;

use crate::schemes::she::hope::hopeCiphertext;

verus! {

/// How code `a` compares to code `b`.
pub open spec fn code_order(a: u64, b: u64) -> Ordering {
    if a < b {
        Ordering::Less
    } else if a == b {
        Ordering::Equal
    } else {
        Ordering::Greater
    }
}

/// The reverse of an ordering.
pub open spec fn reversed(o: Ordering) -> Ordering {
    match o {
        Ordering::Less => Ordering::Greater,
        Ordering::Equal => Ordering::Equal,
        Ordering::Greater => Ordering::Less,
    }
}

impl PartialEq for hopeCiphertext {
    /// Two ciphertexts are equal when their order codes are.
    fn eq(&self, other: &Self) -> (r: bool) {
        self._o == other._o
    }
}

impl PartialEqSpecImpl for hopeCiphertext {
    open spec fn obeys_eq_spec() -> bool {
        true
    }

    open spec fn eq_spec(&self, other: &Self) -> bool {
        self._o == other._o
    }
}

impl Eq for hopeCiphertext {

}

impl PartialOrd for hopeCiphertext {
    /// Ciphertexts compare as their order codes do; any two compare.
    fn partial_cmp(&self, other: &Self) -> (r: Option<Ordering>) {
        Some(self.cmp(other))
    }
}

impl PartialOrdSpecImpl for hopeCiphertext {
    open spec fn obeys_partial_cmp_spec() -> bool {
        true
    }

    open spec fn partial_cmp_spec(&self, other: &Self) -> Option<Ordering> {
        Some(code_order(self._o, other._o))
    }
}

impl hopeCiphertext {
    /// How this ciphertext compares to `other`: as their order codes do.
    pub fn cmp(&self, other: &Self) -> (r: Ordering)
        ensures
            r == code_order(self._o, other._o),
            (r == Ordering::Less) <==> self._o < other._o,
            (r == Ordering::Equal) <==> self._o == other._o,
            (r == Ordering::Greater) <==> self._o > other._o,
    {
        if self._o < other._o {
            Ordering::Less
        } else if self._o == other._o {
            Ordering::Equal
        } else {
            Ordering::Greater
        }
    }
}

/// Codes compare as numbers: `Less` exactly when the first code is the
/// smaller, `Equal` exactly when they are the same, `Greater` exactly when
/// the first is the larger.
pub proof fn lemma_code_order_is_numeric(a: u64, b: u64)
    ensures
        (code_order(a, b) == Ordering::Less) <==> a < b,
        (code_order(a, b) == Ordering::Equal) <==> a == b,
        (code_order(a, b) == Ordering::Greater) <==> a > b,
{
}

/// Ciphertexts compare as their codes do as numbers, and are equal exactly
/// when their codes are.
pub proof fn lemma_ciphertexts_compare_by_code(a: hopeCiphertext, b: hopeCiphertext)
    ensures
        PartialOrdSpec::partial_cmp_spec(&a, &b) == Some(Ordering::Less) <==> a._o < b._o,
        PartialOrdSpec::partial_cmp_spec(&a, &b) == Some(Ordering::Equal) <==> a._o == b._o,
        PartialOrdSpec::partial_cmp_spec(&a, &b) == Some(Ordering::Greater) <==> a._o > b._o,
        PartialEqSpec::eq_spec(&a, &b) <==> a._o == b._o,
{
}

/// Comparing the other way round gives the reverse ordering, and two
/// ciphertexts compare `Equal` exactly when they are equal.
pub proof fn lemma_order_antisymmetric(a: hopeCiphertext, b: hopeCiphertext)
    ensures
        code_order(b._o, a._o) == reversed(code_order(a._o, b._o)),
        (code_order(a._o, b._o) == Ordering::Equal) <==> PartialEqSpec::eq_spec(&a, &b),
        PartialOrdSpec::partial_cmp_spec(&a, &b) == Some(code_order(a._o, b._o)),
{
}

/// The order is transitive: `a < b` and `b < c` give `a < c`, and likewise
/// for `Equal`.
pub proof fn lemma_order_transitive(a: hopeCiphertext, b: hopeCiphertext, c: hopeCiphertext)
    ensures
        code_order(a._o, b._o) == Ordering::Less && code_order(b._o, c._o) == Ordering::Less
            ==> code_order(a._o, c._o) == Ordering::Less,
        code_order(a._o, b._o) == Ordering::Equal && code_order(b._o, c._o) == Ordering::Equal
            ==> code_order(a._o, c._o) == Ordering::Equal,
{
}

/// Equality of ciphertexts is an equivalence: reflexive, symmetric and
/// transitive.
pub proof fn lemma_eq_equivalence(a: hopeCiphertext, b: hopeCiphertext, c: hopeCiphertext)
    ensures
        PartialEqSpec::eq_spec(&a, &a),
        PartialEqSpec::eq_spec(&a, &b) ==> PartialEqSpec::eq_spec(&b, &a),
        PartialEqSpec::eq_spec(&a, &b) && PartialEqSpec::eq_spec(&b, &c) ==> PartialEqSpec::eq_spec(&a, &c),
{
}

} // verus!
