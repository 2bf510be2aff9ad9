//! The pairing groups of the scheme (`rabe_bn`), and the byte encoding of
//! group tokens (`bincode`) under which the lookup table files them.
use rabe_bn::{Fr, Group, G1, G2, Gt};
use vstd::prelude::*;

use crate::schemes::she::hope::digits::all_decimal_digits;

verus! {

#[verifier::external_type_specification]
#[verifier::external_body]
pub struct ExG1(G1);

#[verifier::external_type_specification]
#[verifier::external_body]
pub struct ExG2(G2);

#[verifier::external_type_specification]
#[verifier::external_body]
pub struct ExGt(Gt);

#[verifier::external_type_specification]
#[verifier::external_body]
pub struct ExFr(Fr);

/// What `G1 + G1` returns.
pub uninterp spec fn g1_sum(a: G1, b: G1) -> G1;

/// What `G1 - G1` returns.
pub uninterp spec fn g1_difference(a: G1, b: G1) -> G1;

/// What `G1 * Fr` returns.
pub uninterp spec fn g1_scaled(g: G1, s: Fr) -> G1;

/// What `rabe_bn::pairing` returns.
pub uninterp spec fn pairing_value(p: G1, q: G2) -> Gt;

/// What `Fr::from_str` returns on a text.
pub uninterp spec fn fr_parsed(s: Seq<char>) -> Option<Fr>;

/// What `bincode::serialize` returns on a `G1`, `None` standing for its error.
pub uninterp spec fn g1_encoding(g: G1) -> Option<Seq<u8>>;

/// `g` is an element of the group G1: a point of the curve in its subgroup of
/// prime order, as `G1::random` makes and as the group operations keep.
pub uninterp spec fn g1_member(g: G1) -> bool;

/// `g` is an element of the group G2, as `G2::random` makes.
pub uninterp spec fn g2_member(g: G2) -> bool;

/// A random element of G1: `G1::random` with the thread's generator, which
/// multiplies the group's generator by a random scalar. Nothing is promised of
/// the element but that it lies in the group.
#[verifier::external_body]
pub(crate) fn random_g1() -> (r: G1)
    ensures
        g1_member(r),
{
    G1::random(&mut rand::thread_rng())
}

/// A random element of G2: `G2::random` with the thread's generator, which
/// multiplies the group's generator by a random scalar. Nothing is promised of
/// the element but that it lies in the group.
#[verifier::external_body]
pub(crate) fn random_g2() -> (r: G2)
    ensures
        g2_member(r),
{
    G2::random(&mut rand::thread_rng())
}

/// `G1 + G1`; the sum is named `g1_sum`. The sum of two group elements is
/// one.
#[verifier::external_body]
pub(crate) fn g1_add(a: G1, b: G1) -> (r: G1)
    ensures
        r == g1_sum(a, b),
        g1_member(a) && g1_member(b) ==> g1_member(r),
{
    a + b
}

/// `G1 - G1`; the difference is named `g1_difference`. The difference of
/// two group elements is one.
#[verifier::external_body]
pub(crate) fn g1_sub(a: G1, b: G1) -> (r: G1)
    ensures
        r == g1_difference(a, b),
        g1_member(a) && g1_member(b) ==> g1_member(r),
{
    a - b
}

/// `G1 * Fr`; the product is named `g1_scaled`. A multiple of a group
/// element is one.
#[verifier::external_body]
pub(crate) fn g1_mul(g: G1, s: Fr) -> (r: G1)
    ensures
        r == g1_scaled(g, s),
        g1_member(g) ==> g1_member(r),
{
    g * s
}

/// `rabe_bn::pairing`; the value is named `pairing_value`. The call ends in
/// an `expect` that holds for elements of the groups (their Miller loop is
/// never zero) and fails for crafted points off the curves, so it asks for
/// group elements.
#[verifier::external_body]
pub(crate) fn pairing(p: G1, q: G2) -> (r: Gt)
    requires
        g1_member(p),
        g2_member(q),
    ensures
        r == pairing_value(p, q),
{
    rabe_bn::pairing(p, q)
}

/// `Fr::from_str`, named `fr_parsed`. Its source reads the text character
/// by character, fails on the first character that is not a decimal digit
/// and otherwise accumulates the digits in the field: so the result is
/// `Some` exactly when every character is a decimal digit.
#[verifier::external_body]
pub(crate) fn fr_from_str(s: &str) -> (r: Option<Fr>)
    ensures
        r == fr_parsed(s@),
        r is Some <==> all_decimal_digits(s@),
{
    Fr::from_str(s)
}

/// `bincode::serialize` of a group token, its error mapped to `None`; the
/// bytes are named `g1_encoding`. A `G1` serializes through derived `serde`
/// impls over fixed arrays of integers into a growing buffer without a size
/// limit, so `bincode` has no error to return for it.
#[verifier::external_body]
pub(crate) fn encode_g1(g: &G1) -> (r: Option<Vec<u8>>)
    ensures
        r is Some,
        g1_encoding(*g) == Some(r->0@),
{
    match bincode::serialize(g) {
        Ok(v) => Some(v),
        Err(_) => None,
    }
}

/// An element of the group G1, made by this library's group operations only.
#[derive(Clone, Copy)]
pub struct G1Element {
    point: G1,
}

/// An element of the group G2, made by this library's group operations only.
#[derive(Clone, Copy)]
pub struct G2Element {
    point: G2,
}

impl View for G1Element {
    type V = G1;

    closed spec fn view(&self) -> G1 {
        self.point
    }
}

impl View for G2Element {
    type V = G2;

    closed spec fn view(&self) -> G2 {
        self.point
    }
}

impl G1Element {
    /// The element lies in the group.
    #[verifier::type_invariant]
    spec fn in_group(self) -> bool {
        g1_member(self.point)
    }

    /// A random element.
    pub fn random() -> G1Element {
        G1Element { point: random_g1() }
    }

    /// The point, as a `rabe_bn` value.
    pub fn value(&self) -> (g: G1)
        ensures
            g == self@,
    {
        self.point
    }

    /// The sum of two elements.
    pub fn add(&self, other: &G1Element) -> (r: G1Element)
        ensures
            r@ == g1_sum(self@, other@),
    {
        proof {
            use_type_invariant(self);
            use_type_invariant(other);
        }
        G1Element { point: g1_add(self.point, other.point) }
    }

    /// The difference of two elements.
    pub fn sub(&self, other: &G1Element) -> (r: G1Element)
        ensures
            r@ == g1_difference(self@, other@),
    {
        proof {
            use_type_invariant(self);
            use_type_invariant(other);
        }
        G1Element { point: g1_sub(self.point, other.point) }
    }

    /// The element scaled by `s`.
    pub fn scaled(&self, s: Fr) -> (r: G1Element)
        ensures
            r@ == g1_scaled(self@, s),
    {
        proof {
            use_type_invariant(self);
        }
        G1Element { point: g1_mul(self.point, s) }
    }

    /// The pairing of this element with `q`.
    pub fn pair(&self, q: &G2Element) -> (r: Gt)
        ensures
            r == pairing_value(self@, q@),
    {
        proof {
            use_type_invariant(self);
            use_type_invariant(q);
        }
        pairing(self.point, q.point)
    }

    /// The `bincode` encoding of the element.
    pub fn encoding(&self) -> (r: Vec<u8>)
        ensures
            g1_encoding(self@) == Some(r@),
    {
        match encode_g1(&self.point) {
            Some(v) => v,
            None => Vec::new(),
        }
    }
}

impl G2Element {
    /// The element lies in the group.
    #[verifier::type_invariant]
    spec fn in_group(self) -> bool {
        g2_member(self.point)
    }

    /// A random element.
    pub fn random() -> G2Element {
        G2Element { point: random_g2() }
    }

    /// The point, as a `rabe_bn` value.
    pub fn value(&self) -> (g: G2)
        ensures
            g == self@,
    {
        self.point
    }
}

} // verus!
