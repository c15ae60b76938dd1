//! Elements of the Ristretto group, kept as their thirty-two byte encoding.
//!
//! The group has prime order and the basepoint generates it, so that every
//! element is `k` times the basepoint for exactly one `k` below the group
//! order: its discrete logarithm, which is the model of the element here (see
//! [`crate::group`]). Every element has exactly one encoding, and
//! decompression accepts nothing else. The encoding of the element with
//! logarithm `k` is [`point_of`]`(k)`; thirty-two bytes are a point where they
//! are the encoding of some element.
//!
//! The group operations are not proved here: they are those of
//! curve25519-dalek, and what this module says of them is that they are the
//! operations of that group. An operation on elements is then arithmetic on
//! logarithms modulo the group order.
use crate::bytes::wipe32;
use crate::curve_scalar::CurveScalar;
use crate::group::{add_mod, group_order, le_value, mul_mod, sub_mod};
use curve25519_dalek::traits::Identity;
use vstd::prelude::*;
use vstd::std_specs::cmp::PartialEqSpecImpl;

verus! {

/// The encoding of `k` times the basepoint.
pub uninterp spec fn point_of(k: nat) -> Seq<u8>;

/// The encoding of the group element that hashing `data` to the group with
/// BLAKE2b-512 gives.
pub uninterp spec fn blake2b_point(data: Seq<u8>) -> Seq<u8>;

/// `bytes` encode a group element.
pub open spec fn is_point(bytes: Seq<u8>) -> bool {
    exists|k: nat| k < group_order() && point_of(k) == bytes
}

/// The discrete logarithm of the element that `bytes` encode.
pub open spec fn point_log(bytes: Seq<u8>) -> nat {
    choose|k: nat| k < group_order() && point_of(k) == bytes
}

/// The discrete logarithm of the element that `data` hashes to.
pub open spec fn point_hash(data: Seq<u8>) -> nat {
    point_log(blake2b_point(data))
}

/// `CompressedRistretto::decompress` of curve25519-dalek: it accepts the
/// canonical encodings of group elements, each of which is a multiple of the
/// basepoint, and nothing else.
#[verifier::external_body]
fn decompresses(bytes: &[u8; 32]) -> (ok: bool)
    ensures
        ok == is_point(bytes@),
{
    curve25519_dalek::ristretto::CompressedRistretto(*bytes).decompress().is_some()
}

/// `RISTRETTO_BASEPOINT_COMPRESSED` of curve25519-dalek: the encoding of the
/// basepoint, whose logarithm is one.
#[verifier::external_body]
fn basepoint_bytes() -> (r: [u8; 32])
    ensures
        is_point(r@),
        point_log(r@) == 1,
{
    curve25519_dalek::constants::RISTRETTO_BASEPOINT_COMPRESSED.to_bytes()
}

/// `Identity::identity` of curve25519-dalek's `CompressedRistretto`: the
/// encoding of the identity of the group, the element with logarithm zero. It
/// is thirty-two zero bytes.
#[verifier::external_body]
fn identity_bytes() -> (r: [u8; 32])
    ensures
        forall|i: int| 0 <= i < 32 ==> r@[i] == 0u8,
        is_point(r@),
        point_log(r@) == 0,
    opens_invariants none
    no_unwind
{
    curve25519_dalek::ristretto::CompressedRistretto::identity().to_bytes()
}

/// `RistrettoPoint::mul_base` of curve25519-dalek, then
/// `RistrettoPoint::compress`: the encoding of the scalar's multiple of the
/// basepoint. The scalar is reduced on the way in.
#[verifier::external_body]
fn base_multiple_bytes(scalar: &[u8; 32]) -> (r: [u8; 32])
    ensures
        r@ == point_of(le_value(scalar@) % group_order()),
        point_log(r@) == le_value(scalar@) % group_order(),
{
    let s = curve25519_dalek::scalar::Scalar::from_bytes_mod_order(*scalar);
    curve25519_dalek::ristretto::RistrettoPoint::mul_base(&s).compress().to_bytes()
}

/// Multiplication of a `RistrettoPoint` of curve25519-dalek by a `Scalar`: the
/// logarithm of the product is the product of the scalar and the logarithm,
/// modulo the group order. The scalar is reduced on the way in.
#[verifier::external_body]
fn multiple_bytes(scalar: &[u8; 32], point: &[u8; 32]) -> (r: [u8; 32])
    requires
        is_point(point@),
    ensures
        is_point(r@),
        point_log(r@) == mul_mod(le_value(scalar@) % group_order(), point_log(point@)),
{
    let s = curve25519_dalek::scalar::Scalar::from_bytes_mod_order(*scalar);
    let p = curve25519_dalek::ristretto::CompressedRistretto(*point).decompress().unwrap();
    (s * p).compress().to_bytes()
}

/// Addition of two `RistrettoPoint`s of curve25519-dalek: the logarithm of the
/// sum is the sum of the logarithms, modulo the group order.
#[verifier::external_body]
fn sum_bytes(a: &[u8; 32], b: &[u8; 32]) -> (r: [u8; 32])
    requires
        is_point(a@),
        is_point(b@),
    ensures
        is_point(r@),
        point_log(r@) == add_mod(point_log(a@), point_log(b@)),
{
    let p = curve25519_dalek::ristretto::CompressedRistretto(*a).decompress().unwrap();
    let q = curve25519_dalek::ristretto::CompressedRistretto(*b).decompress().unwrap();
    (p + q).compress().to_bytes()
}

/// Subtraction of two `RistrettoPoint`s of curve25519-dalek: the logarithm of
/// the difference is the difference of the logarithms, modulo the group order.
#[verifier::external_body]
fn difference_bytes(a: &[u8; 32], b: &[u8; 32]) -> (r: [u8; 32])
    requires
        is_point(a@),
        is_point(b@),
    ensures
        is_point(r@),
        point_log(r@) == sub_mod(point_log(a@), point_log(b@)),
{
    let p = curve25519_dalek::ristretto::CompressedRistretto(*a).decompress().unwrap();
    let q = curve25519_dalek::ristretto::CompressedRistretto(*b).decompress().unwrap();
    (p - q).compress().to_bytes()
}

/// Equality of two `RistrettoPoint`s of curve25519-dalek: two elements are
/// equal exactly where their logarithms are.
#[verifier::external_body]
fn same_element(a: &[u8; 32], b: &[u8; 32]) -> (r: bool)
    requires
        is_point(a@),
        is_point(b@),
    ensures
        r == (point_log(a@) == point_log(b@)),
{
    let p = curve25519_dalek::ristretto::CompressedRistretto(*a).decompress().unwrap();
    let q = curve25519_dalek::ristretto::CompressedRistretto(*b).decompress().unwrap();
    p == q
}

/// `RistrettoPoint::hash_from_bytes` of curve25519-dalek with BLAKE2b-512, then
/// `RistrettoPoint::compress`: the encoding of a group element that depends on
/// `data` alone.
#[verifier::external_body]
fn hash_point_bytes(data: &[u8]) -> (r: [u8; 32])
    ensures
        r@ == blake2b_point(data@),
        is_point(r@),
{
    curve25519_dalek::ristretto::RistrettoPoint::hash_from_bytes::<blake2::Blake2b512>(data)
        .compress().to_bytes()
}

/// An element of the Ristretto group.
#[derive(Clone, Copy, Debug)]
pub struct Point {
    bytes: [u8; 32],
}

impl View for Point {
    type V = nat;

    /// The discrete logarithm of the element.
    closed spec fn view(&self) -> nat {
        point_log(self.bytes@)
    }
}

impl Point {
    /// The stored bytes encode a group element.
    #[verifier::type_invariant]
    spec fn valid(self) -> bool {
        is_point(self.bytes@)
    }

    /// The element with the logarithm `log`.
    pub closed spec fn spec_with_log(log: nat) -> Point {
        choose|p: Point| p.valid() && p@ == log
    }

    /// Reads a group element from its encoding, if `bytes` are one.
    pub fn decompress(bytes: &[u8; 32]) -> (r: Option<Point>)
        ensures
            r is Some <==> is_point(bytes@),
            r is Some ==> r.unwrap()@ == point_log(bytes@),
    {
        if decompresses(bytes) {
            Some(Point { bytes: *bytes })
        } else {
            None
        }
    }

    /// The encoding of the element: that of its logarithm, and the bytes that
    /// decompress to it.
    pub fn compress(&self) -> (r: [u8; 32])
        ensures
            r@ == point_of(self@),
            self@ < group_order(),
            is_point(r@),
            point_log(r@) == self@,
    {
        proof {
            use_type_invariant(self);
        }
        self.bytes
    }

    /// The basepoint `G`.
    pub fn basepoint() -> (g: Point)
        ensures
            g@ == 1,
    {
        let bytes = basepoint_bytes();
        Point { bytes }
    }

    /// The multiple `scalar * G` of the basepoint.
    pub fn mul_base(scalar: &CurveScalar) -> (p: Point)
        ensures
            p@ == scalar@,
            p == Self::spec_with_log(scalar@),
    {
        let bytes = base_multiple_bytes(scalar.as_bytes());
        proof {
            scalar.lemma_below_order();
            vstd::arithmetic::div_mod::lemma_small_mod(scalar@, group_order());
        }
        let p = Point { bytes };
        proof {
            let chosen = Self::spec_with_log(scalar@);
            assert(p.valid() && p@ == scalar@);
            assert(chosen.bytes@ == p.bytes@);
            assert(chosen.bytes =~= p.bytes);
        }
        p
    }

    /// The multiple `scalar * self`.
    pub fn mul(&self, scalar: &CurveScalar) -> (p: Point)
        ensures
            p@ == mul_mod(scalar@, self@),
    {
        proof {
            use_type_invariant(self);
            scalar.lemma_below_order();
            vstd::arithmetic::div_mod::lemma_small_mod(scalar@, group_order());
        }
        let bytes = multiple_bytes(scalar.as_bytes(), &self.bytes);
        Point { bytes }
    }

    /// The sum `self + other`.
    pub fn add(&self, other: &Point) -> (p: Point)
        ensures
            p@ == add_mod(self@, other@),
    {
        proof {
            use_type_invariant(self);
            use_type_invariant(other);
        }
        let bytes = sum_bytes(&self.bytes, &other.bytes);
        Point { bytes }
    }

    /// The difference `self - other`.
    pub fn sub(&self, other: &Point) -> (p: Point)
        ensures
            p@ == sub_mod(self@, other@),
    {
        proof {
            use_type_invariant(self);
            use_type_invariant(other);
        }
        let bytes = difference_bytes(&self.bytes, &other.bytes);
        Point { bytes }
    }

    /// Overwrites the element with the identity, whose encoding is all zero.
    pub fn zeroize(&mut self)
        ensures
            final(self)@ == 0,
        no_unwind
    {
        let identity = identity_bytes();
        proof {
            assert forall|bytes: Seq<u8>|
                bytes.len() == 32 && (forall|i: int| 0 <= i < 32 ==> bytes[i] == 0u8) implies #[trigger] is_point(
                bytes,
            ) && point_log(bytes) == 0 by {
                assert(bytes =~= identity@);
            }
        }
        wipe32(&mut self.bytes);
    }

    /// The element that `data` hashes to under BLAKE2b-512.
    pub fn hash_from_bytes(data: &[u8]) -> (p: Point)
        ensures
            p@ == point_hash(data@),
    {
        let bytes = hash_point_bytes(data);
        Point { bytes }
    }
}

impl PartialEq for Point {
    /// Two points are equal where they are the same element of the group.
    fn eq(&self, other: &Point) -> (r: bool) {
        proof {
            use_type_invariant(self);
            use_type_invariant(other);
        }
        same_element(&self.bytes, &other.bytes)
    }
}

impl Eq for Point {

}

impl PartialEqSpecImpl for Point {
    open spec fn obeys_eq_spec() -> bool {
        true
    }

    open spec fn eq_spec(&self, other: &Point) -> bool {
        self@ == other@
    }
}

} // verus!
