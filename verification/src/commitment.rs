//! Pedersen commitments to amounts.
use crate::bytes::{append, equal32};
use crate::consts::HASH_TO_POINT_DOMAIN_TAG;
use crate::curve_scalar::CurveScalar;
use crate::error::Error;
use crate::group::{add_mod, mul_mod};
use crate::ristretto::{is_point, point_hash, point_log, point_of, Point};
use vstd::bytes::{spec_u64_to_le_bytes, u64_to_le_bytes};
use vstd::prelude::*;
use vstd::std_specs::cmp::PartialEqSpecImpl;
use vstd::std_specs::convert::FromSpecImpl;

verus! {

/// The two generators that a commitment to an amount of one token is made
/// with.
///
/// Signatures are made and verified with the basepoint as the generator of
/// blindings. The generators that [`generators`] hands out have it; a set that
/// is put together by hand with another one gives commitments that no
/// signature ties to each other.
#[allow(non_snake_case)]
#[derive(Clone, Copy, Debug)]
pub struct PedersenGens {
    /// The generator that the value multiplies.
    pub B: Point,
    /// The generator that the blinding multiplies.
    pub B_blinding: Point,
}

/// What is hashed to find the value generator of `token_id`: the domain
/// separator, then the encoding of the basepoint for token zero, and the
/// little-endian bytes of the token id for every other token.
pub open spec fn generator_input(token_id: u64) -> Seq<u8> {
    if token_id == 0 {
        HASH_TO_POINT_DOMAIN_TAG@ + point_of(1)
    } else {
        HASH_TO_POINT_DOMAIN_TAG@ + spec_u64_to_le_bytes(token_id)
    }
}

/// The logarithm of the value generator of `token_id`.
pub open spec fn spec_generator(token_id: u64) -> nat {
    point_hash(generator_input(token_id))
}

/// The generators of `token_id`: the value generator is hashed from the token
/// id, the blinding generator is the basepoint.
pub fn generators(token_id: u64) -> (gens: PedersenGens)
    ensures
        gens.B@ == spec_generator(token_id),
        gens.B_blinding@ == 1,
{
    let basepoint = Point::basepoint();
    let mut input: Vec<u8> = Vec::new();
    append(&mut input, HASH_TO_POINT_DOMAIN_TAG.as_slice());
    if token_id == 0 {
        let encoded = basepoint.compress();
        append(&mut input, encoded.as_slice());
    } else {
        let encoded = u64_to_le_bytes(token_id);
        append(&mut input, encoded.as_slice());
    }
    assert(input@ =~= generator_input(token_id));
    PedersenGens { B: Point::hash_from_bytes(input.as_slice()), B_blinding: basepoint }
}

/// The logarithm of the commitment `value * B + blinding * B_blinding`.
pub open spec fn spec_commit(value: nat, blinding: nat, b: nat, b_blinding: nat) -> nat {
    add_mod(mul_mod(value, b), mul_mod(blinding, b_blinding))
}

/// A Pedersen commitment to an amount.
#[derive(Clone, Copy, Debug)]
pub struct Commitment {
    /// The group element of the commitment.
    pub point: Point,
}

impl View for Commitment {
    type V = nat;

    /// The discrete logarithm of the commitment.
    open spec fn view(&self) -> nat {
        self.point@
    }
}

impl Commitment {
    /// Creates a new commitment: `value * B + blinding * B_blinding`.
    ///
    /// # Arguments
    /// * `value` - The committed value.
    /// * `blinding` - The blinding factor.
    /// * `generator` - The generators of the token that the value is in.
    pub fn new(value: u64, blinding: CurveScalar, generator: &PedersenGens) -> (c: Commitment)
        ensures
            c@ == spec_commit(value as nat, blinding@, generator.B@, generator.B_blinding@),
    {
        let v = CurveScalar::from(value);
        let left = generator.B.mul(&v);
        let right = generator.B_blinding.mul(&blinding);
        Commitment { point: left.add(&right) }
    }

    /// Reads a commitment from its wire form, if that encodes a group
    /// element.
    pub fn try_from(src: &CompressedCommitment) -> (r: Result<Commitment, Error>)
        ensures
            r is Ok <==> is_point(src@),
            r is Ok ==> r.unwrap()@ == point_log(src@),
            r is Err ==> r == Err::<Commitment, Error>(Error::InvalidCurvePoint),
    {
        match Point::decompress(&src.point) {
            Some(point) => Ok(Commitment { point }),
            None => Err(Error::InvalidCurvePoint),
        }
    }
}

impl PartialEq for Commitment {
    /// Two commitments are equal where their wire forms are.
    fn eq(&self, other: &Commitment) -> (r: bool) {
        let a = self.point.compress();
        let b = other.point.compress();
        equal32(&a, &b)
    }
}

impl Eq for Commitment {

}

impl PartialEqSpecImpl for Commitment {
    open spec fn obeys_eq_spec() -> bool {
        true
    }

    open spec fn eq_spec(&self, other: &Commitment) -> bool {
        point_of(self@) == point_of(other@)
    }
}

/// A Pedersen commitment in its wire form: thirty-two bytes, which need not
/// encode a group element.
#[derive(Clone, Copy, Debug)]
pub struct CompressedCommitment {
    /// The bytes of the commitment.
    pub point: [u8; 32],
}

impl View for CompressedCommitment {
    type V = Seq<u8>;

    open spec fn view(&self) -> Seq<u8> {
        self.point@
    }
}

impl CompressedCommitment {
    /// Creates the wire form of a new commitment.
    pub fn new(value: u64, blinding: CurveScalar, generator: &PedersenGens) -> (c:
        CompressedCommitment)
        ensures
            c@ == point_of(
                spec_commit(value as nat, blinding@, generator.B@, generator.B_blinding@),
            ),
            is_point(c@),
            point_log(c@) == spec_commit(
                value as nat,
                blinding@,
                generator.B@,
                generator.B_blinding@,
            ),
    {
        Self::from(&Commitment::new(value, blinding, generator))
    }

    /// The commitment with the given thirty-two bytes.
    pub open spec fn spec_with_bytes(bytes: Seq<u8>) -> CompressedCommitment {
        choose|c: CompressedCommitment| c@ == bytes
    }

    /// The bytes of the commitment.
    pub fn as_bytes(&self) -> (b: &[u8; 32])
        ensures
            b@ == self@,
    {
        &self.point
    }
}

impl<'a> From<&'a Commitment> for CompressedCommitment {
    /// The wire form of `src`.
    fn from(src: &'a Commitment) -> (c: CompressedCommitment)
        ensures
            c@ == point_of(src@),
            is_point(c@),
            point_log(c@) == src@,
    {
        let c = CompressedCommitment { point: src.point.compress() };
        proof {
            let chosen = CompressedCommitment::spec_with_bytes(point_of(src@));
            assert(c@ == point_of(src@));
            assert(chosen.point@ == c.point@);
            assert(chosen.point =~= c.point);
        }
        c
    }
}

impl<'a> FromSpecImpl<&'a Commitment> for CompressedCommitment {
    open spec fn obeys_from_spec() -> bool {
        true
    }

    open spec fn from_spec(src: &'a Commitment) -> CompressedCommitment {
        CompressedCommitment::spec_with_bytes(point_of(src@))
    }
}

impl PartialEq for CompressedCommitment {
    /// Two wire forms are equal where their bytes are.
    fn eq(&self, other: &CompressedCommitment) -> (r: bool) {
        equal32(&self.point, &other.point)
    }
}

impl Eq for CompressedCommitment {

}

impl PartialEqSpecImpl for CompressedCommitment {
    open spec fn obeys_eq_spec() -> bool {
        true
    }

    open spec fn eq_spec(&self, other: &CompressedCommitment) -> bool {
        self@ == other@
    }
}

} // verus!
