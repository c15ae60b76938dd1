//! Private and public keys over the Ristretto group.
use crate::bytes::equal32;
use crate::curve_scalar::CurveScalar;
use crate::group::{group_order, le_value};
use crate::ristretto::{is_point, point_log, point_of, Point};
use vstd::prelude::*;
use vstd::std_specs::convert::FromSpecImpl;

verus! {

/// A failure to read a key.
#[derive(Clone, Copy, Debug, PartialEq, Eq, Structural)]
pub enum KeyError {
    /// The input has the wrong length: the length found, then the length
    /// required.
    LengthMismatch(usize, usize),
    /// The bytes are not the canonical encoding of a scalar.
    InvalidPrivateKey,
    /// The bytes do not encode a group element.
    InvalidPublicKey,
}

/// A private key: a scalar.
#[derive(Clone, Copy, Debug)]
pub struct RistrettoPrivate {
    scalar: CurveScalar,
}

impl View for RistrettoPrivate {
    type V = nat;

    /// The scalar that the key is.
    closed spec fn view(&self) -> nat {
        self.scalar@
    }
}

impl RistrettoPrivate {
    /// The private key that is `scalar`.
    pub fn from_scalar(scalar: CurveScalar) -> (key: Self)
        ensures
            key@ == scalar@,
    {
        RistrettoPrivate { scalar }
    }

    /// Reads a private key from the canonical encoding of its scalar.
    pub fn try_from(bytes: &[u8; 32]) -> (r: Result<Self, KeyError>)
        ensures
            r is Ok <==> le_value(bytes@) < group_order(),
            r is Ok ==> r.unwrap()@ == le_value(bytes@),
            r is Err ==> r == Err::<Self, KeyError>(KeyError::InvalidPrivateKey),
    {
        let scalar = CurveScalar::from_bytes_mod_order(*bytes);
        if equal32(scalar.as_bytes(), bytes) {
            proof {
                scalar.lemma_below_order();
            }
            Ok(RistrettoPrivate { scalar })
        } else {
            proof {
                if le_value(bytes@) < group_order() {
                    vstd::arithmetic::div_mod::lemma_small_mod(le_value(bytes@), group_order());
                    crate::group::lemma_le_value_injective(scalar.spec_bytes(), bytes@);
                }
            }
            Err(KeyError::InvalidPrivateKey)
        }
    }

    /// A private key lies below the group order.
    pub proof fn lemma_below_order(self)
        ensures
            self@ < group_order(),
    {
        self.scalar.lemma_below_order();
    }

    /// The scalar of the key.
    pub fn scalar(&self) -> (s: &CurveScalar)
        ensures
            s@ == self@,
    {
        &self.scalar
    }

    /// The canonical encoding of the key's scalar.
    pub fn to_bytes(&self) -> (b: [u8; 32])
        ensures
            le_value(b@) == self@,
            b@ == crate::curve_scalar::canonical_bytes(self@),
    {
        self.scalar.to_bytes()
    }

    /// Overwrites the key with zero.
    pub fn zeroize(&mut self)
        ensures
            final(self)@ == 0,
        no_unwind
    {
        self.scalar.zeroize();
    }

    /// The secret that the key shares with the holder of the private key of
    /// `their_public`: the encoding of `self * their_public`.
    pub fn key_exchange(&self, their_public: &RistrettoPublic) -> (secret: RistrettoSecret)
        ensures
            secret@ == point_of(crate::group::mul_mod(self@, their_public@)),
    {
        let shared = their_public.point.mul(&self.scalar);
        RistrettoSecret { bytes: shared.compress() }
    }
}

/// A secret that two parties share after a key exchange.
#[derive(Clone, Copy, Debug)]
pub struct RistrettoSecret {
    bytes: [u8; 32],
}

impl View for RistrettoSecret {
    type V = Seq<u8>;

    closed spec fn view(&self) -> Seq<u8> {
        self.bytes@
    }
}

impl RistrettoSecret {
    /// The bytes of the secret.
    pub fn as_bytes(&self) -> (b: &[u8; 32])
        ensures
            b@ == self@,
    {
        &self.bytes
    }
}

impl Default for RistrettoPrivate {
    /// The private key zero.
    fn default() -> (key: Self)
        ensures
            key@ == 0,
    {
        RistrettoPrivate { scalar: CurveScalar::zero() }
    }
}

/// A public key: an element of the group.
#[derive(Clone, Copy, Debug)]
pub struct RistrettoPublic {
    point: Point,
}

impl View for RistrettoPublic {
    type V = nat;

    /// The discrete logarithm of the key.
    closed spec fn view(&self) -> nat {
        self.point@
    }
}

impl<'a> From<&'a RistrettoPrivate> for RistrettoPublic {
    /// The public key that belongs to `private`: its multiple of the
    /// basepoint.
    fn from(private: &'a RistrettoPrivate) -> (key: Self)
        ensures
            key@ == private@,
    {
        RistrettoPublic { point: Point::mul_base(&private.scalar) }
    }
}

impl<'a> FromSpecImpl<&'a RistrettoPrivate> for RistrettoPublic {
    open spec fn obeys_from_spec() -> bool {
        true
    }

    open spec fn from_spec(private: &'a RistrettoPrivate) -> RistrettoPublic {
        RistrettoPublic::spec_with_log(private@)
    }
}

impl RistrettoPublic {
    /// The public key with the logarithm `log`.
    pub closed spec fn spec_with_log(log: nat) -> RistrettoPublic {
        RistrettoPublic { point: Point::spec_with_log(log) }
    }

    /// The public key that is `point`.
    pub fn from_point(point: Point) -> (key: Self)
        ensures
            key@ == point@,
    {
        RistrettoPublic { point }
    }

    /// Reads a public key from the encoding of a group element.
    pub fn try_from(bytes: &[u8; 32]) -> (r: Result<Self, KeyError>)
        ensures
            r is Ok <==> is_point(bytes@),
            r is Ok ==> r.unwrap()@ == point_log(bytes@),
            r is Err ==> r == Err::<Self, KeyError>(KeyError::InvalidPublicKey),
    {
        match Point::decompress(bytes) {
            Some(point) => Ok(RistrettoPublic { point }),
            None => Err(KeyError::InvalidPublicKey),
        }
    }

    /// Overwrites the key with the identity.
    pub fn zeroize(&mut self)
        ensures
            final(self)@ == 0,
        no_unwind
    {
        self.point.zeroize();
    }

    /// The group element of the key.
    pub fn point(&self) -> (p: &Point)
        ensures
            p@ == self@,
    {
        &self.point
    }

    /// The encoding of the key.
    pub fn to_bytes(&self) -> (b: [u8; 32])
        ensures
            b@ == point_of(self@),
            is_point(b@),
            point_log(b@) == self@,
            self@ < group_order(),
    {
        self.point.compress()
    }
}

impl Default for RistrettoPublic {
    /// The public key of the private key zero: the identity.
    fn default() -> (key: Self)
        ensures
            key@ == 0,
    {
        RistrettoPublic { point: Point::mul_base(&CurveScalar::zero()) }
    }
}

/// A public key in its wire form: thirty-two bytes, which need not encode a
/// group element.
#[derive(Clone, Copy, Debug)]
pub struct CompressedRistrettoPublic {
    pub bytes: [u8; 32],
}

impl View for CompressedRistrettoPublic {
    type V = Seq<u8>;

    open spec fn view(&self) -> Seq<u8> {
        self.bytes@
    }
}

impl<'a> From<&'a RistrettoPublic> for CompressedRistrettoPublic {
    /// The wire form of `key`.
    fn from(key: &'a RistrettoPublic) -> (c: Self)
        ensures
            c@ == point_of(key@),
            is_point(c@),
            point_log(c@) == key@,
    {
        let c = CompressedRistrettoPublic { bytes: key.to_bytes() };
        proof {
            let chosen = CompressedRistrettoPublic::spec_with_bytes(point_of(key@));
            assert(c@ == point_of(key@));
            assert(chosen.bytes@ == c.bytes@);
            assert(chosen.bytes =~= c.bytes);
        }
        c
    }
}

impl<'a> FromSpecImpl<&'a RistrettoPublic> for CompressedRistrettoPublic {
    open spec fn obeys_from_spec() -> bool {
        true
    }

    open spec fn from_spec(key: &'a RistrettoPublic) -> CompressedRistrettoPublic {
        CompressedRistrettoPublic::spec_with_bytes(point_of(key@))
    }
}

impl CompressedRistrettoPublic {
    /// The key with the given thirty-two bytes.
    pub open spec fn spec_with_bytes(bytes: Seq<u8>) -> CompressedRistrettoPublic {
        choose|key: CompressedRistrettoPublic| key@ == bytes
    }

    /// The bytes of the key.
    pub fn as_bytes(&self) -> (b: &[u8; 32])
        ensures
            b@ == self@,
    {
        &self.bytes
    }
}

} // verus!
