//! Scalars: integers modulo the order of the Ristretto group, kept as their
//! canonical thirty-two bytes.
use crate::bytes::{lemma_zeros_encode_zero, wipe32};
use crate::error::Error;
use crate::group::{
    add_mod, group_order, le_value, lemma_le_value_injective, lemma_mod_ops_bounded, mul_mod,
    sub_mod,
};
use vstd::prelude::*;
use vstd::std_specs::cmp::PartialEqSpecImpl;
use vstd::std_specs::convert::FromSpecImpl;

verus! {

/// The thirty-two bytes that hashing `data` to a scalar with BLAKE2b-512
/// gives.
pub uninterp spec fn blake2b_scalar(data: Seq<u8>) -> Seq<u8>;

/// The scalar that `data` hashes to.
pub open spec fn scalar_hash(data: Seq<u8>) -> nat {
    le_value(blake2b_scalar(data)) % group_order()
}

/// `Scalar::from_bytes_mod_order` of curve25519-dalek, followed by
/// `Scalar::to_bytes`: the bytes that come back encode the input reduced
/// modulo the group order.
#[verifier::external_body]
fn reduce_bytes(bytes: &[u8; 32]) -> (r: [u8; 32])
    ensures
        le_value(r@) == le_value(bytes@) % group_order(),
{
    curve25519_dalek::scalar::Scalar::from_bytes_mod_order(*bytes).to_bytes()
}

/// `Scalar::from_bytes_mod_order_wide` of curve25519-dalek, followed by
/// `Scalar::to_bytes`: the bytes that come back encode the 512-bit input
/// reduced modulo the group order.
#[verifier::external_body]
fn reduce_wide_bytes(bytes: &[u8; 64]) -> (r: [u8; 32])
    ensures
        le_value(r@) == le_value(bytes@) % group_order(),
{
    curve25519_dalek::scalar::Scalar::from_bytes_mod_order_wide(bytes).to_bytes()
}

/// `From<u64>` of curve25519-dalek's `Scalar`: the bytes that come back encode
/// the input, which lies below the group order.
#[verifier::external_body]
fn bytes_of_u64(value: u64) -> (r: [u8; 32])
    ensures
        le_value(r@) == value,
{
    curve25519_dalek::scalar::Scalar::from(value).to_bytes()
}

/// Addition of curve25519-dalek's `Scalar`: the sum modulo the group order, in
/// canonical bytes. Each operand is reduced on the way in.
#[verifier::external_body]
fn sum_bytes(a: &[u8; 32], b: &[u8; 32]) -> (r: [u8; 32])
    ensures
        le_value(r@) == (le_value(a@) + le_value(b@)) % group_order(),
{
    let x = curve25519_dalek::scalar::Scalar::from_bytes_mod_order(*a);
    let y = curve25519_dalek::scalar::Scalar::from_bytes_mod_order(*b);
    (x + y).to_bytes()
}

/// Subtraction of curve25519-dalek's `Scalar`: the difference modulo the group
/// order, in canonical bytes. Each operand is reduced on the way in.
#[verifier::external_body]
fn difference_bytes(a: &[u8; 32], b: &[u8; 32]) -> (r: [u8; 32])
    ensures
        le_value(r@) == (le_value(a@) - le_value(b@)) % (group_order() as int),
{
    let x = curve25519_dalek::scalar::Scalar::from_bytes_mod_order(*a);
    let y = curve25519_dalek::scalar::Scalar::from_bytes_mod_order(*b);
    (x - y).to_bytes()
}

/// Multiplication of curve25519-dalek's `Scalar`: the product modulo the group
/// order, in canonical bytes. Each operand is reduced on the way in.
#[verifier::external_body]
fn product_bytes(a: &[u8; 32], b: &[u8; 32]) -> (r: [u8; 32])
    ensures
        le_value(r@) == (le_value(a@) * le_value(b@)) % group_order(),
{
    let x = curve25519_dalek::scalar::Scalar::from_bytes_mod_order(*a);
    let y = curve25519_dalek::scalar::Scalar::from_bytes_mod_order(*b);
    (x * y).to_bytes()
}

/// `Scalar::random` of curve25519-dalek: some scalar, in canonical bytes. Which
/// one depends on the generator, so nothing more is said. The call fills a
/// buffer from the generator, and unwinds where the generator does.
#[verifier::external_body]
fn random_bytes<R: rand_core::RngCore + rand_core::CryptoRng>(rng: &mut R) -> (r: [u8; 32])
    ensures
        le_value(r@) < group_order(),
{
    curve25519_dalek::scalar::Scalar::random(rng).to_bytes()
}

/// `Scalar::hash_from_bytes` of curve25519-dalek with BLAKE2b-512: a scalar
/// that depends on `data` alone, in canonical bytes.
#[verifier::external_body]
fn hash_bytes(data: &[u8]) -> (r: [u8; 32])
    ensures
        r@ == blake2b_scalar(data@),
        le_value(r@) < group_order(),
{
    curve25519_dalek::scalar::Scalar::hash_from_bytes::<blake2::Blake2b512>(data).to_bytes()
}

/// The thirty-two bytes that encode `n`, least significant byte first.
pub open spec fn canonical_bytes(n: nat) -> Seq<u8> {
    choose|bytes: Seq<u8>| bytes.len() == 32 && le_value(bytes) == n
}

/// Thirty-two bytes are the canonical bytes of the number that they encode.
pub proof fn lemma_canonical_bytes(bytes: Seq<u8>)
    requires
        bytes.len() == 32,
    ensures
        canonical_bytes(le_value(bytes)) == bytes,
{
    lemma_le_value_injective(canonical_bytes(le_value(bytes)), bytes);
}

/// A curve scalar.
#[derive(Clone, Copy, Debug)]
pub struct CurveScalar {
    bytes: [u8; 32],
}

impl View for CurveScalar {
    type V = nat;

    /// The number below the group order that the scalar stands for.
    closed spec fn view(&self) -> nat {
        le_value(self.bytes@) % group_order()
    }
}

impl CurveScalar {
    /// The stored bytes are the canonical encoding.
    #[verifier::type_invariant]
    spec fn canonical(self) -> bool {
        le_value(self.bytes@) < group_order()
    }

    /// The little-endian bytes that the scalar is stored as.
    pub closed spec fn spec_bytes(self) -> Seq<u8> {
        self.bytes@
    }

    /// A scalar lies below the group order.
    pub proof fn lemma_below_order(self)
        ensures
            self@ < group_order(),
    {
        vstd::arithmetic::div_mod::lemma_mod_bound(
            le_value(self.bytes@) as int,
            group_order() as int,
        );
    }

    /// Construct a `CurveScalar` by reducing a 256-bit little-endian integer
    /// modulo the group order.
    pub fn from_bytes_mod_order(bytes: [u8; 32]) -> (s: Self)
        ensures
            s@ == le_value(bytes@) % group_order(),
            le_value(s.spec_bytes()) == s@,
    {
        let reduced = reduce_bytes(&bytes);
        proof {
            vstd::arithmetic::div_mod::lemma_mod_bound(
                le_value(bytes@) as int,
                group_order() as int,
            );
            vstd::arithmetic::div_mod::lemma_small_mod(le_value(reduced@), group_order());
        }
        CurveScalar { bytes: reduced }
    }

    /// Construct a `CurveScalar` by reducing a 512-bit little-endian integer
    /// modulo the group order.
    pub fn from_bytes_mod_order_wide(bytes: &[u8; 64]) -> (s: Self)
        ensures
            s@ == le_value(bytes@) % group_order(),
    {
        let reduced = reduce_wide_bytes(bytes);
        proof {
            vstd::arithmetic::div_mod::lemma_mod_bound(
                le_value(bytes@) as int,
                group_order() as int,
            );
            vstd::arithmetic::div_mod::lemma_small_mod(le_value(reduced@), group_order());
        }
        CurveScalar { bytes: reduced }
    }

    /// The little-endian byte encoding of the integer representing this scalar.
    pub fn as_bytes(&self) -> (b: &[u8; 32])
        ensures
            b@ == self.spec_bytes(),
            le_value(b@) == self@,
            b@ == canonical_bytes(self@),
    {
        proof {
            use_type_invariant(self);
            vstd::arithmetic::div_mod::lemma_small_mod(le_value(self.bytes@), group_order());
            lemma_canonical_bytes(self.bytes@);
        }
        &self.bytes
    }

    /// The little-endian byte encoding, by value.
    pub fn to_bytes(&self) -> (b: [u8; 32])
        ensures
            b@ == self.spec_bytes(),
            le_value(b@) == self@,
            b@ == canonical_bytes(self@),
    {
        proof {
            use_type_invariant(self);
            vstd::arithmetic::div_mod::lemma_small_mod(le_value(self.bytes@), group_order());
            lemma_canonical_bytes(self.bytes@);
        }
        self.bytes
    }

    /// Reads a scalar from thirty-two bytes, reducing them modulo the group
    /// order: every input is accepted.
    pub fn from_bytes(src: &[u8; 32]) -> (r: Result<Self, Error>)
        ensures
            r is Ok,
            r.unwrap()@ == le_value(src@) % group_order(),
    {
        Ok(Self::from_bytes_mod_order(*src))
    }

    /// The scalar that stands for the number `n` below the group order.
    pub closed spec fn spec_from_value(n: nat) -> CurveScalar {
        choose|s: CurveScalar| s.canonical() && le_value(s.bytes@) == n
    }

    /// The scalar zero.
    pub fn zero() -> (s: Self)
        ensures
            s@ == 0,
    {
        Self::from(0u64)
    }

    /// A scalar drawn from `rng`. Which scalar it is depends on the generator;
    /// whichever it is, it comes in canonical form: its bytes are the
    /// thirty-two bytes that encode its number, which lies below the group
    /// order.
    ///
    /// The generator is the caller's: one that panics where it cannot fill a
    /// buffer panics here too.
    pub fn random<R: rand_core::RngCore + rand_core::CryptoRng>(rng: &mut R) -> (s: Self)
        ensures
            le_value(s.spec_bytes()) == s@,
            s.spec_bytes() == canonical_bytes(s@),
            s@ < group_order(),
    {
        let bytes = random_bytes(rng);
        proof {
            vstd::arithmetic::div_mod::lemma_small_mod(le_value(bytes@), group_order());
            lemma_canonical_bytes(bytes@);
        }
        CurveScalar { bytes }
    }

    /// The scalar that `data` hashes to under BLAKE2b-512.
    pub fn hash_from_bytes(data: &[u8]) -> (s: Self)
        ensures
            s@ == scalar_hash(data@),
            s.spec_bytes() == blake2b_scalar(data@),
    {
        let bytes = hash_bytes(data);
        CurveScalar { bytes }
    }

    /// The sum of two scalars.
    pub fn add(&self, other: &CurveScalar) -> (s: Self)
        ensures
            s@ == add_mod(self@, other@),
    {
        proof {
            use_type_invariant(self);
            use_type_invariant(other);
            vstd::arithmetic::div_mod::lemma_small_mod(le_value(self.bytes@), group_order());
            vstd::arithmetic::div_mod::lemma_small_mod(le_value(other.bytes@), group_order());
        }
        let bytes = sum_bytes(&self.bytes, &other.bytes);
        proof {
            lemma_mod_ops_bounded(self@, other@);
            vstd::arithmetic::div_mod::lemma_small_mod(le_value(bytes@), group_order());
        }
        CurveScalar { bytes }
    }

    /// The difference of two scalars.
    pub fn sub(&self, other: &CurveScalar) -> (s: Self)
        ensures
            s@ == sub_mod(self@, other@),
    {
        proof {
            use_type_invariant(self);
            use_type_invariant(other);
            vstd::arithmetic::div_mod::lemma_small_mod(le_value(self.bytes@), group_order());
            vstd::arithmetic::div_mod::lemma_small_mod(le_value(other.bytes@), group_order());
        }
        let bytes = difference_bytes(&self.bytes, &other.bytes);
        proof {
            lemma_mod_ops_bounded(self@, other@);
            vstd::arithmetic::div_mod::lemma_small_mod(le_value(bytes@), group_order());
        }
        CurveScalar { bytes }
    }

    /// The product of two scalars.
    pub fn mul(&self, other: &CurveScalar) -> (s: Self)
        ensures
            s@ == mul_mod(self@, other@),
    {
        proof {
            use_type_invariant(self);
            use_type_invariant(other);
            vstd::arithmetic::div_mod::lemma_small_mod(le_value(self.bytes@), group_order());
            vstd::arithmetic::div_mod::lemma_small_mod(le_value(other.bytes@), group_order());
        }
        let bytes = product_bytes(&self.bytes, &other.bytes);
        proof {
            lemma_mod_ops_bounded(self@, other@);
            vstd::arithmetic::div_mod::lemma_small_mod(le_value(bytes@), group_order());
        }
        CurveScalar { bytes }
    }

    /// Overwrites the scalar with zero.
    pub fn zeroize(&mut self)
        ensures
            final(self)@ == 0,
        opens_invariants none
        no_unwind
    {
        proof {
            assert forall|bytes: Seq<u8>|
                bytes.len() == 32 && (forall|i: int| 0 <= i < 32 ==> bytes[i] == 0u8) implies #[trigger] le_value(
                bytes,
            ) == 0 by {
                lemma_zeros_encode_zero(bytes);
            }
            vstd::arithmetic::div_mod::lemma_small_mod(0, group_order());
        }
        wipe32(&mut self.bytes);
    }
}

/// Overwrites every scalar of `scalars` with zero.
pub fn zeroize_all(scalars: &mut Vec<CurveScalar>)
    ensures
        final(scalars)@.len() == old(scalars)@.len(),
        forall|i: int| 0 <= i < final(scalars)@.len() ==> (#[trigger] final(scalars)@[i])@ == 0,
    no_unwind
{
    let n = scalars.len();
    let mut i: usize = 0;
    while i < n
        invariant
            i <= n,
            scalars@.len() == n,
            forall|k: int| 0 <= k < i ==> (#[trigger] scalars@[k])@ == 0,
        decreases n - i,
    {
        scalars[i].zeroize();
        i += 1;
    }
}

impl From<u64> for CurveScalar {
    /// The scalar that stands for `value`.
    fn from(value: u64) -> (s: Self)
        ensures
            s@ == value,
    {
        let bytes = bytes_of_u64(value);
        proof {
            vstd::arithmetic::div_mod::lemma_small_mod(value as nat, group_order());
        }
        let s = CurveScalar { bytes };
        proof {
            let chosen = CurveScalar::spec_from_value(value as nat);
            assert(s.canonical() && le_value(s.bytes@) == value as nat);
            lemma_le_value_injective(chosen.bytes@, s.bytes@);
            assert(chosen.bytes =~= s.bytes);
        }
        s
    }
}

impl FromSpecImpl<u64> for CurveScalar {
    open spec fn obeys_from_spec() -> bool {
        true
    }

    open spec fn from_spec(value: u64) -> CurveScalar {
        CurveScalar::spec_from_value(value as nat)
    }
}

impl PartialEq for CurveScalar {
    /// Two scalars are equal where they stand for the same number.
    fn eq(&self, other: &CurveScalar) -> (r: bool) {
        proof {
            use_type_invariant(self);
            use_type_invariant(other);
            vstd::arithmetic::div_mod::lemma_small_mod(le_value(self.bytes@), group_order());
            vstd::arithmetic::div_mod::lemma_small_mod(le_value(other.bytes@), group_order());
            if self@ == other@ {
                lemma_le_value_injective(self.bytes@, other.bytes@);
            }
        }
        let mut i: usize = 0;
        while i < 32
            invariant
                i <= 32,
                forall|j: int| 0 <= j < i ==> self.bytes@[j] == other.bytes@[j],
                self@ == other@ ==> self.bytes@ == other.bytes@,
            decreases 32 - i,
        {
            if self.bytes[i] != other.bytes[i] {
                return false;
            }
            i += 1;
        }
        assert(self.bytes@ =~= other.bytes@);
        true
    }
}

impl Eq for CurveScalar {

}

impl PartialEqSpecImpl for CurveScalar {
    open spec fn obeys_eq_spec() -> bool {
        true
    }

    open spec fn eq_spec(&self, other: &CurveScalar) -> bool {
        self@ == other@
    }
}

} // verus!
