//! Hashing a public key to the group, and shared secrets.
use crate::bytes::append;
use crate::consts::HASH_TO_POINT_DOMAIN_TAG;
use crate::group::mul_mod;
use crate::ristretto::{point_hash, point_of, Point};
use crate::ristretto_keys::{RistrettoPrivate, RistrettoPublic};
use vstd::prelude::*;

verus! {

/// What is hashed to send the public key with logarithm `key` to the group:
/// the domain separator, then the encoding of the key.
pub open spec fn hash_to_point_input(key: nat) -> Seq<u8> {
    HASH_TO_POINT_DOMAIN_TAG@ + point_of(key)
}

/// The logarithm of the group element `Hp(P)` that the public key `P` with
/// logarithm `key` hashes to.
pub open spec fn spec_hash_to_point(key: nat) -> nat {
    point_hash(hash_to_point_input(key))
}

/// The group element `Hp(P)` that the public key `P` hashes to.
pub fn hash_to_point(key: &RistrettoPublic) -> (p: Point)
    ensures
        p@ == spec_hash_to_point(key@),
{
    let mut input: Vec<u8> = Vec::new();
    append(&mut input, HASH_TO_POINT_DOMAIN_TAG.as_slice());
    let encoded = key.to_bytes();
    append(&mut input, encoded.as_slice());
    assert(input@ =~= hash_to_point_input(key@));
    Point::hash_from_bytes(input.as_slice())
}

/// The secret that the holder of `private_key` shares with the holder of the
/// private key of `public_key`: `private_key * public_key`.
pub fn create_shared_secret(public_key: &RistrettoPublic, private_key: &RistrettoPrivate) -> (s:
    RistrettoPublic)
    ensures
        s@ == mul_mod(private_key@, public_key@),
{
    RistrettoPublic::from_point(public_key.point().mul(private_key.scalar()))
}

/// Get the shared secret for a transaction output.
///
/// # Arguments
/// * `view_key` - The recipient's private View key.
/// * `tx_public_key` - The public key of the transaction.
pub fn get_tx_out_shared_secret(view_key: &RistrettoPrivate, tx_public_key: &RistrettoPublic) -> (s:
    RistrettoPublic)
    ensures
        s@ == mul_mod(view_key@, tx_public_key@),
{
    create_shared_secret(tx_public_key, view_key)
}

} // verus!
