//! Key derivation.
use vstd::prelude::*;

verus! {

/// The `len` bytes that HKDF with SHA-512 derives from the salt, the input
/// key material and the info.
pub uninterp spec fn hkdf_sha512(salt: Seq<u8>, ikm: Seq<u8>, info: Seq<u8>, len: nat) -> Seq<u8>;

/// `Hkdf::<Sha512>::new` of the hkdf crate, then `Hkdf::expand`: `len` bytes
/// that depend on the salt, the input key material and the info alone. The
/// expansion gives at most 255 blocks of 64 bytes.
#[verifier::external_body]
pub(crate) fn hkdf_sha512_expand(salt: &[u8], ikm: &[u8], info: &[u8], len: usize) -> (okm: Vec<
    u8,
>)
    requires
        len <= 16320,
    ensures
        okm@ == hkdf_sha512(salt@, ikm@, info@, len as nat),
        okm@.len() == len,
{
    let kdf = hkdf::Hkdf::<sha2::Sha512>::new(Some(salt), ikm);
    let mut okm = vec![0u8; len];
    kdf.expand(info, &mut okm).unwrap();
    okm
}

} // verus!
