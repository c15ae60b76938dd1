//! Key images: the tag that a spent one-time private key leaves.
use crate::bytes::equal32;
use crate::group::mul_mod;
use crate::onetime_keys::{hash_to_point, spec_hash_to_point};
use crate::ristretto::{is_point, point_log, point_of};
use crate::ristretto_keys::{RistrettoPrivate, RistrettoPublic};
use vstd::prelude::*;
use vstd::std_specs::cmp::PartialEqSpecImpl;
use vstd::std_specs::convert::FromSpecImpl;

verus! {

/// The logarithm of the key image `I = x * Hp(x * G)` of the private key `x`.
pub open spec fn spec_key_image(x: nat) -> nat {
    mul_mod(x, spec_hash_to_point(x))
}

/// The "image" of a private key `x`: `I = x * Hp(x * G)`, in its wire form.
/// The bytes need not encode a group element.
#[derive(Clone, Copy, Debug)]
pub struct KeyImage {
    /// The bytes of the key image.
    pub point: [u8; 32],
}

impl View for KeyImage {
    type V = Seq<u8>;

    open spec fn view(&self) -> Seq<u8> {
        self.point@
    }
}

impl<'a> From<&'a RistrettoPrivate> for KeyImage {
    /// The key image of `private`: `I = x * Hp(x * G)`.
    fn from(private: &'a RistrettoPrivate) -> (image: KeyImage)
        ensures
            image@ == point_of(spec_key_image(private@)),
            is_point(image@),
            point_log(image@) == spec_key_image(private@),
    {
        let public = RistrettoPublic::from(private);
        let hashed = hash_to_point(&public);
        let point = hashed.mul(private.scalar());
        let image = KeyImage { point: point.compress() };
        proof {
            let bytes = point_of(spec_key_image(private@));
            assert(image@ == bytes);
            let chosen = KeyImage::spec_with_bytes(bytes);
            assert(chosen.point@ == image.point@);
            assert(chosen.point =~= image.point);
        }
        image
    }
}

impl<'a> FromSpecImpl<&'a RistrettoPrivate> for KeyImage {
    open spec fn obeys_from_spec() -> bool {
        true
    }

    open spec fn from_spec(private: &'a RistrettoPrivate) -> KeyImage {
        KeyImage::spec_with_bytes(point_of(spec_key_image(private@)))
    }
}

impl KeyImage {
    /// The key image with the given thirty-two bytes.
    pub open spec fn spec_with_bytes(bytes: Seq<u8>) -> KeyImage {
        choose|image: KeyImage| image@ == bytes
    }

    /// The key image with the given bytes.
    pub fn from_bytes(bytes: [u8; 32]) -> (image: KeyImage)
        ensures
            image@ == bytes@,
    {
        KeyImage { point: bytes }
    }

    /// View the underlying bytes.
    pub fn as_bytes(&self) -> (b: &[u8; 32])
        ensures
            b@ == self@,
    {
        &self.point
    }

    /// Copies the underlying bytes.
    pub fn to_bytes(&self) -> (b: [u8; 32])
        ensures
            b@ == self@,
    {
        self.point
    }
}

impl PartialEq for KeyImage {
    /// Two key images are equal where their bytes are.
    fn eq(&self, other: &KeyImage) -> (r: bool) {
        equal32(&self.point, &other.point)
    }
}

impl Eq for KeyImage {

}

impl PartialEqSpecImpl for KeyImage {
    open spec fn obeys_eq_spec() -> bool {
        true
    }

    open spec fn eq_spec(&self, other: &KeyImage) -> bool {
        self@ == other@
    }
}

} // verus!
