//! Subaddress derivations
use crate::bytes::append;
use crate::consts::SUBADDRESS_DOMAIN_TAG;
use crate::curve_scalar::{canonical_bytes, scalar_hash, CurveScalar};
use crate::group::{add_mod, mul_mod};
use crate::keys::{
    Key, RootSpendPrivate, RootSpendPublic, RootViewPrivate, SubaddrSpendPrivate,
    SubaddrSpendPublic, SubaddrViewPrivate, SubaddrViewPublic,
};
use crate::ristretto_keys::{RistrettoPrivate, RistrettoPublic};
use vstd::prelude::*;
use vstd::view::View as _;

verus! {

/// What is hashed to the scalar of a subaddress: the domain separator, the
/// bytes of the view private key, and the index as the bytes of a scalar.
pub open spec fn subaddress_input(view_private: nat, index: u64) -> Seq<u8> {
    SUBADDRESS_DOMAIN_TAG@ + canonical_bytes(view_private) + canonical_bytes(index as nat)
}

/// The scalar `Hs(a || n)` of the subaddress at `index` under the view
/// private key `a`.
pub open spec fn spec_subaddress_scalar(view_private: nat, index: u64) -> nat {
    scalar_hash(subaddress_input(view_private, index))
}

/// The scalar `Hs(a || n)`.
fn subaddress_scalar(view_private: &RistrettoPrivate, index: u64) -> (hs: CurveScalar)
    ensures
        hs@ == spec_subaddress_scalar(view_private@, index),
{
    let n = CurveScalar::from(index);
    let mut input: Vec<u8> = Vec::new();
    append(&mut input, SUBADDRESS_DOMAIN_TAG.as_slice());
    let a = view_private.to_bytes();
    append(&mut input, a.as_slice());
    append(&mut input, n.as_bytes().as_slice());
    assert(input@ =~= subaddress_input(view_private@, index));
    CurveScalar::hash_from_bytes(input.as_slice())
}

/// Generate a subaddress for a given input key set
pub trait Subaddress {
    /// Subaddress type
    type Output;

    /// Whether `output` is the subaddress at `index` of the key set.
    spec fn spec_subaddress(&self, index: u64, output: Self::Output) -> bool;

    /// Generate the subaddress for the corresponding index
    fn subaddress(&self, index: u64) -> (output: Self::Output)
        ensures
            self.spec_subaddress(index, output),
    ;
}

/// Generate subadress private keys from root private keys
impl<'a> Subaddress for (&'a RootViewPrivate, &'a RootSpendPrivate) {
    type Output = (SubaddrViewPrivate, SubaddrSpendPrivate);

    /// With `a` the view private key and `b` the spend private key: the spend
    /// key of the subaddress is `Hs + b`, its view key `a * (Hs + b)`.
    open spec fn spec_subaddress(&self, index: u64, output: Self::Output) -> bool {
        let a = self.0.inner()@;
        let b = self.1.inner()@;
        let hs = spec_subaddress_scalar(a, index);
        output.0.inner()@ == mul_mod(a, add_mod(hs, b)) && output.1.inner()@ == add_mod(hs, b)
    }

    fn subaddress(&self, index: u64) -> (output: Self::Output) {
        let view_private = self.0;
        let spend_private = self.1;
        let a = view_private.as_ref();

        // `Hs(a || n)`
        let hs = subaddress_scalar(a, index);

        // Return private subaddress keys
        let b = spend_private.as_ref();
        let spend = hs.add(b.scalar());
        (
            Key::new(RistrettoPrivate::from_scalar(a.scalar().mul(&spend))),
            Key::new(RistrettoPrivate::from_scalar(spend)),
        )
    }
}

/// Generate subaddress public keys from root view private and spend public keys
impl<'a> Subaddress for (&'a RootViewPrivate, &'a RootSpendPublic) {
    type Output = (SubaddrViewPublic, SubaddrSpendPublic);

    /// With `a` the view private key and `B` the spend public key: the spend
    /// key of the subaddress is `C = Hs * G + B`, its view key `a * C`.
    open spec fn spec_subaddress(&self, index: u64, output: Self::Output) -> bool {
        let a = self.0.inner()@;
        let b = self.1.inner()@;
        let hs = spec_subaddress_scalar(a, index);
        output.0.inner()@ == mul_mod(a, add_mod(hs, b)) && output.1.inner()@ == add_mod(hs, b)
    }

    fn subaddress(&self, index: u64) -> (output: Self::Output) {
        let view_private = self.0;
        let spend_public = self.1;

        // Generate spend public
        let a = view_private.as_ref();

        // `Hs(a || n)`
        let hs = subaddress_scalar(a, index);

        let b = RistrettoPrivate::from_scalar(hs);
        let b_public = RistrettoPublic::from(&b);

        // Return public subaddress keys
        let c = b_public.point().add(spend_public.as_ref().point());
        (
            Key::new(RistrettoPublic::from_point(c.mul(a.scalar()))),
            Key::new(RistrettoPublic::from_point(c)),
        )
    }
}

/// The public keys of the private keys of a subaddress are the public keys of
/// the subaddress: whoever derives from the root view private key and the root
/// spend public key arrives at the public keys of what the holder of both root
/// private keys derives.
pub proof fn lemma_public_subaddress_matches_private(
    view_private: RootViewPrivate,
    spend_private: RootSpendPrivate,
    spend_public: RootSpendPublic,
    index: u64,
    private: (SubaddrViewPrivate, SubaddrSpendPrivate),
    public: (SubaddrViewPublic, SubaddrSpendPublic),
)
    requires
        spend_public.inner()@ == spend_private.inner()@,
        (&view_private, &spend_private).spec_subaddress(index, private),
        (&view_private, &spend_public).spec_subaddress(index, public),
    ensures
        public.0.inner()@ == private.0.inner()@,
        public.1.inner()@ == private.1.inner()@,
{
}

} // verus!
