//! Account and subaddress objects
use crate::keys::{
    Key, RootSpendPrivate, RootSpendPublic, RootViewPrivate, RootViewPublic,
    SubaddrSpendPrivate, SubaddrSpendPublic, SubaddrViewPrivate, SubaddrViewPublic,
};
use crate::ristretto_keys::RistrettoPublic;
use vstd::prelude::*;
use vstd::std_specs::convert::FromSpecImpl;
use vstd::view::View as _;

verus! {

/// An object which represents a subaddress, and has RingCT-style
/// view and spend public keys.
pub trait RingCtAddress {
    /// The logarithm of the view public key.
    spec fn spec_view_public(&self) -> nat;

    /// The logarithm of the spend public key.
    spec fn spec_spend_public(&self) -> nat;

    /// Get the subaddress' view public key
    fn view_public_key(&self) -> (key: SubaddrViewPublic)
        ensures
            key.inner()@ == self.spec_view_public(),
    ;

    /// Get the subaddress' spend public key
    fn spend_public_key(&self) -> (key: SubaddrSpendPublic)
        ensures
            key.inner()@ == self.spec_spend_public(),
    ;
}

/// Basic account object.
///
/// Typically derived via slip10, and containing root view and spend private keys.
#[derive(Debug)]
pub struct Account {
    /// Root view private key
    view_private: RootViewPrivate,
    /// Root spend private key
    spend_private: RootSpendPrivate,
}

impl Account {
    /// The root view private key of the account.
    pub closed spec fn spec_view_private(self) -> RootViewPrivate {
        self.view_private
    }

    /// The root spend private key of the account.
    pub closed spec fn spec_spend_private(self) -> RootSpendPrivate {
        self.spend_private
    }

    /// Create an account from existing private keys
    pub fn new(view_private: RootViewPrivate, spend_private: RootSpendPrivate) -> (account: Self)
        ensures
            account.spec_view_private() == view_private,
            account.spec_spend_private() == spend_private,
    {
        Self { view_private, spend_private }
    }

    /// Overwrites both private keys of the account with zero.
    pub fn zeroize(&mut self)
        ensures
            final(self).spec_view_private().inner()@ == 0,
            final(self).spec_spend_private().inner()@ == 0,
    {
        self.view_private.zeroize();
        self.spend_private.zeroize();
    }

    /// Fetch account view public key
    pub fn view_public_key(&self) -> (key: RootViewPublic)
        ensures
            key.inner()@ == self.spec_view_private().inner()@,
    {
        RootViewPublic::from(&self.view_private)
    }

    /// Fetch account spend public key
    pub fn spend_public_key(&self) -> (key: RootSpendPublic)
        ensures
            key.inner()@ == self.spec_spend_private().inner()@,
    {
        RootSpendPublic::from(&self.spend_private)
    }

    /// Fetch account view private key
    pub fn view_private_key(&self) -> (key: &RootViewPrivate)
        ensures
            *key == self.spec_view_private(),
    {
        &self.view_private
    }

    /// Fetch account spend private key
    pub fn spend_private_key(&self) -> (key: &RootSpendPrivate)
        ensures
            *key == self.spec_spend_private(),
    {
        &self.spend_private
    }
}

/// Private subaddress object
#[derive(Clone, Debug)]
pub struct SpendSubaddress {
    /// sub-address view private key
    pub view_private: SubaddrViewPrivate,
    /// sub-address spend private key
    pub spend_private: SubaddrSpendPrivate,
}

impl RingCtAddress for SpendSubaddress {
    open spec fn spec_view_public(&self) -> nat {
        self.view_private.inner()@
    }

    open spec fn spec_spend_public(&self) -> nat {
        self.spend_private.inner()@
    }

    /// Fetch view public address
    fn view_public_key(&self) -> (key: SubaddrViewPublic) {
        SubaddrViewPublic::from(&self.view_private)
    }

    /// Fetch spend public address
    fn spend_public_key(&self) -> (key: SubaddrSpendPublic) {
        SubaddrSpendPublic::from(&self.spend_private)
    }
}

impl SpendSubaddress {
    /// Fetch subaddress view private key
    pub fn view_private_key(&self) -> (key: &SubaddrViewPrivate)
        ensures
            *key == self.view_private,
    {
        &self.view_private
    }

    /// Fetch subaddress spend private key
    pub fn spend_private_key(&self) -> (key: &SubaddrSpendPrivate)
        ensures
            *key == self.spend_private,
    {
        &self.spend_private
    }
}

/// View-only subaddress object
#[derive(Clone, Debug)]
pub struct ViewSubaddress {
    /// sub-address view private key
    pub view_private: SubaddrViewPrivate,
    /// sub-address spend public key
    pub spend_public: SubaddrSpendPublic,
}

impl RingCtAddress for ViewSubaddress {
    open spec fn spec_view_public(&self) -> nat {
        self.view_private.inner()@
    }

    open spec fn spec_spend_public(&self) -> nat {
        self.spend_public.inner()@
    }

    /// Fetch view public address
    fn view_public_key(&self) -> (key: SubaddrViewPublic) {
        SubaddrViewPublic::from(&self.view_private)
    }

    /// Fetch spend public address
    fn spend_public_key(&self) -> (key: SubaddrSpendPublic) {
        Key::new(*self.spend_public.as_ref())
    }
}

impl ViewSubaddress {
    /// Fetch subaddress view private key
    pub fn view_private_key(&self) -> (key: &SubaddrViewPrivate)
        ensures
            *key == self.view_private,
    {
        &self.view_private
    }
}

/// Public subaddress object
#[derive(Clone, Debug)]
pub struct PublicSubaddress {
    /// Public address view public key
    pub view_public: SubaddrViewPublic,
    /// Public address spend public key
    pub spend_public: SubaddrSpendPublic,
}

impl RingCtAddress for PublicSubaddress {
    open spec fn spec_view_public(&self) -> nat {
        self.view_public.inner()@
    }

    open spec fn spec_spend_public(&self) -> nat {
        self.spend_public.inner()@
    }

    /// Fetch view public address
    fn view_public_key(&self) -> (key: SubaddrViewPublic) {
        Key::new(*self.view_public.as_ref())
    }

    /// Fetch spend public address
    fn spend_public_key(&self) -> (key: SubaddrSpendPublic) {
        Key::new(*self.spend_public.as_ref())
    }
}

/// Create a [`PublicSubaddress`] object from a [`SpendSubaddress`]
impl<'a> From<&'a SpendSubaddress> for PublicSubaddress {
    fn from(addr: &'a SpendSubaddress) -> (public: Self)
        ensures
            public.view_public.inner()@ == addr.view_private.inner()@,
            public.spend_public.inner()@ == addr.spend_private.inner()@,
    {
        Self {
            view_public: SubaddrViewPublic::from(&addr.view_private),
            spend_public: SubaddrSpendPublic::from(&addr.spend_private),
        }
    }
}

impl<'a> FromSpecImpl<&'a SpendSubaddress> for PublicSubaddress {
    open spec fn obeys_from_spec() -> bool {
        true
    }

    open spec fn from_spec(addr: &'a SpendSubaddress) -> Self {
        PublicSubaddress {
            view_public: SubaddrViewPublic::spec_new(
                RistrettoPublic::spec_with_log(addr.view_private.inner()@),
            ),
            spend_public: SubaddrSpendPublic::spec_new(
                RistrettoPublic::spec_with_log(addr.spend_private.inner()@),
            ),
        }
    }
}

/// Create a [`PublicSubaddress`] object from a [`ViewSubaddress`]
impl<'a> From<&'a ViewSubaddress> for PublicSubaddress {
    fn from(addr: &'a ViewSubaddress) -> (public: Self)
        ensures
            public.view_public.inner()@ == addr.view_private.inner()@,
            public.spend_public.inner()@ == addr.spend_public.inner()@,
    {
        Self {
            view_public: SubaddrViewPublic::from(&addr.view_private),
            spend_public: Key::new(*addr.spend_public.as_ref()),
        }
    }
}

impl<'a> FromSpecImpl<&'a ViewSubaddress> for PublicSubaddress {
    open spec fn obeys_from_spec() -> bool {
        true
    }

    open spec fn from_spec(addr: &'a ViewSubaddress) -> Self {
        PublicSubaddress {
            view_public: SubaddrViewPublic::spec_new(
                RistrettoPublic::spec_with_log(addr.view_private.inner()@),
            ),
            spend_public: SubaddrSpendPublic::spec_new(addr.spend_public.inner()),
        }
    }
}

} // verus!
