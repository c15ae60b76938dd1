//! Keys that carry, in their type, the address they belong to and what they
//! are for.
use crate::group::{group_order, le_value};
use crate::ristretto::{is_point, point_log, point_of};
use crate::ristretto_keys::{KeyError, RistrettoPrivate, RistrettoPublic};
use core::marker::PhantomData;
use vstd::prelude::*;
use vstd::std_specs::convert::FromSpecImpl;
use vstd::view::View as _;

verus! {

/// Subaddress marker type
#[derive(Copy, Clone, Debug)]
pub struct Subaddr;

/// Root address marker type
#[derive(Copy, Clone, Debug)]
pub struct Root;

/// View key marker type
#[derive(Copy, Clone, Debug)]
pub struct View;

/// Spend key marker type
#[derive(Copy, Clone, Debug)]
pub struct Spend;

/// Generic key object, see type aliases for use
#[derive(Debug)]
pub struct Key<ADDR, KIND, KEY> {
    key: KEY,
    _addr: PhantomData<ADDR>,
    _kind: PhantomData<KIND>,
}

/// Subaddress view private key
pub type SubaddrViewPrivate = Key<Subaddr, View, RistrettoPrivate>;

/// Subaddress spend private key
pub type SubaddrSpendPrivate = Key<Subaddr, Spend, RistrettoPrivate>;

/// Subaddress view public key
pub type SubaddrViewPublic = Key<Subaddr, View, RistrettoPublic>;

/// Subaddress spend public key
pub type SubaddrSpendPublic = Key<Subaddr, Spend, RistrettoPublic>;

/// Root view private key
pub type RootViewPrivate = Key<Root, View, RistrettoPrivate>;

/// Root spend private key
pub type RootSpendPrivate = Key<Root, Spend, RistrettoPrivate>;

/// Root view public key
pub type RootViewPublic = Key<Root, View, RistrettoPublic>;

/// Root spend public key
pub type RootSpendPublic = Key<Root, Spend, RistrettoPublic>;

impl<ADDR, KIND, KEY> Key<ADDR, KIND, KEY> {
    /// The key inside.
    pub closed spec fn inner(self) -> KEY {
        self.key
    }

    /// The key that wraps `key`.
    pub closed spec fn spec_new(key: KEY) -> Self {
        Key { key, _addr: PhantomData, _kind: PhantomData }
    }

    /// The key that wraps `key`.
    pub fn new(key: KEY) -> (k: Self)
        ensures
            k == Self::spec_new(key),
            k.inner() == key,
    {
        Self { key, _addr: PhantomData, _kind: PhantomData }
    }

    /// Access to the key inside.
    pub fn as_ref(&self) -> (key: &KEY)
        ensures
            *key == self.inner(),
    {
        &self.key
    }
}

/// Create a default key object
impl<ADDR, KIND, KEY: Default> Default for Key<ADDR, KIND, KEY> {
    fn default() -> (k: Self) {
        Self { key: KEY::default(), _addr: PhantomData, _kind: PhantomData }
    }
}

impl<ADDR, KIND, KEY: Clone> Clone for Key<ADDR, KIND, KEY> {
    fn clone(&self) -> (k: Self) {
        Self { key: self.key.clone(), _addr: PhantomData, _kind: PhantomData }
    }
}

/// Shared public key methods
impl<ADDR, KIND> Key<ADDR, KIND, RistrettoPublic> {
    /// Fetch public key bytes in compressed form
    pub fn to_bytes(&self) -> (b: [u8; 32])
        ensures
            b@ == point_of(self.inner()@),
            is_point(b@),
            point_log(b@) == self.inner()@,
    {
        self.key.to_bytes()
    }

    /// Attempt to create a public key from a compressed point
    pub fn try_from(p: &[u8; 32]) -> (r: Result<Self, KeyError>)
        ensures
            r is Ok <==> is_point(p@),
            r is Ok ==> r.unwrap().inner()@ == point_log(p@),
            r is Err ==> r == Err::<Self, KeyError>(KeyError::InvalidPublicKey),
    {
        match RistrettoPublic::try_from(p) {
            Ok(key) => Ok(Self { key, _addr: PhantomData, _kind: PhantomData }),
            Err(e) => Err(e),
        }
    }

    /// Whether two public keys are the same group element.
    pub fn eq(&self, other: &Self) -> (r: bool)
        ensures
            r == (self.inner()@ == other.inner()@),
    {
        *self.key.point() == *other.key.point()
    }
}

/// Fetch the public key for a private key instance
impl<'a, ADDR, KIND> From<&'a Key<ADDR, KIND, RistrettoPrivate>> for Key<
    ADDR,
    KIND,
    RistrettoPublic,
> {
    fn from(p: &'a Key<ADDR, KIND, RistrettoPrivate>) -> (k: Self)
        ensures
            k.inner()@ == p.inner()@,
    {
        Self { key: RistrettoPublic::from(&p.key), _addr: PhantomData, _kind: PhantomData }
    }
}

impl<'a, ADDR, KIND> FromSpecImpl<&'a Key<ADDR, KIND, RistrettoPrivate>> for Key<
    ADDR,
    KIND,
    RistrettoPublic,
> {
    open spec fn obeys_from_spec() -> bool {
        true
    }

    open spec fn from_spec(p: &'a Key<ADDR, KIND, RistrettoPrivate>) -> Self {
        Self::spec_new(RistrettoPublic::spec_with_log(p.inner()@))
    }
}

/// Create a public key from a [`RistrettoPublic`] object
impl<ADDR, KIND> From<RistrettoPublic> for Key<ADDR, KIND, RistrettoPublic> {
    fn from(p: RistrettoPublic) -> (k: Self) {
        Self { key: p, _addr: PhantomData, _kind: PhantomData }
    }
}

impl<ADDR, KIND> FromSpecImpl<RistrettoPublic> for Key<ADDR, KIND, RistrettoPublic> {
    open spec fn obeys_from_spec() -> bool {
        true
    }

    open spec fn from_spec(p: RistrettoPublic) -> Self {
        Self::spec_new(p)
    }
}

/// Create a private key from a [`RistrettoPrivate`] object
impl<ADDR, KIND> From<RistrettoPrivate> for Key<ADDR, KIND, RistrettoPrivate> {
    fn from(p: RistrettoPrivate) -> (k: Self) {
        Self { key: p, _addr: PhantomData, _kind: PhantomData }
    }
}

impl<ADDR, KIND> FromSpecImpl<RistrettoPrivate> for Key<ADDR, KIND, RistrettoPrivate> {
    open spec fn obeys_from_spec() -> bool {
        true
    }

    open spec fn from_spec(p: RistrettoPrivate) -> Self {
        Self::spec_new(p)
    }
}

/// Shared private key methods
impl<ADDR, KIND> Key<ADDR, KIND, RistrettoPrivate> {
    /// Fetch private key bytes
    pub fn to_bytes(&self) -> (b: [u8; 32])
        ensures
            le_value(b@) == self.inner()@,
    {
        self.key.to_bytes()
    }

    /// Attempt to create a private key from the canonical bytes of a scalar
    pub fn try_from(p: &[u8; 32]) -> (r: Result<Self, KeyError>)
        ensures
            r is Ok <==> le_value(p@) < group_order(),
            r is Ok ==> r.unwrap().inner()@ == le_value(p@),
            r is Err ==> r == Err::<Self, KeyError>(KeyError::InvalidPrivateKey),
    {
        match RistrettoPrivate::try_from(p) {
            Ok(key) => Ok(Self { key, _addr: PhantomData, _kind: PhantomData }),
            Err(e) => Err(e),
        }
    }

    /// Overwrites the key with zero.
    pub fn zeroize(&mut self)
        ensures
            final(self).inner()@ == 0,
    {
        self.key.zeroize();
    }

    /// Whether two private keys have the same public key.
    pub fn eq(&self, other: &Self) -> (r: bool)
        ensures
            r == (self.inner()@ == other.inner()@),
    {
        let a = RistrettoPublic::from(&self.key);
        let b = RistrettoPublic::from(&other.key);
        *a.point() == *b.point()
    }
}

} // verus!
