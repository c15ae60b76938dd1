use ring_mlsag::account::{Account, PublicSubaddress, RingCtAddress, SpendSubaddress, ViewSubaddress};
use ring_mlsag::consts::DEFAULT_SUBADDRESS_INDEX;
use ring_mlsag::curve_scalar::CurveScalar;
use ring_mlsag::keys::{
    Key, RootSpendPrivate, RootSpendPublic, RootViewPrivate, RootViewPublic, SubaddrSpendPublic,
    SubaddrViewPublic,
};
use ring_mlsag::ristretto::Point;
use ring_mlsag::ristretto_keys::{KeyError, RistrettoPrivate};
use ring_mlsag::subaddress::Subaddress;

fn scalar_bytes(n: u8) -> [u8; 32] {
    let mut bytes = [0u8; 32];
    bytes[0] = n;
    bytes
}

fn roots() -> (RootViewPrivate, RootSpendPrivate) {
    (
        RootViewPrivate::try_from(&scalar_bytes(21)).unwrap(),
        RootSpendPrivate::try_from(&scalar_bytes(22)).unwrap(),
    )
}

#[test]
fn keys_keep_their_bytes() {
    let (view, spend) = roots();
    assert_eq!(view.to_bytes(), scalar_bytes(21));
    assert_eq!(spend.to_bytes(), scalar_bytes(22));
    let public = RootSpendPublic::from(&spend);
    assert_eq!(public.to_bytes(), Point::mul_base(&CurveScalar::from(22u64)).compress());
    let read = RootSpendPublic::try_from(&public.to_bytes()).unwrap();
    assert!(read.eq(&public));
    assert!(!read.eq(&RootSpendPublic::from(
        &RootSpendPrivate::try_from(&scalar_bytes(23)).unwrap()
    )));
    assert!(spend.eq(&RootSpendPrivate::try_from(&scalar_bytes(22)).unwrap()));
    assert!(!spend.eq(&RootSpendPrivate::try_from(&scalar_bytes(23)).unwrap()));
    assert_eq!(RootViewPrivate::try_from(&[0xff; 32]).err(), Some(KeyError::InvalidPrivateKey));
    assert_eq!(RootViewPublic::try_from(&[0xff; 32]).err(), Some(KeyError::InvalidPublicKey));
    assert_eq!(view.clone().to_bytes(), view.to_bytes());
    assert_eq!(view.as_ref().to_bytes(), scalar_bytes(21));
}

#[test]
fn public_subaddress_keys_belong_to_the_private_ones() {
    let (view, spend) = roots();
    for index in [DEFAULT_SUBADDRESS_INDEX, 1, u64::MAX] {
        let (subaddr_view_private, subaddr_spend_private) = (&view, &spend).subaddress(index);
        let spend_public = RootSpendPublic::from(&spend);
        let (subaddr_view_public, subaddr_spend_public) = (&view, &spend_public).subaddress(index);
        assert_eq!(
            SubaddrViewPublic::from(&subaddr_view_private).to_bytes(),
            subaddr_view_public.to_bytes()
        );
        assert_eq!(
            SubaddrSpendPublic::from(&subaddr_spend_private).to_bytes(),
            subaddr_spend_public.to_bytes()
        );
    }
}

#[test]
fn subaddress_keys_follow_the_formula() {
    let (view, spend) = roots();
    let index = 3u64;
    let (subaddr_view_private, subaddr_spend_private) = (&view, &spend).subaddress(index);
    // Hs(a || n), over the bytes of the view key and of the index as a scalar
    let mut input = b"mc_subaddress".to_vec();
    input.extend_from_slice(&scalar_bytes(21));
    input.extend_from_slice(&CurveScalar::from(index).to_bytes());
    let hs = CurveScalar::hash_from_bytes(&input);
    let b = CurveScalar::from(22u64);
    let a = CurveScalar::from(21u64);
    assert_eq!(subaddr_spend_private.to_bytes(), hs.add(&b).to_bytes());
    assert_eq!(subaddr_view_private.to_bytes(), a.mul(&hs.add(&b)).to_bytes());
    // another index, other keys
    let (other_view, other_spend) = (&view, &spend).subaddress(4);
    assert_ne!(other_view.to_bytes(), subaddr_view_private.to_bytes());
    assert_ne!(other_spend.to_bytes(), subaddr_spend_private.to_bytes());
}

#[test]
fn accounts_hand_out_their_keys() {
    let (view, spend) = roots();
    let account = Account::new(view.clone(), spend.clone());
    assert_eq!(account.view_private_key().to_bytes(), view.to_bytes());
    assert_eq!(account.spend_private_key().to_bytes(), spend.to_bytes());
    assert_eq!(
        account.view_public_key().to_bytes(),
        RootViewPublic::from(&view).to_bytes()
    );
    assert_eq!(
        account.spend_public_key().to_bytes(),
        RootSpendPublic::from(&spend).to_bytes()
    );
}

#[test]
fn subaddresses_hand_out_their_public_keys() {
    let (view, spend) = roots();
    let (view_private, spend_private) = (&view, &spend).subaddress(0);
    let spend_address = SpendSubaddress {
        view_private: view_private.clone(),
        spend_private: spend_private.clone(),
    };
    let view_address = ViewSubaddress {
        view_private: view_private.clone(),
        spend_public: SubaddrSpendPublic::from(&spend_private),
    };
    assert_eq!(spend_address.view_private_key().to_bytes(), view_private.to_bytes());
    assert_eq!(spend_address.spend_private_key().to_bytes(), spend_private.to_bytes());
    assert_eq!(view_address.view_private_key().to_bytes(), view_private.to_bytes());
    let from_spend = PublicSubaddress::from(&spend_address);
    let from_view = PublicSubaddress::from(&view_address);
    assert_eq!(from_spend.view_public.to_bytes(), from_view.view_public.to_bytes());
    assert_eq!(from_spend.spend_public.to_bytes(), from_view.spend_public.to_bytes());
    assert_eq!(
        from_spend.view_public_key().to_bytes(),
        SubaddrViewPublic::from(&view_private).to_bytes()
    );
    assert_eq!(
        from_view.spend_public_key().to_bytes(),
        spend_address.spend_public_key().to_bytes()
    );
    assert_eq!(
        view_address.view_public_key().to_bytes(),
        spend_address.view_public_key().to_bytes()
    );
    let wrapped: Key<ring_mlsag::keys::Subaddr, ring_mlsag::keys::Spend, RistrettoPrivate> =
        Key::new(RistrettoPrivate::from_scalar(CurveScalar::from(1u64)));
    assert_eq!(wrapped.to_bytes(), scalar_bytes(1));
}

#[test]
fn erased_accounts_hold_zero() {
    let (view, spend) = roots();
    let mut account = Account::new(view, spend);
    account.zeroize();
    assert_eq!(account.view_private_key().to_bytes(), [0u8; 32]);
    assert_eq!(account.spend_private_key().to_bytes(), [0u8; 32]);
    assert_eq!(RootViewPrivate::default().to_bytes(), [0u8; 32]);
    assert_eq!(RootSpendPublic::default().to_bytes(), [0u8; 32]);
}

#[test]
fn the_library_is_reached_from_its_root() {
    let gens = ring_mlsag::generators(0);
    let commitment = ring_mlsag::Commitment::new(1, ring_mlsag::CurveScalar::from(2u64), &gens);
    assert_eq!(
        ring_mlsag::CompressedCommitment::from(&commitment),
        ring_mlsag::CompressedCommitment::new(1, ring_mlsag::CurveScalar::from(2u64), &gens)
    );
}
