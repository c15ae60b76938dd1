use curve25519_dalek::constants::{RISTRETTO_BASEPOINT_COMPRESSED, RISTRETTO_BASEPOINT_POINT};
use curve25519_dalek::ristretto::{CompressedRistretto, RistrettoPoint};
use curve25519_dalek::scalar::Scalar;
use ring_mlsag::commitment::{generators, Commitment, CompressedCommitment};
use ring_mlsag::curve_scalar::CurveScalar;
use ring_mlsag::error::Error;
use ring_mlsag::key_image::KeyImage;
use ring_mlsag::onetime_keys::{create_shared_secret, get_tx_out_shared_secret, hash_to_point};
use ring_mlsag::ristretto::Point;
use ring_mlsag::ristretto_keys::{
    CompressedRistrettoPublic, KeyError, RistrettoPrivate, RistrettoPublic,
};

fn scalar_of(s: &CurveScalar) -> Scalar {
    Scalar::from_bytes_mod_order(*s.as_bytes())
}

fn point_of(p: &Point) -> RistrettoPoint {
    CompressedRistretto(p.compress()).decompress().unwrap()
}

fn private(seed: &[u8]) -> RistrettoPrivate {
    RistrettoPrivate::from_scalar(CurveScalar::hash_from_bytes(seed))
}

#[test]
fn the_basepoint_is_the_basepoint() {
    assert_eq!(Point::basepoint().compress(), RISTRETTO_BASEPOINT_COMPRESSED.to_bytes());
    assert_eq!(
        Point::mul_base(&CurveScalar::from(1u64)).compress(),
        RISTRETTO_BASEPOINT_COMPRESSED.to_bytes()
    );
    // zero times the basepoint is the identity, whose encoding is all zero
    assert_eq!(Point::mul_base(&CurveScalar::zero()).compress(), [0u8; 32]);
}

#[test]
fn group_operations_agree_with_the_curve_library() {
    let a = CurveScalar::hash_from_bytes(b"a");
    let b = CurveScalar::hash_from_bytes(b"b");
    let p = Point::mul_base(&a);
    let q = Point::hash_from_bytes(b"q");
    assert_eq!(point_of(&p), RistrettoPoint::mul_base(&scalar_of(&a)));
    assert_eq!(
        point_of(&q),
        RistrettoPoint::hash_from_bytes::<blake2::Blake2b512>(b"q")
    );
    assert_eq!(point_of(&p.add(&q)), point_of(&p) + point_of(&q));
    assert_eq!(point_of(&p.sub(&q)), point_of(&p) - point_of(&q));
    assert_eq!(point_of(&q.mul(&b)), scalar_of(&b) * point_of(&q));
    assert_ne!(p.add(&q).compress(), p.compress());
    assert_ne!(q.mul(&b).compress(), q.compress());
}

#[test]
fn group_laws_on_values() {
    let two = CurveScalar::from(2u64);
    let three = CurveScalar::from(3u64);
    let five = CurveScalar::from(5u64);
    let g = Point::basepoint();
    // 2 G + 3 G = 5 G
    assert!(g.mul(&two).add(&g.mul(&three)) == Point::mul_base(&five));
    // 5 G - 3 G = 2 G
    assert!(Point::mul_base(&five).sub(&g.mul(&three)) == g.mul(&two));
    // 3 (2 G) = 6 G
    assert!(g.mul(&two).mul(&three) == Point::mul_base(&CurveScalar::from(6u64)));
    assert!(g.mul(&two) != g.mul(&three));
}

#[test]
fn decompression_accepts_points_only() {
    let p = Point::hash_from_bytes(b"a point");
    let bytes = p.compress();
    assert!(Point::decompress(&bytes).unwrap() == p);
    // no encoding has its highest bit set
    assert!(Point::decompress(&[0xff; 32]).is_none());
    // the encoding of a negative field element is refused
    let mut one = [0u8; 32];
    one[0] = 1;
    assert!(Point::decompress(&one).is_none());
}

#[test]
fn keys_are_read_from_canonical_bytes() {
    let mut bytes = [0u8; 32];
    bytes[0] = 9;
    let key = RistrettoPrivate::try_from(&bytes).unwrap();
    assert_eq!(key.to_bytes(), bytes);
    assert_eq!(
        RistrettoPrivate::try_from(&[0xff; 32]).err(),
        Some(KeyError::InvalidPrivateKey)
    );
    let public = RistrettoPublic::from(&key);
    assert_eq!(
        public.to_bytes(),
        RistrettoPoint::mul_base(&Scalar::from(9u64)).compress().to_bytes()
    );
    let read = RistrettoPublic::try_from(&public.to_bytes()).unwrap();
    assert_eq!(read.to_bytes(), public.to_bytes());
    assert_eq!(
        RistrettoPublic::try_from(&[0xff; 32]).err(),
        Some(KeyError::InvalidPublicKey)
    );
    assert_eq!(CompressedRistrettoPublic::from(&public).as_bytes(), &public.to_bytes());
}

#[test]
fn hash_to_point_is_domain_separated() {
    let key = RistrettoPublic::from(&private(b"key"));
    let mut hasher_input = b"mc_onetime_key_hash_to_point".to_vec();
    hasher_input.extend_from_slice(&key.to_bytes());
    let expected = RistrettoPoint::hash_from_bytes::<blake2::Blake2b512>(&hasher_input);
    assert_eq!(point_of(&hash_to_point(&key)), expected);
}

#[test]
fn key_image_is_the_private_key_times_the_hashed_public_key() {
    let x = private(b"spent");
    let image = KeyImage::from(&x);
    let public = RistrettoPublic::from(&x);
    let expected = scalar_of(x.scalar()) * point_of(&hash_to_point(&public));
    assert_eq!(image.to_bytes(), expected.compress().to_bytes());
    assert_eq!(image, KeyImage::from_bytes(expected.compress().to_bytes()));
    // another key leaves another image
    assert_ne!(image, KeyImage::from(&private(b"unspent")));
    assert_ne!(image.as_bytes(), &x.to_bytes());
}

#[test]
fn generators_per_token() {
    let mob = generators(0);
    assert_eq!(mob.B_blinding.compress(), RISTRETTO_BASEPOINT_COMPRESSED.to_bytes());
    let mut input = b"mc_onetime_key_hash_to_point".to_vec();
    input.extend_from_slice(RISTRETTO_BASEPOINT_COMPRESSED.as_bytes());
    assert_eq!(
        point_of(&mob.B),
        RistrettoPoint::hash_from_bytes::<blake2::Blake2b512>(&input)
    );
    let other = generators(7);
    let mut input = b"mc_onetime_key_hash_to_point".to_vec();
    input.extend_from_slice(&7u64.to_le_bytes());
    assert_eq!(
        point_of(&other.B),
        RistrettoPoint::hash_from_bytes::<blake2::Blake2b512>(&input)
    );
    assert_eq!(other.B_blinding.compress(), mob.B_blinding.compress());
    assert_ne!(other.B.compress(), mob.B.compress());
}

#[test]
fn commitment_is_value_times_b_plus_blinding_times_g() {
    let gens = generators(0);
    let blinding = CurveScalar::hash_from_bytes(b"blinding");
    let commitment = Commitment::new(1000, blinding, &gens);
    let expected =
        Scalar::from(1000u64) * point_of(&gens.B) + scalar_of(&blinding) * RISTRETTO_BASEPOINT_POINT;
    assert_eq!(point_of(&commitment.point), expected);
    let compressed = CompressedCommitment::from(&commitment);
    assert_eq!(compressed.as_bytes(), &expected.compress().to_bytes());
    assert_eq!(compressed, CompressedCommitment::new(1000, blinding, &gens));
    assert!(Commitment::try_from(&compressed).unwrap() == commitment);
    // another value, another commitment
    assert!(Commitment::new(999, blinding, &gens) != commitment);
    assert_ne!(CompressedCommitment::new(999, blinding, &gens), compressed);
    // bytes that are no point are no commitment
    let bad = CompressedCommitment { point: [0xff; 32] };
    assert_eq!(Commitment::try_from(&bad).err(), Some(Error::InvalidCurvePoint));
}

#[test]
fn commitments_to_zero_with_no_blinding_are_the_identity() {
    let gens = generators(3);
    let commitment = CompressedCommitment::new(0, CurveScalar::zero(), &gens);
    assert_eq!(commitment.as_bytes(), &[0u8; 32]);
}

#[test]
fn shared_secrets_agree() {
    let a = private(b"alice");
    let b = private(b"bob");
    let to_bob = create_shared_secret(&RistrettoPublic::from(&b), &a);
    let to_alice = get_tx_out_shared_secret(&b, &RistrettoPublic::from(&a));
    assert_eq!(to_bob.to_bytes(), to_alice.to_bytes());
    let expected = scalar_of(a.scalar()) * scalar_of(b.scalar()) * RISTRETTO_BASEPOINT_POINT;
    assert_eq!(to_bob.to_bytes(), expected.compress().to_bytes());
}

#[test]
fn erased_keys_are_zero() {
    let mut key = private(b"to erase");
    key.zeroize();
    assert_eq!(key.to_bytes(), [0u8; 32]);
    assert_eq!(RistrettoPrivate::default().to_bytes(), [0u8; 32]);
    let mut public = RistrettoPublic::from(&private(b"public"));
    public.zeroize();
    assert_eq!(public.to_bytes(), [0u8; 32]);
    assert_eq!(RistrettoPublic::default().to_bytes(), [0u8; 32]);
    let mut point = Point::hash_from_bytes(b"gone");
    point.zeroize();
    // the identity: adding it changes nothing
    let other = Point::hash_from_bytes(b"stays");
    assert!(other.add(&point) == other);
    assert!(point == Point::mul_base(&CurveScalar::zero()));
    assert_eq!(point.compress(), [0u8; 32]);
}

#[test]
fn random_scalars_differ() {
    struct Counter(u8);
    impl rand_core::RngCore for Counter {
        fn next_u32(&mut self) -> u32 {
            self.next_u64() as u32
        }
        fn next_u64(&mut self) -> u64 {
            let mut bytes = [0u8; 8];
            self.fill_bytes(&mut bytes);
            u64::from_le_bytes(bytes)
        }
        fn fill_bytes(&mut self, dest: &mut [u8]) {
            for b in dest.iter_mut() {
                self.0 = self.0.wrapping_add(1);
                *b = self.0;
            }
        }
        fn try_fill_bytes(&mut self, dest: &mut [u8]) -> Result<(), rand_core::Error> {
            self.fill_bytes(dest);
            Ok(())
        }
    }
    impl rand_core::CryptoRng for Counter {}
    let mut rng = Counter(0);
    let first = CurveScalar::random(&mut rng);
    let second = CurveScalar::random(&mut rng);
    assert_ne!(first, second);
    // the sixty-four bytes 1, 2, .., 64, reduced
    let mut wide = [0u8; 64];
    for (i, b) in wide.iter_mut().enumerate() {
        *b = i as u8 + 1;
    }
    assert_eq!(first, CurveScalar::from_bytes_mod_order_wide(&wide));
}
