use rand_core::{CryptoRng, RngCore};
use ring_mlsag::commitment::{generators, Commitment, CompressedCommitment, PedersenGens};
use ring_mlsag::curve_scalar::CurveScalar;
use ring_mlsag::error::Error;
use ring_mlsag::key_image::KeyImage;
use ring_mlsag::mlsag::RingMLSAG;
use ring_mlsag::mlsag_sign::{challenge, MlsagSignCtx, MlsagSignParams};
use ring_mlsag::ring::Ring;
use ring_mlsag::ristretto::Point;
use ring_mlsag::ring::ReducedTxOut;
use ring_mlsag::ristretto_keys::{CompressedRistrettoPublic, RistrettoPrivate, RistrettoPublic};

/// A generator of fixed, repeatable bytes.
struct SeededRng(u64);

impl RngCore for SeededRng {
    fn next_u32(&mut self) -> u32 {
        (self.next_u64() >> 32) as u32
    }

    fn next_u64(&mut self) -> u64 {
        self.0 = self.0.wrapping_add(0x9e37_79b9_7f4a_7c15);
        let mut z = self.0;
        z = (z ^ (z >> 30)).wrapping_mul(0xbf58_476d_1ce4_e5b9);
        z = (z ^ (z >> 27)).wrapping_mul(0x94d0_49bb_1331_11eb);
        z ^ (z >> 31)
    }

    fn fill_bytes(&mut self, dest: &mut [u8]) {
        for chunk in dest.chunks_mut(8) {
            let bytes = self.next_u64().to_le_bytes();
            chunk.copy_from_slice(&bytes[..chunk.len()]);
        }
    }

    fn try_fill_bytes(&mut self, dest: &mut [u8]) -> Result<(), rand_core::Error> {
        self.fill_bytes(dest);
        Ok(())
    }
}

impl CryptoRng for SeededRng {}

/// What a test signs with.
struct Fixture {
    message: Vec<u8>,
    ring: Vec<ReducedTxOut>,
    real_index: usize,
    onetime_private_key: RistrettoPrivate,
    value: u64,
    blinding: CurveScalar,
    pseudo_output_blinding: CurveScalar,
    generator: PedersenGens,
}

fn member(rng: &mut SeededRng, key: &RistrettoPrivate, commitment: &Commitment) -> ReducedTxOut {
    let public_key = RistrettoPublic::from(&RistrettoPrivate::from_scalar(
        CurveScalar::random(rng),
    ));
    ReducedTxOut {
        public_key: CompressedRistrettoPublic::from(&public_key),
        target_key: CompressedRistrettoPublic::from(&RistrettoPublic::from(key)),
        commitment: CompressedCommitment::from(commitment),
    }
}

fn fixture(num_mixins: usize, seed: u64) -> Fixture {
    let mut rng = SeededRng(seed);
    let generator = generators(0);
    let mut message = vec![0u8; 32];
    rng.fill_bytes(&mut message);
    let mut ring = Vec::new();
    for _ in 0..num_mixins {
        let key = RistrettoPrivate::from_scalar(CurveScalar::random(&mut rng));
        let commitment =
            Commitment::new(rng.next_u64(), CurveScalar::random(&mut rng), &generator);
        ring.push(member(&mut rng, &key, &commitment));
    }
    let onetime_private_key = RistrettoPrivate::from_scalar(CurveScalar::random(&mut rng));
    let value = rng.next_u64();
    let blinding = CurveScalar::random(&mut rng);
    let commitment = Commitment::new(value, blinding, &generator);
    let real = member(&mut rng, &onetime_private_key, &commitment);
    let real_index = (rng.next_u64() % (num_mixins as u64 + 1)) as usize;
    ring.insert(real_index, real);
    let pseudo_output_blinding = CurveScalar::random(&mut rng);
    Fixture {
        message,
        ring,
        real_index,
        onetime_private_key,
        value,
        blinding,
        pseudo_output_blinding,
        generator,
    }
}

fn params<'a>(f: &'a Fixture, check: bool) -> MlsagSignParams<'a> {
    MlsagSignParams {
        ring_size: f.ring.len(),
        message: &f.message,
        real_index: f.real_index,
        onetime_private_key: &f.onetime_private_key,
        value: f.value,
        blinding: &f.blinding,
        output_blinding: &f.pseudo_output_blinding,
        generator: &f.generator,
        check_value_is_preserved: check,
    }
}

fn output_commitment(f: &Fixture) -> CompressedCommitment {
    CompressedCommitment::new(f.value, f.pseudo_output_blinding, &f.generator)
}

#[test]
fn sign_then_verify_for_every_ring_size() {
    for num_mixins in 0..11 {
        let f = fixture(num_mixins, 7 + num_mixins as u64);
        let mut rng = SeededRng(99);
        let signature = RingMLSAG::sign(&f.ring, &params(&f, true), &mut rng).unwrap();
        assert_eq!(signature.responses.len(), 2 * (num_mixins + 1));
        assert_eq!(signature.key_image, KeyImage::from(&f.onetime_private_key));
        assert_eq!(signature.verify(&f.message, &f.ring, &output_commitment(&f)), Ok(()));
    }
}

#[test]
fn signing_past_the_ring_is_an_index_error() {
    let f = fixture(3, 1);
    let mut p = params(&f, false);
    p.real_index = 4;
    let mut rng = SeededRng(5);
    assert_eq!(RingMLSAG::sign(&f.ring, &p, &mut rng).err(), Some(Error::IndexOutOfBounds));
}

fn signed(f: &Fixture) -> RingMLSAG {
    let mut rng = SeededRng(1234);
    RingMLSAG::sign(&f.ring, &params(f, true), &mut rng).unwrap()
}

fn flip(bytes: &mut [u8; 32], bit: usize) {
    bytes[bit / 8] ^= 1 << (bit % 8);
}

#[test]
fn a_tampered_challenge_fails() {
    let f = fixture(4, 21);
    let signature = signed(&f);
    for bit in [0usize, 7, 100, 250] {
        let mut bytes = signature.c_zero.to_bytes();
        flip(&mut bytes, bit);
        let mut tampered = signature.clone();
        tampered.c_zero = CurveScalar::from_bytes_mod_order(bytes);
        assert_ne!(tampered, signature);
        assert_eq!(
            tampered.verify(&f.message, &f.ring, &output_commitment(&f)),
            Err(Error::InvalidSignature)
        );
    }
}

#[test]
fn a_tampered_response_fails() {
    let f = fixture(4, 22);
    let signature = signed(&f);
    for index in 0..signature.responses.len() {
        let mut bytes = signature.responses[index].to_bytes();
        flip(&mut bytes, 3 + index);
        let mut tampered = signature.clone();
        tampered.responses[index] = CurveScalar::from_bytes_mod_order(bytes);
        assert_eq!(
            tampered.verify(&f.message, &f.ring, &output_commitment(&f)),
            Err(Error::InvalidSignature)
        );
    }
}

#[test]
fn a_tampered_key_image_fails() {
    let f = fixture(4, 23);
    let signature = signed(&f);
    // the key image of another key
    let mut tampered = signature.clone();
    tampered.key_image = KeyImage::from(&RistrettoPrivate::from_scalar(
        CurveScalar::from(5u64),
    ));
    assert_eq!(
        tampered.verify(&f.message, &f.ring, &output_commitment(&f)),
        Err(Error::InvalidSignature)
    );
    // a key image with one bit flipped either is no point, or is another point
    for bit in 0..16 {
        let mut bytes = signature.key_image.to_bytes();
        flip(&mut bytes, bit);
        let mut tampered = signature.clone();
        tampered.key_image = KeyImage::from_bytes(bytes);
        let outcome = tampered.verify(&f.message, &f.ring, &output_commitment(&f));
        assert!(
            outcome == Err(Error::InvalidSignature) || outcome == Err(Error::InvalidKeyImage)
        );
    }
    // bytes that are no point are an invalid key image
    let mut tampered = signature.clone();
    tampered.key_image = KeyImage::from_bytes([0xff; 32]);
    assert_eq!(
        tampered.verify(&f.message, &f.ring, &output_commitment(&f)),
        Err(Error::InvalidKeyImage)
    );
}

#[test]
fn a_tampered_message_fails() {
    let f = fixture(4, 24);
    let signature = signed(&f);
    for bit in [0usize, 9, 255] {
        let mut message = f.message.clone();
        message[bit / 8] ^= 1 << (bit % 8);
        assert_eq!(
            signature.verify(&message, &f.ring, &output_commitment(&f)),
            Err(Error::InvalidSignature)
        );
    }
    assert_eq!(
        signature.verify(&[], &f.ring, &output_commitment(&f)),
        Err(Error::InvalidSignature)
    );
}

#[test]
fn a_tampered_ring_member_fails() {
    let f = fixture(4, 25);
    let signature = signed(&f);
    let stranger = RistrettoPrivate::from_scalar(CurveScalar::from(77u64));
    for index in 0..f.ring.len() {
        // another one-time public key
        let mut ring = f.ring.clone();
        ring[index].target_key =
            CompressedRistrettoPublic::from(&RistrettoPublic::from(&stranger));
        assert_eq!(
            signature.verify(&f.message, &ring, &output_commitment(&f)),
            Err(Error::InvalidSignature)
        );
        // another commitment
        let mut ring = f.ring.clone();
        ring[index].commitment =
            CompressedCommitment::new(3, CurveScalar::from(4u64), &f.generator);
        assert_eq!(
            signature.verify(&f.message, &ring, &output_commitment(&f)),
            Err(Error::InvalidSignature)
        );
        // a member that does not decompress
        let mut ring = f.ring.clone();
        ring[index].target_key = CompressedRistrettoPublic { bytes: [0xff; 32] };
        assert_eq!(
            signature.verify(&f.message, &ring, &output_commitment(&f)),
            Err(Error::InvalidKeyImage)
        );
    }
    // the members in another order
    let mut ring = f.ring.clone();
    ring.swap(0, 1);
    assert_eq!(
        signature.verify(&f.message, &ring, &output_commitment(&f)),
        Err(Error::InvalidSignature)
    );
}

#[test]
fn another_output_commitment_fails() {
    let f = fixture(4, 26);
    let signature = signed(&f);
    let other = CompressedCommitment::new(f.value + 1, f.pseudo_output_blinding, &f.generator);
    assert_eq!(signature.verify(&f.message, &f.ring, &other), Err(Error::InvalidSignature));
    let bad = CompressedCommitment { point: [0xff; 32] };
    assert_eq!(signature.verify(&f.message, &f.ring, &bad), Err(Error::InvalidCurvePoint));
}

#[test]
fn a_ring_of_twelve_is_a_length_error() {
    let f = fixture(11, 27);
    assert_eq!(f.ring.len(), 12);
    let mut rng = SeededRng(5);
    assert_eq!(
        RingMLSAG::sign(&f.ring, &params(&f, false), &mut rng).err(),
        Some(Error::LengthMismatch(12, 11))
    );
    // and so it is for verification
    let smaller = fixture(10, 27);
    let signature = signed(&smaller);
    assert_eq!(
        signature.verify(&f.message, &f.ring, &output_commitment(&f)),
        Err(Error::LengthMismatch(12, 11))
    );
}

#[test]
fn an_empty_ring_is_an_index_error() {
    let f = fixture(2, 28);
    let signature = signed(&f);
    let empty: Vec<ReducedTxOut> = Vec::new();
    // the responses are counted first
    assert_eq!(
        signature.verify(&f.message, &empty, &output_commitment(&f)),
        Err(Error::LengthMismatch(0, 6))
    );
    let mut bare = signature.clone();
    bare.responses.clear();
    assert_eq!(
        bare.verify(&f.message, &empty, &output_commitment(&f)),
        Err(Error::IndexOutOfBounds)
    );
    let mut p = params(&f, false);
    p.ring_size = 0;
    p.real_index = 0;
    let mut rng = SeededRng(5);
    assert_eq!(RingMLSAG::sign(&empty, &p, &mut rng).err(), Some(Error::IndexOutOfBounds));
}

#[test]
fn responses_of_the_wrong_length_are_a_length_error() {
    let f = fixture(3, 29);
    let signature = signed(&f);
    let mut short = signature.clone();
    short.responses.pop();
    assert_eq!(
        short.verify(&f.message, &f.ring, &output_commitment(&f)),
        Err(Error::LengthMismatch(8, 7))
    );
    let mut long = signature.clone();
    long.responses.push(CurveScalar::zero());
    assert_eq!(
        long.verify(&f.message, &f.ring, &output_commitment(&f)),
        Err(Error::LengthMismatch(8, 9))
    );
    // a signature for a ring of four against a ring of three
    let mut ring = f.ring.clone();
    ring.pop();
    assert_eq!(
        signature.verify(&f.message, &ring, &output_commitment(&f)),
        Err(Error::LengthMismatch(6, 8))
    );
}

#[test]
fn a_ring_size_that_is_not_the_rings_is_a_length_error() {
    let f = fixture(3, 30);
    let mut p = params(&f, false);
    p.ring_size = 3;
    let mut rng = SeededRng(5);
    assert_eq!(
        RingMLSAG::sign(&f.ring, &p, &mut rng).err(),
        Some(Error::LengthMismatch(3, 4))
    );
    p.ring_size = 12;
    assert_eq!(
        RingMLSAG::sign(&f.ring, &p, &mut rng).err(),
        Some(Error::LengthMismatch(12, 11))
    );
}

#[test]
fn a_ring_that_does_not_decompress_is_refused() {
    let mut f = fixture(3, 31);
    let victim = (f.real_index + 1) % 4;
    f.ring[victim].commitment = CompressedCommitment { point: [0xff; 32] };
    let mut rng = SeededRng(5);
    assert_eq!(
        RingMLSAG::sign(&f.ring, &params(&f, false), &mut rng).err(),
        Some(Error::InvalidKeyImage)
    );
    assert_eq!(f.ring.index(victim).err(), Some(Error::InvalidKeyImage));
    assert_eq!(f.ring.index(4).err(), Some(Error::IndexOutOfBounds));
    assert_eq!(f.ring.size(), 4);
}

#[test]
fn value_is_conserved_or_signing_fails() {
    let f = fixture(4, 32);
    let mut rng = SeededRng(5);
    // matching values: the check passes
    assert!(RingMLSAG::sign(&f.ring, &params(&f, true), &mut rng).is_ok());
    // another value than that of the real input
    let mut p = params(&f, true);
    p.value = f.value.wrapping_add(1);
    assert_eq!(
        RingMLSAG::sign(&f.ring, &p, &mut rng).err(),
        Some(Error::ValueNotConserved)
    );
    // another blinding than that of the real input
    let other = CurveScalar::from(3u64);
    let mut p = params(&f, true);
    p.blinding = &other;
    assert_eq!(
        RingMLSAG::sign(&f.ring, &p, &mut rng).err(),
        Some(Error::ValueNotConserved)
    );
    // without the check a signature comes out, and does not verify
    let mut p = params(&f, false);
    p.value = f.value.wrapping_add(1);
    let signature = RingMLSAG::sign(&f.ring, &p, &mut rng).unwrap();
    let claimed = CompressedCommitment::new(p.value, f.pseudo_output_blinding, &f.generator);
    assert_eq!(
        signature.verify(&f.message, &f.ring, &claimed),
        Err(Error::InvalidSignature)
    );
}

#[test]
fn a_wrong_private_key_signs_what_does_not_verify() {
    let f = fixture(4, 33);
    let stranger = RistrettoPrivate::from_scalar(CurveScalar::from(77u64));
    let mut p = params(&f, false);
    p.onetime_private_key = &stranger;
    let mut rng = SeededRng(5);
    let signature = RingMLSAG::sign(&f.ring, &p, &mut rng).unwrap();
    assert_eq!(
        signature.verify(&f.message, &f.ring, &output_commitment(&f)),
        Err(Error::InvalidSignature)
    );
}

#[test]
fn the_real_index_leaves_no_trace_in_the_shape() {
    // a ring in which two members are ours
    let mut f = fixture(4, 34);
    let second_key = RistrettoPrivate::from_scalar(CurveScalar::from(4242u64));
    let second_blinding = CurveScalar::from(17u64);
    let second_index = (f.real_index + 2) % 5;
    f.ring[second_index] = ReducedTxOut {
        public_key: f.ring[second_index].public_key,
        target_key: CompressedRistrettoPublic::from(&RistrettoPublic::from(
            &second_key,
        )),
        commitment: CompressedCommitment::from(&Commitment::new(
            f.value,
            second_blinding,
            &f.generator,
        )),
    };
    let first = RingMLSAG::sign(&f.ring, &params(&f, true), &mut SeededRng(8)).unwrap();
    let mut p = params(&f, true);
    p.real_index = second_index;
    p.onetime_private_key = &second_key;
    p.blinding = &second_blinding;
    let second = RingMLSAG::sign(&f.ring, &p, &mut SeededRng(8)).unwrap();
    assert_eq!(first.verify(&f.message, &f.ring, &output_commitment(&f)), Ok(()));
    assert_eq!(second.verify(&f.message, &f.ring, &output_commitment(&f)), Ok(()));
    assert_ne!(first.key_image, second.key_image);
    assert_eq!(first.responses.len(), second.responses.len());
    assert_eq!(first.key_image, KeyImage::from(&f.onetime_private_key));
    assert_eq!(second.key_image, KeyImage::from(&second_key));
}

#[test]
fn the_same_nonces_give_the_same_signature() {
    let f = fixture(3, 35);
    let alpha_0 = CurveScalar::from(11u64);
    let alpha_1 = CurveScalar::from(12u64);
    let decoys: Vec<CurveScalar> = (0..8).map(|i| CurveScalar::from(100 + i)).collect();
    let first =
        RingMLSAG::sign_with(&f.ring, &params(&f, true), alpha_0, alpha_1, decoys.clone())
            .unwrap();
    let second =
        RingMLSAG::sign_with(&f.ring, &params(&f, true), alpha_0, alpha_1, decoys.clone())
            .unwrap();
    assert_eq!(first, second);
    assert_eq!(first.verify(&f.message, &f.ring, &output_commitment(&f)), Ok(()));
    // the decoy responses pass into the signature, but for the real position
    for i in 0..4 {
        if i != f.real_index {
            assert_eq!(first.responses[2 * i], decoys[2 * i]);
            assert_eq!(first.responses[2 * i + 1], decoys[2 * i + 1]);
        } else {
            assert_ne!(first.responses[2 * i], decoys[2 * i]);
            assert_ne!(first.responses[2 * i + 1], decoys[2 * i + 1]);
        }
    }
    // another nonce, another signature, which verifies as well
    let third = RingMLSAG::sign_with(
        &f.ring,
        &params(&f, true),
        CurveScalar::from(13u64),
        alpha_1,
        decoys.clone(),
    )
    .unwrap();
    assert_ne!(first, third);
    assert_eq!(third.verify(&f.message, &f.ring, &output_commitment(&f)), Ok(()));
    // too few decoys
    assert_eq!(
        RingMLSAG::sign_with(&f.ring, &params(&f, true), alpha_0, alpha_1, decoys[..7].to_vec())
            .err(),
        Some(Error::LengthMismatch(8, 7))
    );
}

#[test]
fn a_ring_of_one_closes_on_itself() {
    let f = fixture(0, 36);
    let alpha_0 = CurveScalar::from(11u64);
    let alpha_1 = CurveScalar::from(12u64);
    let decoys = vec![CurveScalar::zero(), CurveScalar::zero()];
    let signature =
        RingMLSAG::sign_with(&f.ring, &params(&f, true), alpha_0, alpha_1, decoys).unwrap();
    // c_0 = Hn(m | I | alpha_0 G | alpha_0 Hp(P) | alpha_1 G)
    let public = RistrettoPublic::from(&f.onetime_private_key);
    let hashed = ring_mlsag::onetime_keys::hash_to_point(&public);
    let g = Point::basepoint();
    let expected = challenge(
        &f.message,
        &signature.key_image,
        &g.mul(&alpha_0),
        &hashed.mul(&alpha_0),
        &g.mul(&alpha_1),
    );
    assert_eq!(signature.c_zero, expected);
    // r_0 = alpha_0 - c_0 x, r_1 = alpha_1 - c_0 (b' - b)
    let x = f.onetime_private_key.scalar();
    assert_eq!(signature.responses[0], alpha_0.sub(&expected.mul(x)));
    let z = f.pseudo_output_blinding.sub(&f.blinding);
    assert_eq!(signature.responses[1], alpha_1.sub(&expected.mul(&z)));
    assert_eq!(signature.verify(&f.message, &f.ring, &output_commitment(&f)), Ok(()));
}

fn decompressed(f: &Fixture) -> Vec<(RistrettoPublic, Commitment)> {
    (0..f.ring.len()).map(|i| f.ring.index(i).unwrap()).collect()
}

#[test]
fn the_context_walks_the_ring_from_the_real_index() {
    let f = fixture(3, 37);
    let ring = decompressed(&f);
    let p = params(&f, true);
    let mut rng = SeededRng(3);
    let zeros = |n: usize| vec![CurveScalar::zero(); n];
    let mut ctx = MlsagSignCtx::init(&p, &mut rng, zeros(4), zeros(8)).unwrap();
    assert!(ctx.responses().is_none());
    // finalising before the ring is walked fails
    assert_eq!(ctx.finalise(&p).err(), Some(Error::IndexOutOfBounds));
    // the walk starts at the real index
    let wrong = (f.real_index + 1) % 4;
    assert_eq!(ctx.update(&p, wrong, &ring[wrong]), Err(Error::UnexpectedTxout));
    for n in 0..4 {
        let i = (f.real_index + n) % 4;
        // a position whose turn it is not
        let other = (i + 2) % 4;
        assert_eq!(ctx.update(&p, other, &ring[other]), Err(Error::UnexpectedTxout));
        assert_eq!(ctx.update(&p, i, &ring[i]), Ok(()));
    }
    // the ring is walked: no further round
    assert_eq!(
        ctx.update(&p, f.real_index, &ring[f.real_index]),
        Err(Error::UnexpectedTxout)
    );
    let (key_image, c_zero) = ctx.finalise(&p).unwrap();
    let responses = ctx.responses().unwrap().to_vec();
    assert_eq!(responses.len(), 8);
    let signature = RingMLSAG { c_zero, responses, key_image };
    assert_eq!(signature.verify(&f.message, &f.ring, &output_commitment(&f)), Ok(()));
    // erasing the context leaves nothing of the responses
    ctx.erase();
    assert_eq!(ctx.responses().unwrap().to_vec(), vec![CurveScalar::zero(); 8]);
}

#[test]
fn the_context_refuses_buffers_that_do_not_fit() {
    let f = fixture(3, 38);
    let p = params(&f, true);
    let mut rng = SeededRng(3);
    let zeros = |n: usize| vec![CurveScalar::zero(); n];
    assert_eq!(
        MlsagSignCtx::init(&p, &mut rng, zeros(3), zeros(8)).err(),
        Some(Error::LengthMismatch(4, 3))
    );
    assert_eq!(
        MlsagSignCtx::init(&p, &mut rng, zeros(4), zeros(7)).err(),
        Some(Error::LengthMismatch(8, 7))
    );
    let mut outside = params(&f, true);
    outside.real_index = 4;
    assert_eq!(
        MlsagSignCtx::init(&outside, &mut rng, zeros(4), zeros(8)).err(),
        Some(Error::IndexOutOfBounds)
    );
    assert_eq!(p.check_shape(4, 8), Ok(()));
    assert_eq!(p.check_shape(4, 9), Err(Error::LengthMismatch(8, 9)));
    let mut large = params(&f, true);
    large.ring_size = 12;
    assert_eq!(
        MlsagSignCtx::init_with(
            &large,
            CurveScalar::zero(),
            CurveScalar::zero(),
            zeros(12),
            zeros(24)
        )
        .err(),
        Some(Error::LengthMismatch(12, 11))
    );
}

#[test]
fn signing_into_buffers_erases_them_on_failure() {
    let f = fixture(3, 39);
    let ring = decompressed(&f);
    let mut p = params(&f, true);
    p.value = f.value.wrapping_add(1);
    let mut challenges = vec![CurveScalar::from(9u64); 4];
    let mut responses = vec![CurveScalar::from(9u64); 8];
    let mut rng = SeededRng(3);
    assert_eq!(
        p.sign(&ring, &mut rng, &mut challenges, &mut responses),
        Err(Error::ValueNotConserved)
    );
    assert!(challenges.iter().all(|c| *c == CurveScalar::zero()));
    assert!(responses.iter().all(|r| *r == CurveScalar::zero()));
    // buffers that do not fit
    let mut short = vec![CurveScalar::from(9u64); 3];
    assert_eq!(
        params(&f, true).sign(&ring, &mut rng, &mut short, &mut responses),
        Err(Error::LengthMismatch(4, 3))
    );
    assert_eq!(short, vec![CurveScalar::zero(); 3]);
    // and on success they hold the signature
    let mut challenges = vec![CurveScalar::zero(); 4];
    let mut responses = vec![CurveScalar::zero(); 8];
    let key_image = params(&f, true)
        .sign_with(
            &ring,
            CurveScalar::from(1u64),
            CurveScalar::from(2u64),
            &mut challenges,
            &mut responses,
        )
        .unwrap();
    let signature = RingMLSAG { c_zero: challenges[0], responses, key_image };
    assert_eq!(signature.verify(&f.message, &f.ring, &output_commitment(&f)), Ok(()));
}

#[test]
fn a_refusal_draws_nothing() {
    let f = fixture(3, 40);
    let p = params(&f, true);
    let zeros = |n: usize| vec![CurveScalar::zero(); n];
    // the context: buffers that do not fit, a real index outside the ring
    let mut rng = SeededRng(77);
    assert!(MlsagSignCtx::init(&p, &mut rng, zeros(3), zeros(8)).is_err());
    assert_eq!(rng.0, 77);
    assert!(MlsagSignCtx::init(&p, &mut rng, zeros(4), zeros(9)).is_err());
    assert_eq!(rng.0, 77);
    let mut outside = params(&f, true);
    outside.real_index = 4;
    assert!(MlsagSignCtx::init(&outside, &mut rng, zeros(4), zeros(8)).is_err());
    assert_eq!(rng.0, 77);
    // signing: a real index outside the ring, a ring of twelve, a member that
    // is no point
    assert!(RingMLSAG::sign(&f.ring, &outside, &mut rng).is_err());
    assert_eq!(rng.0, 77);
    let large = fixture(11, 40);
    assert!(RingMLSAG::sign(&large.ring, &params(&large, true), &mut rng).is_err());
    assert_eq!(rng.0, 77);
    let mut broken = fixture(3, 40);
    broken.ring[0].target_key = CompressedRistrettoPublic { bytes: [0xff; 32] };
    assert!(RingMLSAG::sign(&broken.ring, &params(&broken, true), &mut rng).is_err());
    assert_eq!(rng.0, 77);
    let ring = decompressed(&f);
    let mut challenges = zeros(3);
    let mut responses = zeros(8);
    assert!(p.sign(&ring, &mut rng, &mut challenges, &mut responses).is_err());
    assert_eq!(rng.0, 77);
    // where nothing is refused the generator is drawn from
    assert!(MlsagSignCtx::init(&p, &mut rng, zeros(4), zeros(8)).is_ok());
    assert_ne!(rng.0, 77);
}

#[test]
fn responses_come_only_after_the_ring_is_closed() {
    let f = fixture(1, 41);
    let ring = decompressed(&f);
    let p = params(&f, true);
    let mut rng = SeededRng(3);
    let zeros = |n: usize| vec![CurveScalar::zero(); n];
    let mut ctx = MlsagSignCtx::init(&p, &mut rng, zeros(2), zeros(4)).unwrap();
    assert!(ctx.responses().is_none());
    let first = f.real_index;
    assert_eq!(ctx.update(&p, first, &ring[first]), Ok(()));
    assert!(ctx.responses().is_none());
    assert_eq!(ctx.finalise(&p).err(), Some(Error::IndexOutOfBounds));
    assert!(ctx.responses().is_none());
    let second = (first + 1) % 2;
    assert_eq!(ctx.update(&p, second, &ring[second]), Ok(()));
    assert!(ctx.responses().is_none());
    assert!(ctx.finalise(&p).is_ok());
    assert_eq!(ctx.responses().unwrap().len(), 4);
}
