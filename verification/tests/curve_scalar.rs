use curve25519_dalek::scalar::Scalar;
use ring_mlsag::curve_scalar::{zeroize_all, CurveScalar};

/// The bytes of the group order plus two.
const L_PLUS_TWO: [u8; 32] = [
    0xef, 0xd3, 0xf5, 0x5c, 0x1a, 0x63, 0x12, 0x58, 0xd6, 0x9c, 0xf7, 0xa2, 0xde, 0xf9, 0xde, 0x14,
    0x00, 0x00, 0x00, 0x00, 0x00, 0x00, 0x00, 0x00, 0x00, 0x00, 0x00, 0x00, 0x00, 0x00, 0x00, 0x10,
];

fn scalar_of(s: &CurveScalar) -> Scalar {
    Scalar::from_bytes_mod_order(*s.as_bytes())
}

#[test]
fn test_to_from_bytes() {
    let one = Scalar::ONE;
    let curve_scalar = CurveScalar::from_bytes_mod_order(*one.as_bytes());
    assert_eq!(scalar_of(&curve_scalar), one);
    assert_eq!(curve_scalar.as_bytes(), one.as_bytes());
}

#[test]
fn test_from_bytes_mod_order() {
    // All arithmetic on scalars is done modulo the group order. This number is
    // larger.
    let curve_scalar = CurveScalar::from_bytes_mod_order(L_PLUS_TWO);
    let two: Scalar = Scalar::ONE + Scalar::ONE;

    assert_eq!(scalar_of(&curve_scalar), two);
}

#[test]
fn test_curve_scalar_roundtrip() {
    let five = CurveScalar::from(5u64);
    let bytes = five.to_bytes();
    let result: CurveScalar = CurveScalar::from_bytes(&bytes).unwrap();
    assert_eq!(five, result);
}

#[test]
fn from_u64_has_the_little_endian_bytes_of_the_number() {
    let s = CurveScalar::from(0x0102_0304_0506_0708);
    let mut expected = [0u8; 32];
    expected[..8].copy_from_slice(&[8, 7, 6, 5, 4, 3, 2, 1]);
    assert_eq!(s.to_bytes(), expected);
    assert_eq!(CurveScalar::zero().to_bytes(), [0u8; 32]);
}

#[test]
fn reduction_of_the_largest_input() {
    // 2^256 - 1 modulo the group order
    let s = CurveScalar::from_bytes_mod_order([0xff; 32]);
    assert_eq!(scalar_of(&s), Scalar::from_bytes_mod_order([0xff; 32]));
    assert_ne!(s.to_bytes(), [0xff; 32]);
    // reducing what is reduced changes nothing
    assert_eq!(CurveScalar::from_bytes_mod_order(s.to_bytes()), s);
}

#[test]
fn wide_reduction_agrees_with_the_curve_library() {
    let mut wide = [0u8; 64];
    for (i, b) in wide.iter_mut().enumerate() {
        *b = (i as u8).wrapping_mul(37).wrapping_add(11);
    }
    let s = CurveScalar::from_bytes_mod_order_wide(&wide);
    assert_eq!(scalar_of(&s), Scalar::from_bytes_mod_order_wide(&wide));
}

#[test]
fn arithmetic_is_modular() {
    let a = CurveScalar::from(7u64);
    let b = CurveScalar::from(5u64);
    assert_eq!(a.add(&b), CurveScalar::from(12u64));
    assert_eq!(a.sub(&b), CurveScalar::from(2u64));
    assert_eq!(a.mul(&b), CurveScalar::from(35u64));
    // 5 - 7 is the group order minus two
    let wrapped = b.sub(&a);
    assert_eq!(wrapped.add(&CurveScalar::from(2u64)), CurveScalar::zero());
    let mut order_minus_two = L_PLUS_TWO;
    order_minus_two[0] = 0xeb;
    assert_eq!(wrapped.to_bytes(), order_minus_two);
    // (l - 2) * (l - 2) = 4
    assert_eq!(wrapped.mul(&wrapped), CurveScalar::from(4u64));
}

#[test]
fn arithmetic_agrees_with_the_curve_library() {
    let a = CurveScalar::hash_from_bytes(b"first");
    let b = CurveScalar::hash_from_bytes(b"second");
    assert_eq!(scalar_of(&a.add(&b)), scalar_of(&a) + scalar_of(&b));
    assert_eq!(scalar_of(&a.sub(&b)), scalar_of(&a) - scalar_of(&b));
    assert_eq!(scalar_of(&a.mul(&b)), scalar_of(&a) * scalar_of(&b));
}

#[test]
fn hashing_depends_on_the_data() {
    let a = CurveScalar::hash_from_bytes(b"some data");
    let again = CurveScalar::hash_from_bytes(b"some data");
    let other = CurveScalar::hash_from_bytes(b"some datb");
    assert_eq!(a, again);
    assert_ne!(a, other);
    assert_eq!(scalar_of(&a), Scalar::hash_from_bytes::<blake2::Blake2b512>(b"some data"));
}

#[test]
fn zeroize_leaves_zero() {
    let mut s = CurveScalar::from(99u64);
    s.zeroize();
    assert_eq!(s, CurveScalar::zero());
    let mut all = vec![CurveScalar::from(1u64), CurveScalar::from(2u64)];
    zeroize_all(&mut all);
    assert_eq!(all, vec![CurveScalar::zero(), CurveScalar::zero()]);
}
