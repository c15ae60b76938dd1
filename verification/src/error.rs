//! The ways in which signing and verification fail.
use vstd::prelude::*;

verus! {

/// A failure of the ring signature engine.
#[derive(Clone, Copy, Debug, PartialEq, Eq, Structural)]
pub enum Error {
    /// A buffer or a ring has the wrong length: the length that was required,
    /// then the length that was found.
    LengthMismatch(usize, usize),
    /// An index lies outside the ring.
    IndexOutOfBounds,
    /// Thirty-two bytes that do not encode a group element.
    InvalidCurvePoint,
    /// Thirty-two bytes that are not the canonical encoding of a scalar.
    InvalidCurveScalar,
    /// The chain of challenges does not close: the signature is not valid.
    InvalidSignature,
    /// A key image, or a ring member, that does not decompress.
    InvalidKeyImage,
    /// The output commitment and the real input commit to different values.
    ValueNotConserved,
    /// A ring member was handed to the signing context out of turn.
    UnexpectedTxout,
}

} // verus!
