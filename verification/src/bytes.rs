//! Helpers on byte strings: appending, comparing and erasing.
use crate::group::le_value;
use vstd::prelude::*;

verus! {

/// `Zeroize::zeroize` of the zeroize crate on an array of thirty-two bytes:
/// every byte is overwritten with zero.
#[verifier::external_body]
pub(crate) fn wipe32(bytes: &mut [u8; 32])
    ensures
        forall|i: int| 0 <= i < 32 ==> final(bytes)@[i] == 0u8,
    opens_invariants none
    no_unwind
{
    zeroize::Zeroize::zeroize(bytes);
}

/// A byte string of zeros encodes the number zero.
pub proof fn lemma_zeros_encode_zero(bytes: Seq<u8>)
    requires
        forall|i: int| 0 <= i < bytes.len() ==> bytes[i] == 0u8,
    ensures
        le_value(bytes) == 0,
    decreases bytes.len(),
{
    if bytes.len() > 0 {
        lemma_zeros_encode_zero(bytes.drop_first());
    }
}

/// Appends `data` to `buffer`.
pub fn append(buffer: &mut Vec<u8>, data: &[u8])
    ensures
        final(buffer)@ == old(buffer)@ + data@,
{
    buffer.extend_from_slice(data);
    assert(buffer@ =~= old(buffer)@ + data@);
}

/// Whether two arrays of thirty-two bytes hold the same bytes.
pub fn equal32(a: &[u8; 32], b: &[u8; 32]) -> (r: bool)
    ensures
        r == (a@ == b@),
{
    let mut i: usize = 0;
    while i < 32
        invariant
            i <= 32,
            forall|j: int| 0 <= j < i ==> a@[j] == b@[j],
        decreases 32 - i,
    {
        if a[i] != b[i] {
            return false;
        }
        i += 1;
    }
    assert(a@ =~= b@);
    true
}

} // verus!
