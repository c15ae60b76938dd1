//! Rings: the candidate outputs among which the real input hides.
use crate::commitment::{Commitment, CompressedCommitment};
use crate::error::Error;
use crate::ristretto::{is_point, point_log};
use crate::ristretto_keys::{CompressedRistrettoPublic, RistrettoPublic};
use vstd::prelude::*;

verus! {

/// The model of a ring member: the logarithms of its one-time public key and
/// of its commitment.
pub struct RingEntry {
    pub target: nat,
    pub commitment: nat,
}

/// A ring member in its wire form.
#[derive(Clone, Copy, Debug)]
pub struct ReducedTxOut {
    /// The transaction public key of the output.
    pub public_key: CompressedRistrettoPublic,
    /// The one-time public key of the output.
    pub target_key: CompressedRistrettoPublic,
    /// The commitment to the amount of the output.
    pub commitment: CompressedCommitment,
}

impl ReducedTxOut {
    /// The member as group elements, where both its one-time public key and
    /// its commitment decompress.
    pub open spec fn spec_entry(self) -> Option<RingEntry> {
        if is_point(self.target_key@) && is_point(self.commitment@) {
            Some(
                RingEntry {
                    target: point_log(self.target_key@),
                    commitment: point_log(self.commitment@),
                },
            )
        } else {
            None
        }
    }
}

/// A ring that hands out its members as group elements.
pub trait Ring {
    /// The number of members.
    spec fn spec_size(&self) -> nat;

    /// The member at `index` as group elements; `None` where it does not
    /// decompress.
    spec fn spec_entry(&self, index: int) -> Option<RingEntry>;

    /// The number of members.
    fn size(&self) -> (n: usize)
        ensures
            n == self.spec_size(),
    ;

    /// The member at `index`, decompressed. An index outside the ring is an
    /// `IndexOutOfBounds`; a member that does not decompress is an
    /// `InvalidKeyImage`.
    fn index(&self, index: usize) -> (r: Result<(RistrettoPublic, Commitment), Error>)
        ensures
            index >= self.spec_size() ==> r == Err::<(RistrettoPublic, Commitment), Error>(
                Error::IndexOutOfBounds,
            ),
            index < self.spec_size() && self.spec_entry(index as int) is None ==> r == Err::<
                (RistrettoPublic, Commitment),
                Error,
            >(Error::InvalidKeyImage),
            index < self.spec_size() && self.spec_entry(index as int) is Some ==> r is Ok
                && r.unwrap().0@ == self.spec_entry(index as int).unwrap().target
                && r.unwrap().1@ == self.spec_entry(index as int).unwrap().commitment,
    ;
}

impl Ring for Vec<ReducedTxOut> {
    open spec fn spec_size(&self) -> nat {
        self@.len()
    }

    open spec fn spec_entry(&self, index: int) -> Option<RingEntry> {
        self@[index].spec_entry()
    }

    fn size(&self) -> (n: usize) {
        self.len()
    }

    fn index(&self, index: usize) -> (r: Result<(RistrettoPublic, Commitment), Error>) {
        if index >= self.len() {
            return Err(Error::IndexOutOfBounds);
        }
        let member = &self[index];
        let target = match RistrettoPublic::try_from(&member.target_key.bytes) {
            Ok(key) => key,
            Err(_) => {
                return Err(Error::InvalidKeyImage);
            },
        };
        let commitment = match Commitment::try_from(&member.commitment) {
            Ok(c) => c,
            Err(_) => {
                return Err(Error::InvalidKeyImage);
            },
        };
        Ok((target, commitment))
    }
}

impl Ring for Vec<(RistrettoPublic, Commitment)> {
    open spec fn spec_size(&self) -> nat {
        self@.len()
    }

    open spec fn spec_entry(&self, index: int) -> Option<RingEntry> {
        Some(RingEntry { target: self@[index].0@, commitment: self@[index].1@ })
    }

    fn size(&self) -> (n: usize) {
        self.len()
    }

    fn index(&self, index: usize) -> (r: Result<(RistrettoPublic, Commitment), Error>) {
        if index >= self.len() {
            return Err(Error::IndexOutOfBounds);
        }
        Ok(self[index])
    }
}

/// The members of `ring`, each as group elements where it decompresses.
pub open spec fn ring_members<R: Ring>(ring: &R) -> Seq<Option<RingEntry>> {
    Seq::new(ring.spec_size(), |i: int| ring.spec_entry(i))
}

/// Every one of `members` decompresses.
pub open spec fn members_decompress(members: Seq<Option<RingEntry>>) -> bool {
    forall|i: int| 0 <= i < members.len() ==> (#[trigger] members[i]) is Some
}

/// The `members`, which decompress, as group elements.
pub open spec fn member_entries(members: Seq<Option<RingEntry>>) -> Seq<RingEntry> {
    Seq::new(members.len(), |i: int| members[i].unwrap())
}

/// A ring decompresses where its members do, and its entries are theirs.
pub proof fn lemma_ring_members<R: Ring>(ring: &R)
    ensures
        ring_members(ring).len() == ring.spec_size(),
        members_decompress(ring_members(ring)) == ring_decompresses(ring),
        member_entries(ring_members(ring)) == ring_entries(ring),
{
    let members = ring_members(ring);
    if ring_decompresses(ring) {
        assert forall|i: int| 0 <= i < members.len() implies (#[trigger] members[i]) is Some by {
            assert(ring.spec_entry(i) is Some);
        }
    }
    if members_decompress(members) {
        assert forall|i: int| 0 <= i < ring.spec_size() implies (#[trigger] ring.spec_entry(
            i,
        )) is Some by {
            assert(members[i] is Some);
        }
    }
    assert(member_entries(members) =~= ring_entries(ring));
}

/// Every member of `ring` decompresses.
pub open spec fn ring_decompresses<R: Ring>(ring: &R) -> bool {
    forall|i: int| 0 <= i < ring.spec_size() ==> (#[trigger] ring.spec_entry(i)) is Some
}

/// The members of a ring that decompresses, as group elements.
pub open spec fn ring_entries<R: Ring>(ring: &R) -> Seq<RingEntry> {
    Seq::new(ring.spec_size(), |i: int| ring.spec_entry(i).unwrap())
}

/// Checks that every member of `ring` decompresses.
pub fn check_ring<R: Ring>(ring: &R) -> (r: Result<(), Error>)
    ensures
        r is Ok <==> ring_decompresses(ring),
        r is Err ==> r == Err::<(), Error>(Error::InvalidKeyImage),
{
    let n = ring.size();
    let mut i: usize = 0;
    while i < n
        invariant
            i <= n,
            n == ring.spec_size(),
            forall|k: int| 0 <= k < i ==> (#[trigger] ring.spec_entry(k)) is Some,
        decreases n - i,
    {
        match ring.index(i) {
            Ok(_) => {},
            Err(_) => {
                assert(ring.spec_entry(i as int) is None);
                return Err(Error::InvalidKeyImage);
            },
        }
        i += 1;
    }
    Ok(())
}

} // verus!
