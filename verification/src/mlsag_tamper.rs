//! Tamper sensitivity, as far as it can be proved: a signature that is changed
//! in its responses or its key image, or that is held against another
//! message, ring or output commitment, passes verification only where the
//! step of the challenge chain gives one challenge for two different inputs.
//!
//! Whether the step ever does so rests on the hash behind the challenges, of
//! which nothing is known here but that it is a function. A change of the
//! first challenge `c_zero` is not covered: two walks from different first
//! challenges may each close without any step meeting another.
use crate::error::Error;
use crate::mlsag::RingMLSAG;
use crate::mlsag_spec::{chain_closes, spec_step, verify_chain};
use crate::ring::{member_entries, ring_members, Ring, RingEntry};
use crate::ristretto::{is_point, point_log};
use vstd::prelude::*;

verus! {

/// What one step of the challenge chain is computed from.
pub struct StepInput {
    /// The message that is signed.
    pub message: Seq<u8>,
    /// The key image in its wire form.
    pub key_image: Seq<u8>,
    /// The logarithm of the key image.
    pub image: nat,
    /// The logarithm of the output commitment.
    pub output: nat,
    /// The ring member at the position.
    pub entry: RingEntry,
    /// The first response of the position.
    pub r0: nat,
    /// The second response of the position.
    pub r1: nat,
    /// The challenge that enters the position.
    pub c: nat,
}

impl StepInput {
    /// The challenge that the step hands to the next position.
    pub open spec fn step(self) -> nat {
        spec_step(
            self.message,
            self.key_image,
            self.image,
            self.output,
            self.entry,
            self.r0,
            self.r1,
            self.c,
        )
    }
}

/// What one walk of verification is made over.
pub struct Walk {
    /// The message that is signed.
    pub message: Seq<u8>,
    /// The key image in its wire form.
    pub key_image: Seq<u8>,
    /// The logarithm of the key image.
    pub image: nat,
    /// The logarithm of the output commitment.
    pub output: nat,
    /// The members of the ring.
    pub ring: Seq<RingEntry>,
    /// The responses, two for each member.
    pub responses: Seq<nat>,
    /// The challenge that enters position zero.
    pub c_zero: nat,
}

impl Walk {
    /// The ring has a member, and there are two responses for each.
    pub open spec fn wf(self) -> bool {
        self.ring.len() > 0 && self.responses.len() == 2 * self.ring.len()
    }

    /// The challenge that enters position `i`.
    pub open spec fn chain(self, i: nat) -> nat {
        verify_chain(
            self.message,
            self.key_image,
            self.image,
            self.output,
            self.ring,
            self.responses,
            self.c_zero,
            i,
        )
    }

    /// The walk comes back to the challenge that it started from.
    pub open spec fn closes(self) -> bool {
        chain_closes(
            self.message,
            self.key_image,
            self.image,
            self.output,
            self.ring,
            self.responses,
            self.c_zero,
        )
    }

    /// What the step at position `j` is computed from.
    pub open spec fn step_input(self, j: int) -> StepInput {
        StepInput {
            message: self.message,
            key_image: self.key_image,
            image: self.image,
            output: self.output,
            entry: self.ring[j],
            r0: self.responses[2 * j],
            r1: self.responses[2 * j + 1],
            c: self.chain(j as nat),
        }
    }

    /// The two walks differ in something other than their first challenge: in
    /// the message, the key image, the output commitment, a ring member or a
    /// response.
    pub open spec fn differs_from(self, other: Walk) -> bool {
        ||| self.message != other.message
        ||| self.key_image != other.key_image
        ||| self.image != other.image
        ||| self.output != other.output
        ||| exists|k: int| 0 <= k < self.ring.len() && #[trigger] self.ring[k] != other.ring[k]
        ||| exists|k: int|
            0 <= k < self.responses.len() && #[trigger] self.responses[k] != other.responses[k]
    }
}

/// At some position the two walks make one challenge out of different inputs.
pub open spec fn step_collides(a: Walk, b: Walk) -> bool {
    exists|j: int|
        0 <= j < a.ring.len() && #[trigger] a.step_input(j) != b.step_input(j) && a.step_input(
            j,
        ).step() == b.step_input(j).step()
}

/// Two walks whose inputs differ at position `k`, and which hand the same
/// challenge on after position `j`, make one challenge out of different inputs
/// at some position from `k` to `j`.
proof fn lemma_walks_meet(a: Walk, b: Walk, k: int, j: int)
    requires
        a.wf(),
        b.wf(),
        a.ring.len() == b.ring.len(),
        0 <= k <= j < a.ring.len(),
        a.step_input(k) != b.step_input(k),
        a.chain((j + 1) as nat) == b.chain((j + 1) as nat),
    ensures
        step_collides(a, b),
    decreases j,
{
    assert(a.chain((j + 1) as nat) == a.step_input(j).step());
    assert(b.chain((j + 1) as nat) == b.step_input(j).step());
    if a.step_input(j) != b.step_input(j) {
    } else {
        assert(a.step_input(j).c == b.step_input(j).c);
        lemma_walks_meet(a, b, k, j - 1);
    }
}

/// Two walks over rings of one size that start from the same challenge, that
/// both close, and that differ in anything else, make one challenge out of
/// different inputs at some position.
pub proof fn lemma_closing_walks_collide(a: Walk, b: Walk)
    requires
        a.wf(),
        b.wf(),
        a.ring.len() == b.ring.len(),
        a.c_zero == b.c_zero,
        a.closes(),
        b.closes(),
        a.differs_from(b),
    ensures
        step_collides(a, b),
{
    let n = a.ring.len() as int;
    let k: int = if a.message != b.message || a.key_image != b.key_image || a.image != b.image
        || a.output != b.output {
        0
    } else if exists|k: int| 0 <= k < a.ring.len() && #[trigger] a.ring[k] != b.ring[k] {
        choose|k: int| 0 <= k < a.ring.len() && #[trigger] a.ring[k] != b.ring[k]
    } else {
        let i = choose|i: int|
            0 <= i < a.responses.len() && #[trigger] a.responses[i] != b.responses[i];
        i / 2
    };
    assert(a.step_input(k) != b.step_input(k)) by {
        if a.message != b.message || a.key_image != b.key_image || a.image != b.image || a.output
            != b.output {
        } else if exists|k: int| 0 <= k < a.ring.len() && #[trigger] a.ring[k] != b.ring[k] {
            assert(a.step_input(k).entry != b.step_input(k).entry);
        } else {
            let i = choose|i: int|
                0 <= i < a.responses.len() && #[trigger] a.responses[i] != b.responses[i];
            assert(i == 2 * k || i == 2 * k + 1);
            assert(a.step_input(k).r0 != b.step_input(k).r0 || a.step_input(k).r1
                != b.step_input(k).r1);
        }
    }
    lemma_walks_meet(a, b, k, n - 1);
}

/// Two different encodings of group elements are encodings of different
/// elements.
pub proof fn lemma_different_encodings(first: Seq<u8>, second: Seq<u8>)
    requires
        is_point(first),
        is_point(second),
        first != second,
    ensures
        point_log(first) != point_log(second),
{
}

/// The walk that verification of `signature` makes over the members of a
/// ring.
pub open spec fn walk_over(
    signature: RingMLSAG,
    message: Seq<u8>,
    members: Seq<Option<RingEntry>>,
    output_commitment: Seq<u8>,
) -> Walk {
    Walk {
        message,
        key_image: signature.key_image@,
        image: point_log(signature.key_image@),
        output: point_log(output_commitment),
        ring: member_entries(members),
        responses: signature@.responses,
        c_zero: signature@.c_zero,
    }
}

/// The walk that verification of `signature` makes over `ring`.
pub open spec fn walk_of<R: Ring>(
    signature: RingMLSAG,
    message: Seq<u8>,
    ring: &R,
    output_commitment: Seq<u8>,
) -> Walk {
    walk_over(signature, message, ring_members(ring), output_commitment)
}

/// Tamper sensitivity over the members of rings, up to a collision of the
/// step: where two signatures with the same first challenge both pass
/// verification over as many members, though their walks differ, there the
/// step of the challenge chain gives one challenge for two different inputs.
pub proof fn lemma_tampering_members(
    signature: RingMLSAG,
    message: Seq<u8>,
    members: Seq<Option<RingEntry>>,
    output_commitment: Seq<u8>,
    tampered: RingMLSAG,
    tampered_message: Seq<u8>,
    tampered_members: Seq<Option<RingEntry>>,
    tampered_commitment: Seq<u8>,
)
    requires
        signature.spec_verify_members(message, members, output_commitment) == Ok::<(), Error>(
            (),
        ),
        tampered.spec_verify_members(tampered_message, tampered_members, tampered_commitment)
            == Ok::<(), Error>(()),
        members.len() == tampered_members.len(),
        signature@.c_zero == tampered@.c_zero,
        walk_over(signature, message, members, output_commitment).differs_from(
            walk_over(tampered, tampered_message, tampered_members, tampered_commitment),
        ),
    ensures
        step_collides(
            walk_over(signature, message, members, output_commitment),
            walk_over(tampered, tampered_message, tampered_members, tampered_commitment),
        ),
{
    lemma_closing_walks_collide(
        walk_over(signature, message, members, output_commitment),
        walk_over(tampered, tampered_message, tampered_members, tampered_commitment),
    );
}

/// Tamper sensitivity, up to a collision of the step: where a signature
/// passes verification, and a second one with the same first challenge passes
/// it too, over a ring of the same size, though it differs from the first in a
/// response or in the key image, or is held against another message, another
/// ring member or another output commitment, there the step of the challenge
/// chain gives one challenge for two different inputs.
pub proof fn lemma_tampering_needs_a_collision<R: Ring, S: Ring>(
    signature: RingMLSAG,
    message: Seq<u8>,
    ring: &R,
    output_commitment: Seq<u8>,
    tampered: RingMLSAG,
    tampered_message: Seq<u8>,
    tampered_ring: &S,
    tampered_commitment: Seq<u8>,
)
    requires
        signature.spec_verify(message, ring, output_commitment) == Ok::<(), Error>(()),
        tampered.spec_verify(tampered_message, tampered_ring, tampered_commitment) == Ok::<
            (),
            Error,
        >(()),
        ring.spec_size() == tampered_ring.spec_size(),
        signature@.c_zero == tampered@.c_zero,
        walk_of(signature, message, ring, output_commitment).differs_from(
            walk_of(tampered, tampered_message, tampered_ring, tampered_commitment),
        ),
    ensures
        step_collides(
            walk_of(signature, message, ring, output_commitment),
            walk_of(tampered, tampered_message, tampered_ring, tampered_commitment),
        ),
{
    lemma_tampering_members(
        signature,
        message,
        ring_members(ring),
        output_commitment,
        tampered,
        tampered_message,
        ring_members(tampered_ring),
        tampered_commitment,
    );
}

/// A signature that verifies against two output commitments with different
/// encodings, over the same message and the same members, does so only where
/// the step of the challenge chain gives one challenge for two different
/// inputs.
pub proof fn lemma_another_commitment_needs_a_collision(
    signature: RingMLSAG,
    message: Seq<u8>,
    members: Seq<Option<RingEntry>>,
    output_commitment: Seq<u8>,
    other_commitment: Seq<u8>,
)
    requires
        signature.spec_verify_members(message, members, output_commitment) == Ok::<(), Error>(
            (),
        ),
        signature.spec_verify_members(message, members, other_commitment) == Ok::<(), Error>(()),
        output_commitment != other_commitment,
    ensures
        step_collides(
            walk_over(signature, message, members, output_commitment),
            walk_over(signature, message, members, other_commitment),
        ),
{
    lemma_different_encodings(output_commitment, other_commitment);
    lemma_tampering_members(
        signature,
        message,
        members,
        output_commitment,
        signature,
        message,
        members,
        other_commitment,
    );
}

} // verus!
