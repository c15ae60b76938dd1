//! The ring signature as mathematics: the challenge hash, the step of the
//! challenge chain, the rounds of signing, and the chain that verification
//! walks.
//!
//! Scalars and group elements appear here as numbers below the group order
//! (see [`crate::group`]); bytes appear where something is hashed.
use crate::consts::RING_MLSAG_CHALLENGE_DOMAIN_TAG;
use crate::curve_scalar::scalar_hash;
use crate::group::{add_mod, mul_mod, sub_mod};
use crate::onetime_keys::spec_hash_to_point;
use crate::ring::RingEntry;
use crate::ristretto::point_of;
use vstd::prelude::*;

verus! {

/// What is hashed to a challenge: the domain separator, the message, the key
/// image, and the encodings of the three group elements `L0`, `R0` and `L1`.
pub open spec fn challenge_input(
    message: Seq<u8>,
    key_image: Seq<u8>,
    l0: nat,
    r0: nat,
    l1: nat,
) -> Seq<u8> {
    RING_MLSAG_CHALLENGE_DOMAIN_TAG@ + message + key_image + point_of(l0) + point_of(r0)
        + point_of(l1)
}

/// The challenge `Hn(m | I | L0 | R0 | L1)`.
pub open spec fn spec_challenge(
    message: Seq<u8>,
    key_image: Seq<u8>,
    l0: nat,
    r0: nat,
    l1: nat,
) -> nat {
    scalar_hash(challenge_input(message, key_image, l0, r0, l1))
}

/// The challenge that follows a ring position, from the member `entry` at the
/// position, its two responses `r0` and `r1`, and the challenge `c` that
/// entered it:
///
/// `Hn(m | I | r0 * G + c * P | r0 * Hp(P) + c * I | r1 * G + c * (output - C))`
///
/// where `P` and `C` are the member's key and commitment, `image` is the
/// logarithm of the key image `I`, and `output` that of the output commitment.
pub open spec fn spec_step(
    message: Seq<u8>,
    key_image: Seq<u8>,
    image: nat,
    output: nat,
    entry: RingEntry,
    r0: nat,
    r1: nat,
    c: nat,
) -> nat {
    let l0 = add_mod(mul_mod(r0, 1), mul_mod(c, entry.target));
    let rr = add_mod(mul_mod(r0, spec_hash_to_point(entry.target)), mul_mod(c, image));
    let l1 = add_mod(mul_mod(r1, 1), mul_mod(c, sub_mod(output, entry.commitment)));
    spec_challenge(message, key_image, l0, rr, l1)
}

/// The challenge that follows the real position while signing, from the two
/// nonces: `Hn(m | I | alpha_0 * G | alpha_0 * Hp(P) | alpha_1 * G)`.
pub open spec fn spec_real_step(
    message: Seq<u8>,
    key_image: Seq<u8>,
    target: nat,
    alpha_0: nat,
    alpha_1: nat,
) -> nat {
    let l0 = mul_mod(alpha_0, 1);
    let rr = mul_mod(alpha_0, spec_hash_to_point(target));
    let l1 = mul_mod(alpha_1, 1);
    spec_challenge(message, key_image, l0, rr, l1)
}

/// The challenge that enters position `i` when the ring is walked in index
/// order from `c_zero`, as verification does; at `i = ring.len()` the one that
/// the last position hands back to the first.
pub open spec fn verify_chain(
    message: Seq<u8>,
    key_image: Seq<u8>,
    image: nat,
    output: nat,
    ring: Seq<RingEntry>,
    responses: Seq<nat>,
    c_zero: nat,
    i: nat,
) -> nat
    decreases i,
{
    if i == 0 {
        c_zero
    } else {
        let k = (i - 1) as nat;
        spec_step(
            message,
            key_image,
            image,
            output,
            ring[k as int],
            responses[2 * k as int],
            responses[2 * k as int + 1],
            verify_chain(message, key_image, image, output, ring, responses, c_zero, k),
        )
    }
}

/// The chain of challenges closes: walked once around the ring from `c_zero`,
/// it comes back to `c_zero`.
pub open spec fn chain_closes(
    message: Seq<u8>,
    key_image: Seq<u8>,
    image: nat,
    output: nat,
    ring: Seq<RingEntry>,
    responses: Seq<nat>,
    c_zero: nat,
) -> bool {
    verify_chain(message, key_image, image, output, ring, responses, c_zero, ring.len()) == c_zero
}

/// The position after `index` in a ring of `ring_size` members.
pub open spec fn next_index(index: nat, ring_size: nat) -> nat {
    if index + 1 == ring_size {
        0
    } else {
        index + 1
    }
}

/// The position that is visited at round `round` of signing: the rounds start
/// at the real index and go once around the ring.
pub open spec fn round_index(real_index: nat, round: nat, ring_size: nat) -> nat {
    if real_index + round < ring_size {
        real_index + round
    } else {
        (real_index + round - ring_size) as nat
    }
}

/// The state of a signing context.
pub struct SignState {
    /// The number of members of the ring.
    pub ring_size: nat,
    /// The position of the real input.
    pub real_index: nat,
    /// The nonce of the first response.
    pub alpha_0: nat,
    /// The nonce of the second response.
    pub alpha_1: nat,
    /// The logarithm of the key image.
    pub image: nat,
    /// The key image in its wire form.
    pub key_image: Seq<u8>,
    /// The logarithm of the output commitment.
    pub output: nat,
    /// The real input, once its round has passed.
    pub real_input: Option<RingEntry>,
    /// The number of rounds that have passed.
    pub ring_count: nat,
    /// The challenges, by ring position.
    pub challenges: Seq<nat>,
    /// The responses, two for each ring position.
    pub responses: Seq<nat>,
    /// Whether the signature is complete.
    pub complete: bool,
}

impl SignState {
    /// The shape that every signing context has.
    pub open spec fn wf(self) -> bool {
        &&& self.real_index < self.ring_size
        &&& self.ring_count <= self.ring_size
        &&& self.challenges.len() == self.ring_size
        &&& self.responses.len() == 2 * self.ring_size
    }

    /// The position that the next round visits.
    pub open spec fn expected_index(self) -> nat {
        round_index(self.real_index, self.ring_count, self.ring_size)
    }

    /// The challenge that the next round computes at position `i` with the
    /// member `entry`.
    pub open spec fn round_challenge(self, message: Seq<u8>, i: nat, entry: RingEntry) -> nat {
        if i == self.real_index {
            spec_real_step(message, self.key_image, entry.target, self.alpha_0, self.alpha_1)
        } else {
            spec_step(
                message,
                self.key_image,
                self.image,
                self.output,
                entry,
                self.responses[2 * i as int],
                self.responses[2 * i as int + 1],
                self.challenges[i as int],
            )
        }
    }

    /// The state after a round at position `i` with the member `entry`: the
    /// challenge of the round is stored for the next position, and the real
    /// input is kept when it passes.
    pub open spec fn update(self, message: Seq<u8>, i: nat, entry: RingEntry) -> SignState {
        SignState {
            challenges: self.challenges.update(
                next_index(i, self.ring_size) as int,
                self.round_challenge(message, i, entry),
            ),
            real_input: if i == self.real_index {
                Some(entry)
            } else {
                self.real_input
            },
            ring_count: self.ring_count + 1,
            ..self
        }
    }

    /// The state after the responses of the real position are set: with `c`
    /// the challenge that entered the real position, `alpha_0 - c * secret`
    /// and `alpha_1 - c * z`.
    pub open spec fn close(self, secret: nat, z: nat) -> SignState {
        let c = self.challenges[self.real_index as int];
        SignState {
            responses: self.responses.update(
                2 * self.real_index as int,
                sub_mod(self.alpha_0, mul_mod(c, secret)),
            ).update(2 * self.real_index as int + 1, sub_mod(self.alpha_1, mul_mod(c, z))),
            ..self
        }
    }

    /// The output commitment and the commitment of the real input differ by
    /// `z * G`: they commit to the same value.
    pub open spec fn value_conserved(self, z: nat) -> bool {
        self.real_input matches Some(input) && sub_mod(self.output, input.commitment) == mul_mod(
            z,
            1,
        )
    }

    /// The signature that the state holds.
    pub open spec fn signature(self) -> SignatureModel {
        SignatureModel {
            c_zero: self.challenges[0],
            responses: self.responses,
            key_image: self.key_image,
        }
    }

    /// The state after `rounds` rounds over `ring`, each at the position that
    /// is its turn.
    pub open spec fn after_rounds(self, message: Seq<u8>, ring: Seq<RingEntry>, rounds: nat)
        -> SignState
        decreases rounds,
    {
        if rounds == 0 {
            self
        } else {
            let before = self.after_rounds(message, ring, (rounds - 1) as nat);
            let i = before.expected_index();
            before.update(message, i, ring[i as int])
        }
    }
}

/// Rounds change the challenges and the count of rounds, and keep the real
/// input when it passes; everything else in the state stays as it was.
pub proof fn lemma_after_rounds_keeps(
    state: SignState,
    message: Seq<u8>,
    ring: Seq<RingEntry>,
    rounds: nat,
)
    requires
        state.wf(),
        state.ring_count + rounds <= state.ring_size,
    ensures
        ({
            let after = state.after_rounds(message, ring, rounds);
            &&& after.wf()
            &&& after.ring_size == state.ring_size
            &&& after.real_index == state.real_index
            &&& after.alpha_0 == state.alpha_0
            &&& after.alpha_1 == state.alpha_1
            &&& after.image == state.image
            &&& after.key_image == state.key_image
            &&& after.output == state.output
            &&& after.responses == state.responses
            &&& after.complete == state.complete
            &&& after.ring_count == state.ring_count + rounds
        }),
    decreases rounds,
{
    if rounds > 0 {
        lemma_after_rounds_keeps(state, message, ring, (rounds - 1) as nat);
    }
}

/// The model of a ring signature.
pub struct SignatureModel {
    /// The challenge that enters position zero.
    pub c_zero: nat,
    /// The responses, two for each ring position.
    pub responses: Seq<nat>,
    /// The key image in its wire form.
    pub key_image: Seq<u8>,
}

} // verus!
