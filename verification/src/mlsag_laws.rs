//! What holds of every signature: one that is made for a real input whose key
//! and commitment fit the parameters passes verification.
use crate::commitment::spec_commit;
use crate::error::Error;
use crate::group::{add_mod, group_order, lemma_response_cancels, mul_mod, sub_mod};
use crate::key_image::spec_key_image;
use crate::mlsag::RingMLSAG;
use crate::mlsag_sign::MlsagSignParams;
use crate::mlsag_spec::{
    chain_closes, lemma_after_rounds_keeps, next_index, round_index, spec_real_step, spec_step,
    verify_chain, SignState,
};
use crate::onetime_keys::spec_hash_to_point;
use crate::consts::MAX_TXOUTS;
use crate::ring::{ring_decompresses, ring_entries, Ring, RingEntry};
use crate::ristretto::{is_point, point_log};
use vstd::arithmetic::div_mod::{lemma_mod_twice, lemma_small_mod, lemma_sub_mod_noop};
use vstd::prelude::*;

verus! {

/// The challenge that round `round` of signing makes, starting from `start`.
pub open spec fn made(start: SignState, message: Seq<u8>, ring: Seq<RingEntry>, round: nat)
    -> nat {
    let state = start.after_rounds(message, ring, round);
    let i = round_index(start.real_index, round, start.ring_size);
    state.round_challenge(message, i, ring[i as int])
}

/// After `rounds` rounds, the challenge that an earlier round made stands at
/// the position after the one that the round visited.
pub proof fn lemma_made_is_stored(
    start: SignState,
    message: Seq<u8>,
    ring: Seq<RingEntry>,
    rounds: nat,
    round: nat,
)
    requires
        start.wf(),
        start.ring_count == 0,
        round < rounds <= start.ring_size,
    ensures
        start.after_rounds(message, ring, rounds).challenges[next_index(
            round_index(start.real_index, round, start.ring_size),
            start.ring_size,
        ) as int] == made(start, message, ring, round),
    decreases rounds,
{
    let before = start.after_rounds(message, ring, (rounds - 1) as nat);
    lemma_after_rounds_keeps(start, message, ring, (rounds - 1) as nat);
    if round < rounds - 1 {
        lemma_made_is_stored(start, message, ring, (rounds - 1) as nat, round);
    }
}

/// A round after the first reads the challenge that the round before it made,
/// at a position that is not the real one.
pub proof fn lemma_round_reads_previous(
    start: SignState,
    message: Seq<u8>,
    ring: Seq<RingEntry>,
    round: nat,
)
    requires
        start.wf(),
        start.ring_count == 0,
        0 < round < start.ring_size,
    ensures
        ({
            let i = round_index(start.real_index, round, start.ring_size);
            &&& i != start.real_index
            &&& i < start.ring_size
            &&& made(start, message, ring, round) == spec_step(
                message,
                start.key_image,
                start.image,
                start.output,
                ring[i as int],
                start.responses[2 * i as int],
                start.responses[2 * i as int + 1],
                made(start, message, ring, (round - 1) as nat),
            )
        }),
{
    lemma_after_rounds_keeps(start, message, ring, round);
    lemma_made_is_stored(start, message, ring, round, (round - 1) as nat);
}

/// At the real position the two responses `alpha_0 - c * x` and
/// `alpha_1 - c * z` turn the step of verification into the step that signing
/// made from the nonces, whatever the challenge `c` is.
pub proof fn lemma_real_step_closes(
    message: Seq<u8>,
    key_image: Seq<u8>,
    output: nat,
    entry: RingEntry,
    alpha_0: nat,
    alpha_1: nat,
    x: nat,
    z: nat,
    c: nat,
)
    requires
        x < group_order(),
        entry.target == x,
        sub_mod(output, entry.commitment) == mul_mod(z, 1),
    ensures
        spec_step(
            message,
            key_image,
            spec_key_image(x),
            output,
            entry,
            sub_mod(alpha_0, mul_mod(c, x)),
            sub_mod(alpha_1, mul_mod(c, z)),
            c,
        ) == spec_real_step(message, key_image, entry.target, alpha_0, alpha_1),
{
    lemma_small_mod(x, group_order());
    assert(mul_mod(x, 1) == x);
    lemma_response_cancels(alpha_0, c, x, 1);
    lemma_response_cancels(alpha_0, c, x, spec_hash_to_point(x));
    lemma_response_cancels(alpha_1, c, z, 1);
}

/// Two commitments to one value with the same generators differ by the
/// difference of their blindings times the blinding generator.
pub proof fn lemma_commitments_differ_by_blinding(
    value: nat,
    blinding: nat,
    output_blinding: nat,
    b: nat,
)
    ensures
        sub_mod(spec_commit(value, output_blinding, b, 1), spec_commit(value, blinding, b, 1))
            == mul_mod(sub_mod(output_blinding, blinding), 1),
{
    let l = group_order() as int;
    let v = mul_mod(value, b) as int;
    let p = mul_mod(output_blinding, 1) as int;
    let q = mul_mod(blinding, 1) as int;
    let ob = output_blinding as int;
    let bl = blinding as int;
    assert(p == ob % l);
    assert(q == bl % l);
    // the left side
    lemma_sub_mod_noop(v + p, v + q, l);
    assert(sub_mod(add_mod(v as nat, p as nat), add_mod(v as nat, q as nat)) == (p - q) % l);
    lemma_sub_mod_noop(ob, bl, l);
    assert((p - q) % l == (ob - bl) % l);
    // the right side
    lemma_mod_twice(ob - bl, l);
}

/// The chain of challenges that verification walks over a signed state
/// arrives, at every position, at the challenge that signing left there.
proof fn lemma_chain_follows_signing(
    start: SignState,
    message: Seq<u8>,
    ring: Seq<RingEntry>,
    x: nat,
    z: nat,
    i: nat,
)
    requires
        start.wf(),
        start.ring_count == 0,
        ring.len() == start.ring_size,
        x < group_order(),
        start.image == spec_key_image(x),
        ring[start.real_index as int].target == x,
        sub_mod(start.output, ring[start.real_index as int].commitment) == mul_mod(z, 1),
        i <= start.ring_size,
    ensures
        ({
            let signed = start.after_rounds(message, ring, start.ring_size).close(x, z);
            verify_chain(
                message,
                signed.key_image,
                signed.image,
                signed.output,
                ring,
                signed.responses,
                signed.challenges[0],
                i,
            ) == signed.challenges[if i == start.ring_size {
                0int
            } else {
                i as int
            }]
        }),
    decreases i,
{
    let n = start.ring_size;
    let j = start.real_index;
    let walked = start.after_rounds(message, ring, n);
    let signed = walked.close(x, z);
    lemma_after_rounds_keeps(start, message, ring, n);
    if i > 0 {
        let k = (i - 1) as nat;
        lemma_chain_follows_signing(start, message, ring, x, z, k);
        let entering = signed.challenges[k as int];
        // the round that visits position k
        let round: nat = if k >= j {
            (k - j) as nat
        } else {
            (k + n - j) as nat
        };
        assert(round_index(j, round, n) == k);
        lemma_made_is_stored(start, message, ring, n, round);
        assert(signed.challenges[next_index(k, n) as int] == made(start, message, ring, round));
        if k == j {
            // the challenge that entered the real position was made by the last round
            lemma_made_is_stored(start, message, ring, n, (n - 1) as nat);
            assert(round_index(j, (n - 1) as nat, n) == next_index_inverse(j, n));
            lemma_real_step_closes(
                message,
                start.key_image,
                start.output,
                ring[j as int],
                start.alpha_0,
                start.alpha_1,
                x,
                z,
                entering,
            );
        } else {
            lemma_round_reads_previous(start, message, ring, round);
            lemma_made_is_stored(start, message, ring, n, (round - 1) as nat);
        }
    }
}

/// The position before `index` in a ring of `ring_size` members.
pub open spec fn next_index_inverse(index: nat, ring_size: nat) -> nat {
    if index == 0 {
        (ring_size - 1) as nat
    } else {
        (index - 1) as nat
    }
}

/// The state in which signing starts has the shape of a signing context.
pub proof fn lemma_initial_state(
    opts: MlsagSignParams,
    alpha_0: nat,
    alpha_1: nat,
    decoys: Seq<nat>,
)
    requires
        opts.real_index < opts.ring_size,
        decoys.len() == 2 * opts.ring_size,
    ensures
        opts.spec_initial(alpha_0, alpha_1, decoys).wf(),
        opts.spec_initial(alpha_0, alpha_1, decoys).ring_count == 0,
{
}

/// Round-trip validity, on the model: for a ring whose member at the real
/// index has the public key of the private key, and a commitment that differs
/// from the output commitment by `z * G`, the chain of challenges of the
/// signature closes, whatever the nonces and the decoy responses were.
pub proof fn lemma_signature_closes(
    opts: MlsagSignParams,
    ring: Seq<RingEntry>,
    alpha_0: nat,
    alpha_1: nat,
    decoys: Seq<nat>,
)
    requires
        ring.len() == opts.ring_size,
        opts.real_index < opts.ring_size,
        decoys.len() == 2 * opts.ring_size,
        ring[opts.real_index as int].target == opts.onetime_private_key@,
        sub_mod(opts.spec_output(), ring[opts.real_index as int].commitment) == mul_mod(
            opts.spec_z(),
            1,
        ),
    ensures
        ({
            let signed = opts.spec_signed(ring, alpha_0, alpha_1, decoys);
            &&& signed.image == spec_key_image(opts.onetime_private_key@)
            &&& signed.output == opts.spec_output()
            &&& signed.responses.len() == 2 * opts.ring_size
            &&& chain_closes(
                opts.message@,
                signed.key_image,
                signed.image,
                signed.output,
                ring,
                signed.responses,
                signed.signature().c_zero,
            )
        }),
{
    let start = opts.spec_initial(alpha_0, alpha_1, decoys);
    lemma_initial_state(opts, alpha_0, alpha_1, decoys);
    opts.onetime_private_key.lemma_below_order();
    lemma_after_rounds_keeps(start, opts.message@, ring, opts.ring_size as nat);
    lemma_chain_follows_signing(
        start,
        opts.message@,
        ring,
        opts.onetime_private_key@,
        opts.spec_z(),
        opts.ring_size as nat,
    );
}

/// Round-trip validity: a signature that was made over a ring of one to eleven
/// members, for a real input whose public key belongs to the private key and
/// whose commitment is that of the value and blinding of the parameters, passes
/// verification against the output commitment of the parameters, whatever the
/// nonces and the decoy responses were. The key image of the signature
/// decompresses to the image of the private key, and the output commitment to
/// that of the parameters, as signing and committing ensure of what they
/// return.
pub proof fn lemma_signature_verifies<R: Ring>(
    opts: MlsagSignParams,
    ring: &R,
    alpha_0: nat,
    alpha_1: nat,
    decoys: Seq<nat>,
    signature: RingMLSAG,
    output_commitment: Seq<u8>,
)
    requires
        0 < ring.spec_size() <= MAX_TXOUTS,
        ring.spec_size() == opts.ring_size,
        ring_decompresses(ring),
        opts.real_index < opts.ring_size,
        decoys.len() == 2 * opts.ring_size,
        opts.generator.B_blinding@ == 1,
        ring_entries(ring)[opts.real_index as int].target == opts.onetime_private_key@,
        ring_entries(ring)[opts.real_index as int].commitment == spec_commit(
            opts.value as nat,
            opts.blinding@,
            opts.generator.B@,
            opts.generator.B_blinding@,
        ),
        signature@ == opts.spec_signed(ring_entries(ring), alpha_0, alpha_1, decoys).signature(),
        is_point(signature.key_image@),
        point_log(signature.key_image@) == spec_key_image(opts.onetime_private_key@),
        is_point(output_commitment),
        point_log(output_commitment) == opts.spec_output(),
    ensures
        signature.spec_verify(opts.message@, ring, output_commitment) == Ok::<(), Error>(()),
{
    crate::ring::lemma_ring_members(ring);
    lemma_commitments_differ_by_blinding(
        opts.value as nat,
        opts.blinding@,
        opts.output_blinding@,
        opts.generator.B@,
    );
    lemma_signature_closes(opts, ring_entries(ring), alpha_0, alpha_1, decoys);
    lemma_after_rounds_keeps(
        opts.spec_initial(alpha_0, alpha_1, decoys),
        opts.message@,
        ring_entries(ring),
        opts.ring_size as nat,
    );
}

/// A signature of the signed state, whose key image decompresses to the image
/// of the private key, passes verification over the ring against every
/// encoding of the output commitment, where the real input is valid.
pub proof fn lemma_signed_verifies<R: Ring>(
    opts: MlsagSignParams,
    ring: &R,
    alpha_0: nat,
    alpha_1: nat,
    decoys: Seq<nat>,
    signature: RingMLSAG,
)
    requires
        RingMLSAG::spec_sign_refusal(ring, &opts) is None,
        decoys.len() == 2 * opts.ring_size,
        RingMLSAG::spec_valid_real_input(ring, &opts),
        signature@ == opts.spec_signed(ring_entries(ring), alpha_0, alpha_1, decoys).signature(),
        is_point(signature.key_image@),
        point_log(signature.key_image@) == spec_key_image(opts.onetime_private_key@),
    ensures
        signature.spec_verifies(ring, &opts),
{
    assert forall|output_commitment: Seq<u8>|
        is_point(output_commitment) && point_log(output_commitment)
            == opts.spec_output() implies #[trigger] signature.spec_verify(
        opts.message@,
        ring,
        output_commitment,
    ) == Ok::<(), Error>(()) by {
        lemma_signature_verifies(
            opts,
            ring,
            alpha_0,
            alpha_1,
            decoys,
            signature,
            output_commitment,
        );
    }
}

/// Signing with the check of value conservation: for a real input whose
/// commitment is that of the value and blinding of the parameters, the signed
/// state conserves the value, so that the check passes.
pub proof fn lemma_matching_values_are_conserved(
    opts: MlsagSignParams,
    ring: Seq<RingEntry>,
    alpha_0: nat,
    alpha_1: nat,
    decoys: Seq<nat>,
)
    requires
        0 < ring.len() == opts.ring_size,
        opts.real_index < opts.ring_size,
        decoys.len() == 2 * opts.ring_size,
        opts.generator.B_blinding@ == 1,
        ring[opts.real_index as int].commitment == spec_commit(
            opts.value as nat,
            opts.blinding@,
            opts.generator.B@,
            opts.generator.B_blinding@,
        ),
    ensures
        opts.spec_signed(ring, alpha_0, alpha_1, decoys).value_conserved(opts.spec_z()),
{
    lemma_commitments_differ_by_blinding(
        opts.value as nat,
        opts.blinding@,
        opts.output_blinding@,
        opts.generator.B@,
    );
    lemma_real_input_is_kept(opts, ring, alpha_0, alpha_1, decoys);
}

/// The signed state holds the member at the real index as its real input: the
/// value is conserved exactly where the output commitment and the commitment of
/// that member differ by `z * G`.
pub proof fn lemma_real_input_is_kept(
    opts: MlsagSignParams,
    ring: Seq<RingEntry>,
    alpha_0: nat,
    alpha_1: nat,
    decoys: Seq<nat>,
)
    requires
        0 < ring.len() == opts.ring_size,
        opts.real_index < opts.ring_size,
        decoys.len() == 2 * opts.ring_size,
    ensures
        opts.spec_signed(ring, alpha_0, alpha_1, decoys).real_input == Some(
            ring[opts.real_index as int],
        ),
        opts.spec_signed(ring, alpha_0, alpha_1, decoys).value_conserved(opts.spec_z()) <==> sub_mod(
            opts.spec_output(),
            ring[opts.real_index as int].commitment,
        ) == mul_mod(opts.spec_z(), 1),
{
    let start = opts.spec_initial(alpha_0, alpha_1, decoys);
    lemma_real_input_after(start, opts.message@, ring, opts.ring_size as nat);
    lemma_after_rounds_keeps(start, opts.message@, ring, opts.ring_size as nat);
}

/// Once a round has passed, the state holds the member at the real index as
/// its real input.
proof fn lemma_real_input_after(
    start: SignState,
    message: Seq<u8>,
    ring: Seq<RingEntry>,
    rounds: nat,
)
    requires
        start.wf(),
        start.ring_count == 0,
        0 < rounds <= start.ring_size,
    ensures
        start.after_rounds(message, ring, rounds).real_input == Some(
            ring[start.real_index as int],
        ),
    decreases rounds,
{
    lemma_after_rounds_keeps(start, message, ring, (rounds - 1) as nat);
    if rounds > 1 {
        lemma_real_input_after(start, message, ring, (rounds - 1) as nat);
    }
}

/// The key image and the shape of a signature do not tell the real index:
/// two signatures with the same private key carry the same key image, and as
/// many responses as the ring asks for, wherever the real input stands.
pub proof fn lemma_key_image_hides_index(
    first: MlsagSignParams,
    second: MlsagSignParams,
    ring: Seq<RingEntry>,
    alpha_0: nat,
    alpha_1: nat,
    decoys: Seq<nat>,
)
    requires
        ring.len() == first.ring_size == second.ring_size,
        first.real_index < first.ring_size,
        second.real_index < second.ring_size,
        decoys.len() == 2 * first.ring_size,
        first.onetime_private_key@ == second.onetime_private_key@,
    ensures
        first.spec_signed(ring, alpha_0, alpha_1, decoys).signature().key_image
            == second.spec_signed(ring, alpha_0, alpha_1, decoys).signature().key_image,
        first.spec_signed(ring, alpha_0, alpha_1, decoys).signature().responses.len()
            == second.spec_signed(ring, alpha_0, alpha_1, decoys).signature().responses.len(),
{
    lemma_after_rounds_keeps(
        first.spec_initial(alpha_0, alpha_1, decoys),
        first.message@,
        ring,
        first.ring_size as nat,
    );
    lemma_after_rounds_keeps(
        second.spec_initial(alpha_0, alpha_1, decoys),
        second.message@,
        ring,
        second.ring_size as nat,
    );
}

/// Bounds enforcement, in signing: a ring of more than eleven members is
/// refused with a length error, whatever else holds; a real index that lies
/// outside a ring that has at most eleven members, all of which decompress, is
/// refused with an index error.
pub proof fn lemma_signing_enforces_bounds<R: Ring>(ring: &R, opts: MlsagSignParams)
    ensures
        ring.spec_size() > MAX_TXOUTS ==> RingMLSAG::spec_sign_refusal(ring, &opts) == Some(
            Error::LengthMismatch(ring.spec_size() as usize, MAX_TXOUTS),
        ),
        ring.spec_size() <= MAX_TXOUTS && ring_decompresses(ring) && opts.real_index
            >= ring.spec_size() ==> RingMLSAG::spec_sign_refusal(ring, &opts) == Some(
            Error::IndexOutOfBounds,
        ),
{
}

/// Bounds enforcement, in verification: a ring of more than eleven members
/// is refused with a length error, whatever else holds; over a ring of at most
/// eleven members, all of which decompress, a signature that does not carry two
/// responses for each member is refused with a length error.
pub proof fn lemma_verification_enforces_bounds<R: Ring>(
    signature: RingMLSAG,
    message: Seq<u8>,
    ring: &R,
    output_commitment: Seq<u8>,
)
    ensures
        ring.spec_size() > MAX_TXOUTS ==> signature.spec_verify(message, ring, output_commitment)
            == Err::<(), Error>(Error::LengthMismatch(ring.spec_size() as usize, MAX_TXOUTS)),
        ring.spec_size() <= MAX_TXOUTS && ring_decompresses(ring) && signature.responses@.len()
            != 2 * ring.spec_size() ==> signature.spec_verify(
            message,
            ring,
            output_commitment,
        ) == Err::<(), Error>(
            Error::LengthMismatch(
                (2 * ring.spec_size()) as usize,
                signature.responses@.len() as usize,
            ),
        ),
{
    crate::ring::lemma_ring_members(ring);
}

/// Value conservation: where the check is asked for, signing a ring that it
/// does not refuse ends in a value-not-conserved error exactly where the
/// output commitment and the commitment of the real input do not differ by
/// `z * G`, whatever the nonces and the decoy responses are.
pub proof fn lemma_value_conservation_is_checked(
    opts: MlsagSignParams,
    ring: Seq<RingEntry>,
    alpha_0: nat,
    alpha_1: nat,
    decoys: Seq<nat>,
    result: Result<RingMLSAG, Error>,
)
    requires
        0 < ring.len() == opts.ring_size,
        opts.real_index < opts.ring_size,
        decoys.len() == 2 * opts.ring_size,
        opts.check_value_is_preserved,
        RingMLSAG::spec_sign_outcome(ring, &opts, alpha_0, alpha_1, decoys, result),
    ensures
        result == Err::<RingMLSAG, Error>(Error::ValueNotConserved) <==> sub_mod(
            opts.spec_output(),
            ring[opts.real_index as int].commitment,
        ) != mul_mod(opts.spec_z(), 1),
        result is Ok <==> sub_mod(opts.spec_output(), ring[opts.real_index as int].commitment)
            == mul_mod(opts.spec_z(), 1),
{
    lemma_real_input_is_kept(opts, ring, alpha_0, alpha_1, decoys);
}

} // verus!
