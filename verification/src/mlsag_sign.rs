//! Signing a ring, incrementally: the parameters of one signature and the
//! context that carries it from round to round.
use crate::bytes::append;
use crate::commitment::{spec_commit, Commitment, PedersenGens};
use crate::consts::{MAX_TXOUTS, RING_MLSAG_CHALLENGE_DOMAIN_TAG};
use crate::curve_scalar::{zeroize_all, CurveScalar};
use crate::error::Error;
use crate::group::sub_mod;
use crate::key_image::{spec_key_image, KeyImage};
use crate::mlsag_spec::{challenge_input, next_index, round_index, spec_challenge, SignState};
use crate::onetime_keys::hash_to_point;
use crate::ring::RingEntry;
use crate::ristretto::{is_point, point_log, point_of, Point};
use crate::ristretto_keys::{RistrettoPrivate, RistrettoPublic};
use vstd::prelude::*;

verus! {

/// The numbers that a sequence of scalars stands for.
pub open spec fn scalar_values(scalars: Seq<CurveScalar>) -> Seq<nat> {
    Seq::new(scalars.len(), |i: int| scalars[i]@)
}

/// The challenge `Hn(m | I | L0 | R0 | L1)`.
pub fn challenge(message: &[u8], key_image: &KeyImage, l0: &Point, r0: &Point, l1: &Point) -> (c:
    CurveScalar)
    ensures
        c@ == spec_challenge(message@, key_image@, l0@, r0@, l1@),
{
    let mut input: Vec<u8> = Vec::new();
    append(&mut input, RING_MLSAG_CHALLENGE_DOMAIN_TAG.as_slice());
    append(&mut input, message);
    append(&mut input, key_image.as_bytes().as_slice());
    let a = l0.compress();
    append(&mut input, a.as_slice());
    let b = r0.compress();
    append(&mut input, b.as_slice());
    let c = l1.compress();
    append(&mut input, c.as_slice());
    assert(input@ =~= challenge_input(message@, key_image@, l0@, r0@, l1@));
    CurveScalar::hash_from_bytes(input.as_slice())
}

/// MLSAG signing parameters: what one signature is made from.
#[derive(Debug)]
pub struct MlsagSignParams<'a> {
    /// Size of ring to be signed
    pub ring_size: usize,
    /// Message to be signed.
    pub message: &'a [u8],
    /// The index in the ring of the real input.
    pub real_index: usize,
    /// The real input's private key.
    pub onetime_private_key: &'a RistrettoPrivate,
    /// Value of the real input.
    pub value: u64,
    /// Blinding of the real input.
    pub blinding: &'a CurveScalar,
    /// The output amount's blinding factor.
    pub output_blinding: &'a CurveScalar,
    /// The pedersen generator to use for this commitment and signature
    pub generator: &'a PedersenGens,
    /// If true, check that the value of inputs equals the value of outputs
    pub check_value_is_preserved: bool,
}

impl<'a> MlsagSignParams<'a> {
    /// The difference `z` of the two blindings: the secret of the second
    /// response.
    pub open spec fn spec_z(&self) -> nat {
        sub_mod(self.output_blinding@, self.blinding@)
    }

    /// The logarithm of the output commitment.
    pub open spec fn spec_output(&self) -> nat {
        spec_commit(
            self.value as nat,
            self.output_blinding@,
            self.generator.B@,
            self.generator.B_blinding@,
        )
    }

    /// The failure, if any, with which a signing context refuses these
    /// parameters and buffers of the given lengths.
    pub open spec fn spec_refusal(&self, challenges: nat, responses: nat) -> Option<Error> {
        if self.ring_size > MAX_TXOUTS {
            Some(Error::LengthMismatch(self.ring_size, MAX_TXOUTS))
        } else if challenges != self.ring_size {
            Some(Error::LengthMismatch(self.ring_size, challenges as usize))
        } else if responses != 2 * self.ring_size {
            Some(Error::LengthMismatch((2 * self.ring_size) as usize, responses as usize))
        } else if self.real_index >= self.ring_size {
            Some(Error::IndexOutOfBounds)
        } else {
            None
        }
    }

    /// The state in which signing ends, from the ring, the two nonces and the
    /// decoy responses: every round has passed and the responses of the real
    /// position are set.
    pub open spec fn spec_signed(
        &self,
        ring: Seq<RingEntry>,
        alpha_0: nat,
        alpha_1: nat,
        decoys: Seq<nat>,
    ) -> SignState {
        self.spec_initial(alpha_0, alpha_1, decoys).after_rounds(
            self.message@,
            ring,
            self.ring_size as nat,
        ).close(self.onetime_private_key@, self.spec_z())
    }

    /// Whether signing `ring` with the two nonces and the decoy responses ends
    /// in `result`, with `challenges` and `responses` in the buffers: a
    /// `ValueNotConserved` where the check is asked for and fails, and else the
    /// key image, with the challenges and the responses of the signed state.
    pub open spec fn spec_outcome(
        &self,
        ring: Seq<RingEntry>,
        alpha_0: nat,
        alpha_1: nat,
        decoys: Seq<nat>,
        result: Result<KeyImage, Error>,
        challenges: Seq<nat>,
        responses: Seq<nat>,
    ) -> bool {
        let signed = self.spec_signed(ring, alpha_0, alpha_1, decoys);
        if self.check_value_is_preserved && !signed.value_conserved(self.spec_z()) {
            result == Err::<KeyImage, Error>(Error::ValueNotConserved)
        } else {
            &&& result is Ok
            &&& result.unwrap()@ == signed.key_image
            &&& challenges == signed.challenges
            &&& responses == signed.responses
        }
    }

    /// The state in which signing starts, from the two nonces and the decoy
    /// responses: no round has passed, the challenges are zero, and so are the
    /// two responses of the real position.
    pub open spec fn spec_initial(&self, alpha_0: nat, alpha_1: nat, decoys: Seq<nat>)
        -> SignState {
        SignState {
            ring_size: self.ring_size as nat,
            real_index: self.real_index as nat,
            alpha_0,
            alpha_1,
            image: spec_key_image(self.onetime_private_key@),
            key_image: point_of(spec_key_image(self.onetime_private_key@)),
            output: self.spec_output(),
            real_input: None,
            ring_count: 0,
            challenges: Seq::new(self.ring_size as nat, |i: int| 0nat),
            responses: decoys.update(2 * self.real_index as int, 0nat).update(
                2 * self.real_index as int + 1,
                0nat,
            ),
            complete: false,
        }
    }
}

/// MLSAG signing context, supports incremental computation for ring signing.
///
/// Misuse of this API may generate invalid rings: prefer
/// [`MlsagSignParams::sign`].
///
/// When a context is dropped its two nonces are overwritten with zero. Its
/// challenges and responses are not: whoever drives a context directly calls
/// [`MlsagSignCtx::erase`] when done with it, as the signing functions do on
/// every path.
#[allow(non_snake_case)]
#[derive(Debug)]
pub struct MlsagSignCtx {
    ring_size: usize,
    real_index: usize,
    alpha_0: CurveScalar,
    alpha_1: CurveScalar,
    G: Point,
    I: Point,
    /// Cache real input for balance checking
    real_input: Option<(RistrettoPublic, Commitment)>,
    /// Number of rings computed
    ring_count: usize,
    challenges: Vec<CurveScalar>,
    responses: Vec<CurveScalar>,
    key_image: KeyImage,
    output_commitment: Commitment,
    complete: bool,
}

impl View for MlsagSignCtx {
    type V = SignState;

    closed spec fn view(&self) -> SignState {
        SignState {
            ring_size: self.ring_size as nat,
            real_index: self.real_index as nat,
            alpha_0: self.alpha_0@,
            alpha_1: self.alpha_1@,
            image: self.I@,
            key_image: self.key_image@,
            output: self.output_commitment@,
            real_input: match self.real_input {
                Some(input) => Some(RingEntry { target: input.0@, commitment: input.1@ }),
                None => None,
            },
            ring_count: self.ring_count as nat,
            challenges: scalar_values(self.challenges@),
            responses: scalar_values(self.responses@),
            complete: self.complete,
        }
    }
}

impl MlsagSignCtx {
    /// The buffers fit the ring, the real index lies in it, and no more rounds
    /// have passed than it has members.
    #[verifier::type_invariant]
    spec fn inv(self) -> bool {
        &&& self.ring_size <= MAX_TXOUTS
        &&& self.real_index < self.ring_size
        &&& self.ring_count <= self.ring_size
        &&& self.challenges@.len() == self.ring_size
        &&& self.responses@.len() == 2 * self.ring_size
        &&& self.G@ == 1
        &&& self.ring_count > 0 ==> self.real_input is Some
        &&& self.complete ==> self.ring_count == self.ring_size
        &&& is_point(self.key_image@)
        &&& point_log(self.key_image@) == self.I@
    }

    /// Initialise signing state from the two nonces, with the decoy responses
    /// already in `responses`. The challenges, and the two responses of the
    /// real position, are set to zero.
    pub fn init_with(
        params: &MlsagSignParams,
        alpha_0: CurveScalar,
        alpha_1: CurveScalar,
        challenges: Vec<CurveScalar>,
        responses: Vec<CurveScalar>,
    ) -> (r: Result<Self, Error>)
        ensures
            match params.spec_refusal(challenges@.len(), responses@.len()) {
                Some(e) => r == Err::<Self, Error>(e),
                None => r is Ok && r.unwrap()@ == params.spec_initial(
                    alpha_0@,
                    alpha_1@,
                    scalar_values(responses@),
                ) && r.unwrap()@.wf(),
            },
    {
        let mut challenges = challenges;
        let mut responses = responses;
        let ring_size = params.ring_size;
        if ring_size > MAX_TXOUTS {
            return Err(Error::LengthMismatch(ring_size, MAX_TXOUTS));
        }
        // Check buffer lengths are correct for ring size
        if challenges.len() != ring_size {
            return Err(Error::LengthMismatch(ring_size, challenges.len()));
        }
        if responses.len() != ring_size * 2 {
            return Err(Error::LengthMismatch(ring_size * 2, responses.len()));
        }
        if params.real_index >= ring_size {
            return Err(Error::IndexOutOfBounds);
        }
        let g = Point::basepoint();

        // The key image of the one-time private key
        let key_image = KeyImage::from(params.onetime_private_key);

        // The uncompressed key_image.
        let image = match Point::decompress(key_image.as_bytes()) {
            Some(p) => p,
            None => {
                return Err(Error::InvalidKeyImage);
            },
        };

        // Uncompressed output commitment.
        let output_commitment = Commitment::new(
            params.value,
            *params.output_blinding,
            params.generator,
        );

        // Challenges `c_0, ... c_{ring_size - 1}`.
        let ghost decoys = scalar_values(responses@);
        let mut i: usize = 0;
        while i < ring_size
            invariant
                i <= ring_size,
                challenges@.len() == ring_size,
                forall|k: int| 0 <= k < i ==> (#[trigger] challenges@[k])@ == 0,
            decreases ring_size - i,
        {
            challenges[i] = CurveScalar::zero();
            i += 1;
        }
        responses[2 * params.real_index] = CurveScalar::zero();
        responses[2 * params.real_index + 1] = CurveScalar::zero();

        let ctx = MlsagSignCtx {
            ring_size,
            real_index: params.real_index,
            alpha_0,
            alpha_1,
            G: g,
            I: image,
            real_input: None,
            ring_count: 0,
            challenges,
            responses,
            key_image,
            output_commitment,
            complete: false,
        };
        proof {
            let target = params.spec_initial(alpha_0@, alpha_1@, decoys);
            assert(ctx@.challenges =~= target.challenges);
            assert(ctx@.responses =~= target.responses);
        }
        Ok(ctx)
    }

    /// Initialise signing state, including `challenges` and `responses`
    /// working buffers: the decoy responses are drawn from `rng`, position by
    /// position, and the two nonces after them. The ring size, the lengths of
    /// the buffers and the real index are checked first: on a refusal nothing
    /// is drawn, and the generator is as it was. A generator that panics where
    /// it cannot fill a buffer panics here too.
    pub fn init<G: rand_core::RngCore + rand_core::CryptoRng>(
        params: &MlsagSignParams,
        rng: &mut G,
        challenges: Vec<CurveScalar>,
        responses: Vec<CurveScalar>,
    ) -> (r: Result<Self, Error>)
        ensures
            match params.spec_refusal(challenges@.len(), responses@.len()) {
                Some(e) => r == Err::<Self, Error>(e),
                None => r is Ok && r.unwrap()@.wf() && exists|
                    alpha_0: nat,
                    alpha_1: nat,
                    decoys: Seq<nat>,
                |
                    decoys.len() == 2 * params.ring_size && r.unwrap()@ == #[trigger] params.spec_initial(
                        alpha_0,
                        alpha_1,
                        decoys,
                    ),
            },
            params.spec_refusal(challenges@.len(), responses@.len()) is Some ==> *final(rng)
                == *old(rng),
    {
        // Check the ring size, the buffer lengths and the real index before
        // anything is drawn
        match params.check_shape(challenges.len(), responses.len()) {
            Ok(()) => {},
            Err(e) => {
                return Err(e);
            },
        }
        let mut responses = responses;
        let ring_size = params.ring_size;
        let mut i: usize = 0;
        while i < ring_size
            invariant
                i <= ring_size,
                ring_size <= MAX_TXOUTS,
                responses@.len() == 2 * ring_size,
            decreases ring_size - i,
        {
            if i != params.real_index {
                responses[2 * i] = CurveScalar::random(rng);
                responses[2 * i + 1] = CurveScalar::random(rng);
            }
            i += 1;
        }
        let alpha_0 = CurveScalar::random(rng);
        let alpha_1 = CurveScalar::random(rng);
        Self::init_with(params, alpha_0, alpha_1, challenges, responses)
    }

    /// Update signing context with provided tx_out.
    ///
    /// This must follow a call to init, and traverse the ring starting with
    /// the real tx_out: the round is refused where `i` is not the position whose
    /// turn it is, or where the ring has been walked already. The size of the
    /// ring and the real index are those that the context was initialised
    /// with; of `params` the message is read.
    pub fn update(
        &mut self,
        params: &MlsagSignParams,
        i: usize,
        tx_out: &(RistrettoPublic, Commitment),
    ) -> (r: Result<(), Error>)
        ensures
            old(self)@.ring_count < old(self)@.ring_size && i == old(self)@.expected_index() ==> r
                is Ok && final(self)@ == old(self)@.update(
                params.message@,
                i as nat,
                RingEntry { target: tx_out.0@, commitment: tx_out.1@ },
            ),
            !(old(self)@.ring_count < old(self)@.ring_size && i == old(self)@.expected_index())
                ==> r == Err::<(), Error>(Error::UnexpectedTxout) && final(self)@ == old(self)@,
    {
        proof {
            use_type_invariant(&*self);
        }
        let ring_size = self.ring_size;
        let real_index = self.real_index;
        // Check tx_out index matches current state
        if self.ring_count >= ring_size {
            return Err(Error::UnexpectedTxout);
        }
        proof {
            lemma_round_index(real_index as nat, self.ring_count as nat, ring_size as nat);
        }
        if i != (real_index + self.ring_count) % ring_size {
            return Err(Error::UnexpectedTxout);
        }
        let public_key = &tx_out.0;
        let input_commitment = &tx_out.1;
        let hashed = hash_to_point(public_key);

        let (l0, r0, l1) = if i == real_index {
            // c_{i+1} = Hn( m | key_image | alpha_0 * G | alpha_0 * Hp(P_i) | alpha_1 * G )
            //
            // where P_i is the i^th onetime public key.
            // There is no R1 term because no key image is needed for the commitment to
            // zero.
            let l0 = self.G.mul(&self.alpha_0);
            let r0 = hashed.mul(&self.alpha_0);
            let l1 = self.G.mul(&self.alpha_1);
            (l0, r0, l1)
        } else {
            // c_{i+1} = Hn( m | key_image | r_{i,0} * G + c_i * P_i
            //                             | r_{i,0} * Hp(P_i) + c_i * I
            //                             | r_{i,1} * G + c_i * Z_i )
            //
            // where:
            // * P_i is the i^th onetime public key.
            // * I is the key image of the real input's private key,
            // * Z_i is the i^th "commitment to zero" = output_commitment -
            //   input_commitment.
            let c = &self.challenges[i];
            let l0 = self.G.mul(&self.responses[2 * i]).add(&public_key.point().mul(c));
            let r0 = hashed.mul(&self.responses[2 * i]).add(&self.I.mul(c));
            let zero_commitment = self.output_commitment.point.sub(&input_commitment.point);
            let l1 = self.G.mul(&self.responses[2 * i + 1]).add(&zero_commitment.mul(c));
            (l0, r0, l1)
        };

        let next = challenge(params.message, &self.key_image, &l0, &r0, &l1);
        proof {
            lemma_next_index(i as nat, ring_size as nat);
        }
        self.challenges[(i + 1) % ring_size] = next;

        // Cache real txout for balance check
        if i == real_index {
            self.real_input = Some(*tx_out);
        }
        self.ring_count += 1;

        proof {
            let target = old(self)@.update(
                params.message@,
                i as nat,
                RingEntry { target: tx_out.0@, commitment: tx_out.1@ },
            );
            assert(self@.challenges =~= target.challenges);
            assert(self@.responses =~= target.responses);
        }
        Ok(())
    }

    /// Finalise MLSAG signing operation: "close the loop" by computing the
    /// responses of the real index, and check that the value is conserved
    /// where the parameters ask for it. Of `params` the private key, the two
    /// blindings and the request for the check are read.
    pub fn finalise(&mut self, params: &MlsagSignParams) -> (r: Result<
        (KeyImage, CurveScalar),
        Error,
    >)
        ensures
            old(self)@.ring_count != old(self)@.ring_size ==> r == Err::<
                (KeyImage, CurveScalar),
                Error,
            >(Error::IndexOutOfBounds) && final(self)@ == old(self)@,
            old(self)@.ring_count == old(self)@.ring_size ==> ({
                let closed = old(self)@.close(params.onetime_private_key@, params.spec_z());
                if params.check_value_is_preserved && !closed.value_conserved(params.spec_z()) {
                    r == Err::<(KeyImage, CurveScalar), Error>(Error::ValueNotConserved)
                        && final(self)@ == closed
                } else {
                    &&& r is Ok
                    &&& r.unwrap().0@ == closed.key_image
                    &&& r.unwrap().1@ == closed.challenges[0]
                    &&& final(self)@ == (SignState { complete: true, ..closed })
                }
            }),
            r is Ok ==> is_point(r.unwrap().0@) && point_log(r.unwrap().0@) == old(self)@.image,
    {
        proof {
            use_type_invariant(&*self);
        }
        let real_index = self.real_index;
        // Check ring size matches added entries
        if self.ring_size != self.ring_count {
            return Err(Error::IndexOutOfBounds);
        }
        // "Close the loop" by computing responses for the real index.
        let c = self.challenges[real_index];
        let s = params.onetime_private_key.scalar();
        self.responses[2 * real_index] = self.alpha_0.sub(&c.mul(s));

        let z = params.output_blinding.sub(params.blinding);
        self.responses[2 * real_index + 1] = self.alpha_1.sub(&c.mul(&z));

        proof {
            let closed = old(self)@.close(params.onetime_private_key@, params.spec_z());
            assert(self@.responses =~= closed.responses);
            assert(self@.challenges =~= closed.challenges);
        }
        if params.check_value_is_preserved {
            let input_commitment = match self.real_input {
                Some(input) => input.1,
                None => {
                    return Err(Error::IndexOutOfBounds);
                },
            };
            let difference = self.output_commitment.point.sub(&input_commitment.point);
            if difference != self.G.mul(&z) {
                return Err(Error::ValueNotConserved);
            }
        }
        self.complete = true;

        Ok((self.key_image, self.challenges[0]))
    }

    /// Overwrites the nonces, the challenges and the responses with zero.
    pub fn erase(&mut self)
        ensures
            final(self)@ == (SignState {
                alpha_0: 0,
                alpha_1: 0,
                challenges: Seq::new(old(self)@.ring_size, |i: int| 0nat),
                responses: Seq::new(2 * old(self)@.ring_size, |i: int| 0nat),
                ..old(self)@
            }),
    {
        proof {
            use_type_invariant(&*self);
        }
        self.alpha_0.zeroize();
        self.alpha_1.zeroize();
        zeroize_all(&mut self.challenges);
        zeroize_all(&mut self.responses);
        proof {
            assert(self@.challenges =~= Seq::new(old(self)@.ring_size, |i: int| 0nat));
            assert(self@.responses =~= Seq::new(2 * old(self)@.ring_size, |i: int| 0nat));
        }
    }

    /// Fetch responses from a completed signer context.
    ///
    /// Returns a slice of responses or None if incomplete
    pub fn responses(&self) -> (r: Option<&[CurveScalar]>)
        ensures
            r is Some <==> self@.complete,
            r is Some ==> scalar_values(r.unwrap()@) == self@.responses,
    {
        match self.complete {
            true => Some(self.responses.as_slice()),
            false => None,
        }
    }
}

impl<'a> MlsagSignParams<'a> {
    /// The failure, if any, with which signing refuses `ring` and buffers of
    /// the given lengths before any round.
    pub open spec fn spec_sign_refusal<R: crate::ring::Ring>(
        &self,
        ring: &R,
        challenges: nat,
        responses: nat,
    ) -> Option<Error> {
        let ring_size = ring.spec_size();
        if ring_size > MAX_TXOUTS {
            Some(Error::LengthMismatch(ring_size as usize, MAX_TXOUTS))
        } else if self.real_index >= ring_size {
            Some(Error::IndexOutOfBounds)
        } else if challenges != ring_size {
            Some(Error::LengthMismatch(ring_size as usize, challenges as usize))
        } else if responses != 2 * ring_size {
            Some(Error::LengthMismatch((2 * ring_size) as usize, responses as usize))
        } else if !crate::ring::ring_decompresses(ring) {
            Some(Error::InvalidKeyImage)
        } else {
            self.spec_refusal(challenges, responses)
        }
    }

    /// Checks these parameters against buffers of the given lengths, as a
    /// signing context does before it starts.
    pub fn check_shape(&self, challenges: usize, responses: usize) -> (r: Result<(), Error>)
        ensures
            match self.spec_refusal(challenges as nat, responses as nat) {
                Some(e) => r == Err::<(), Error>(e),
                None => r is Ok,
            },
    {
        let ring_size = self.ring_size;
        if ring_size > MAX_TXOUTS {
            return Err(Error::LengthMismatch(ring_size, MAX_TXOUTS));
        }
        if challenges != ring_size {
            return Err(Error::LengthMismatch(ring_size, challenges));
        }
        if responses != ring_size * 2 {
            return Err(Error::LengthMismatch(ring_size * 2, responses));
        }
        if self.real_index >= ring_size {
            return Err(Error::IndexOutOfBounds);
        }
        Ok(())
    }

    /// Sign a ring of input addresses and amount commitments using a modified
    /// MLSAG, with nonces and decoy responses drawn from `rng`. Where signing
    /// is refused before any round, nothing is drawn from `rng`. A generator
    /// that panics where it cannot fill a buffer panics here too.
    ///
    /// Returns the signed key image; the challenges and the responses are left
    /// in the two buffers, the challenge `c_zero` first among the challenges.
    /// After a failure the two buffers hold nothing but zeros.
    pub fn sign<R: crate::ring::Ring, G: rand_core::RngCore + rand_core::CryptoRng>(
        &self,
        ring: &R,
        rng: &mut G,
        challenges: &mut Vec<CurveScalar>,
        responses: &mut Vec<CurveScalar>,
    ) -> (r: Result<KeyImage, Error>)
        ensures
            match self.spec_sign_refusal(ring, old(challenges)@.len(), old(responses)@.len()) {
                Some(e) => r == Err::<KeyImage, Error>(e),
                None => exists|alpha_0: nat, alpha_1: nat, decoys: Seq<nat>|
                    decoys.len() == 2 * self.ring_size && #[trigger] self.spec_outcome(
                        crate::ring::ring_entries(ring),
                        alpha_0,
                        alpha_1,
                        decoys,
                        r,
                        scalar_values(final(challenges)@),
                        scalar_values(final(responses)@),
                    ),
            },
            r is Err ==> all_zero(final(challenges)@) && all_zero(final(responses)@),
            self.spec_sign_refusal(ring, old(challenges)@.len(), old(responses)@.len()) is Some
                ==> *final(rng) == *old(rng),
            r is Ok ==> is_point(r.unwrap()@) && point_log(r.unwrap()@) == spec_key_image(
                self.onetime_private_key@,
            ),
    {
        match self.check(ring, challenges, responses) {
            Ok(()) => {},
            Err(e) => {
                return Err(e);
            },
        }
        let mut c: Vec<CurveScalar> = Vec::new();
        let mut r: Vec<CurveScalar> = Vec::new();
        core::mem::swap(challenges, &mut c);
        core::mem::swap(responses, &mut r);

        // Setup signing context
        let ctx = match MlsagSignCtx::init(self, rng, c, r) {
            Ok(ctx) => ctx,
            Err(e) => {
                return Err(e);
            },
        };
        let ghost (alpha_0, alpha_1, decoys) = choose|alpha_0: nat, alpha_1: nat, decoys: Seq<nat>|
            decoys.len() == 2 * self.ring_size && ctx@ == #[trigger] self.spec_initial(
                alpha_0,
                alpha_1,
                decoys,
            );
        self.run(ring, ctx, challenges, responses, Ghost(alpha_0), Ghost(alpha_1), Ghost(decoys))
    }

    /// Sign a ring of input addresses and amount commitments using a modified
    /// MLSAG, with the two nonces given and the decoy responses already in
    /// `responses`.
    ///
    /// Returns the signed key image; the challenges and the responses are left
    /// in the two buffers, the challenge `c_zero` first among the challenges.
    /// After a failure the two buffers hold nothing but zeros.
    pub fn sign_with<R: crate::ring::Ring>(
        &self,
        ring: &R,
        alpha_0: CurveScalar,
        alpha_1: CurveScalar,
        challenges: &mut Vec<CurveScalar>,
        responses: &mut Vec<CurveScalar>,
    ) -> (r: Result<KeyImage, Error>)
        ensures
            match self.spec_sign_refusal(ring, old(challenges)@.len(), old(responses)@.len()) {
                Some(e) => r == Err::<KeyImage, Error>(e),
                None => self.spec_outcome(
                    crate::ring::ring_entries(ring),
                    alpha_0@,
                    alpha_1@,
                    scalar_values(old(responses)@),
                    r,
                    scalar_values(final(challenges)@),
                    scalar_values(final(responses)@),
                ),
            },
            r is Err ==> all_zero(final(challenges)@) && all_zero(final(responses)@),
            r is Ok ==> is_point(r.unwrap()@) && point_log(r.unwrap()@) == spec_key_image(
                self.onetime_private_key@,
            ),
    {
        match self.check(ring, challenges, responses) {
            Ok(()) => {},
            Err(e) => {
                return Err(e);
            },
        }
        let ghost decoys = scalar_values(responses@);
        let mut c: Vec<CurveScalar> = Vec::new();
        let mut r: Vec<CurveScalar> = Vec::new();
        core::mem::swap(challenges, &mut c);
        core::mem::swap(responses, &mut r);

        // Setup signing context
        let ctx = match MlsagSignCtx::init_with(self, alpha_0, alpha_1, c, r) {
            Ok(ctx) => ctx,
            Err(e) => {
                return Err(e);
            },
        };
        self.run(ring, ctx, challenges, responses, Ghost(alpha_0@), Ghost(alpha_1@), Ghost(decoys))
    }

    /// The checks that come before any round. On a failure both buffers are
    /// overwritten with zero; else they stay as they are.
    fn check<R: crate::ring::Ring>(
        &self,
        ring: &R,
        challenges: &mut Vec<CurveScalar>,
        responses: &mut Vec<CurveScalar>,
    ) -> (r: Result<(), Error>)
        ensures
            match self.spec_sign_refusal(ring, old(challenges)@.len(), old(responses)@.len()) {
                Some(e) => r == Err::<(), Error>(e) && all_zero(final(challenges)@) && all_zero(
                    final(responses)@,
                ),
                None => r is Ok && final(challenges)@ == old(challenges)@ && final(responses)@
                    == old(responses)@,
            },
    {
        let ring_size = ring.size();
        let failure = if ring_size > MAX_TXOUTS {
            Some(Error::LengthMismatch(ring_size, MAX_TXOUTS))
        } else if self.real_index >= ring_size {
            Some(Error::IndexOutOfBounds)
        } else if challenges.len() != ring_size {
            // `challenges` must contain `ring_size` elements.
            Some(Error::LengthMismatch(ring_size, challenges.len()))
        } else if responses.len() != 2 * ring_size {
            // `responses` must contain `2 * ring_size` elements.
            Some(Error::LengthMismatch(2 * ring_size, responses.len()))
        } else {
            // Ring must decompress.
            match crate::ring::check_ring(ring) {
                Err(e) => Some(e),
                Ok(()) => {
                    if self.ring_size > MAX_TXOUTS {
                        Some(Error::LengthMismatch(self.ring_size, MAX_TXOUTS))
                    } else if self.ring_size != ring_size {
                        Some(Error::LengthMismatch(self.ring_size, challenges.len()))
                    } else {
                        None
                    }
                },
            }
        };
        match failure {
            Some(e) => {
                crate::curve_scalar::zeroize_all(challenges);
                crate::curve_scalar::zeroize_all(responses);
                Err(e)
            },
            None => Ok(()),
        }
    }

    /// The rounds around the ring, starting at the real index, then the
    /// closing of the loop; the challenges and the responses of the context are
    /// copied to `challenges` and `responses`, which come in empty.
    fn run<R: crate::ring::Ring>(
        &self,
        ring: &R,
        ctx: MlsagSignCtx,
        challenges: &mut Vec<CurveScalar>,
        responses: &mut Vec<CurveScalar>,
        Ghost(alpha_0): Ghost<nat>,
        Ghost(alpha_1): Ghost<nat>,
        Ghost(decoys): Ghost<Seq<nat>>,
    ) -> (r: Result<KeyImage, Error>)
        requires
            ring.spec_size() == self.ring_size,
            crate::ring::ring_decompresses(ring),
            ctx@ == self.spec_initial(alpha_0, alpha_1, decoys),
            ctx@.wf(),
            old(challenges)@.len() == 0,
            old(responses)@.len() == 0,
        ensures
            self.spec_outcome(
                crate::ring::ring_entries(ring),
                alpha_0,
                alpha_1,
                decoys,
                r,
                scalar_values(final(challenges)@),
                scalar_values(final(responses)@),
            ),
            r is Err ==> all_zero(final(challenges)@) && all_zero(final(responses)@),
            r is Ok ==> is_point(r.unwrap()@) && point_log(r.unwrap()@) == spec_key_image(
                self.onetime_private_key@,
            ),
    {
        let mut ctx = ctx;
        let ring_size = ring.size();
        let ghost entries = crate::ring::ring_entries(ring);
        let ghost start = ctx@;
        proof {
            use_type_invariant(&ctx);
        }

        // Iterate around the ring, starting at real_index.
        // NOTE: THIS REORDERING IS CRITICAL FOR PIECEWISE COMPUTATION
        let mut n: usize = 0;
        while n < ring_size
            invariant
                n <= ring_size,
                ring_size == self.ring_size,
                ring_size == ring.spec_size(),
                ring_size <= MAX_TXOUTS,
                self.real_index < ring_size,
                crate::ring::ring_decompresses(ring),
                entries == crate::ring::ring_entries(ring),
                start.wf(),
                start.ring_count == 0,
                start.ring_size == ring_size,
                start.real_index == self.real_index,
                ctx@ == start.after_rounds(self.message@, entries, n as nat),
                ctx@.ring_count == n,
                ctx@.ring_size == ring_size,
                ctx@.real_index == self.real_index,
            decreases ring_size - n,
        {
            proof {
                lemma_round_index(self.real_index as nat, n as nat, ring_size as nat);
            }
            let i = (self.real_index + n) % ring_size;
            let tx_out = match ring.index(i) {
                Ok(tx_out) => tx_out,
                Err(e) => {
                    ctx.erase();
                    return Err(e);
                },
            };
            assert(ring.spec_entry(i as int) is Some);
            assert(entries[i as int] == ring.spec_entry(i as int).unwrap());
            match ctx.update(self, i, &tx_out) {
                Ok(()) => {},
                Err(e) => {
                    ctx.erase();
                    return Err(e);
                },
            }
            n += 1;
        }

        proof {
            crate::mlsag_spec::lemma_after_rounds_keeps(
                start,
                self.message@,
                entries,
                ring_size as nat,
            );
        }
        // "Close the loop" by computing responses for the real index.
        let outcome = ctx.finalise(self);
        let signed = match outcome {
            Ok((key_image, _)) => {
                *challenges = copy_scalars(&ctx.challenges);
                *responses = copy_scalars(&ctx.responses);
                Ok(key_image)
            },
            Err(e) => Err(e),
        };
        ctx.erase();
        signed
    }
}

/// A copy of `scalars`.
fn copy_scalars(scalars: &Vec<CurveScalar>) -> (copy: Vec<CurveScalar>)
    ensures
        copy@ == scalars@,
{
    let mut copy: Vec<CurveScalar> = Vec::new();
    let mut i: usize = 0;
    while i < scalars.len()
        invariant
            i <= scalars@.len(),
            copy@ == scalars@.take(i as int),
        decreases scalars@.len() - i,
    {
        copy.push(scalars[i]);
        assert(copy@ =~= scalars@.take(i + 1));
        i += 1;
    }
    assert(scalars@.take(i as int) =~= scalars@);
    copy
}

/// Every scalar of `scalars` is zero.
pub open spec fn all_zero(scalars: Seq<CurveScalar>) -> bool {
    forall|i: int| 0 <= i < scalars.len() ==> (#[trigger] scalars[i])@ == 0
}

impl Drop for MlsagSignCtx {
    /// The two nonces are overwritten with zero.
    fn drop(&mut self)
        opens_invariants none
        no_unwind
    {
        proof {
            use_type_invariant(&*self);
        }
        self.alpha_0.zeroize();
        self.alpha_1.zeroize();
    }
}

/// With fewer rounds passed than the ring has members, the position whose turn
/// it is is the real index plus the rounds, modulo the size of the ring.
pub proof fn lemma_round_index(real_index: nat, round: nat, ring_size: nat)
    requires
        real_index < ring_size,
        round <= ring_size,
    ensures
        (real_index + round) % ring_size == round_index(real_index, round, ring_size),
        round < ring_size ==> round_index(real_index, round, ring_size) < ring_size,
{
    if real_index + round < ring_size {
        vstd::arithmetic::div_mod::lemma_small_mod(real_index + round, ring_size);
    } else {
        vstd::arithmetic::div_mod::lemma_mod_sub_multiples_vanish(
            (real_index + round) as int,
            ring_size as int,
        );
        vstd::arithmetic::div_mod::lemma_small_mod(
            (real_index + round - ring_size) as nat,
            ring_size,
        );
    }
}

/// The position after `index` is `index + 1` modulo the size of the ring.
pub proof fn lemma_next_index(index: nat, ring_size: nat)
    requires
        index < ring_size,
    ensures
        (index + 1) % ring_size == next_index(index, ring_size),
        next_index(index, ring_size) < ring_size,
{
    if index + 1 < ring_size {
        vstd::arithmetic::div_mod::lemma_small_mod(index + 1, ring_size);
    } else {
        vstd::arithmetic::div_mod::lemma_mod_self_0(ring_size as int);
    }
}

} // verus!
