//! The ring signature: a challenge, the responses, and the key image of the
//! input that was spent.
use crate::commitment::{spec_commit, Commitment, CompressedCommitment};
use crate::consts::{MAX_RESPONSES, MAX_TXOUTS};
use crate::curve_scalar::{zeroize_all, CurveScalar};
use crate::error::Error;
use crate::key_image::{spec_key_image, KeyImage};
use crate::mlsag_laws::lemma_signed_verifies;
use crate::mlsag_sign::{all_zero, challenge, lemma_next_index, scalar_values, MlsagSignParams};
use crate::mlsag_spec::{
    chain_closes, lemma_after_rounds_keeps, spec_step, verify_chain, SignatureModel,
};
use crate::onetime_keys::hash_to_point;
use crate::ring::{
    lemma_ring_members, member_entries, members_decompress, ring_decompresses, ring_entries,
    ring_members, Ring, RingEntry,
};
use crate::ristretto::{is_point, point_log, Point};
use crate::ristretto_keys::RistrettoPublic;
use vstd::prelude::*;
use vstd::std_specs::cmp::PartialEqSpecImpl;

verus! {

/// RingMLSAG Signature object
#[derive(Clone, Debug)]
pub struct RingMLSAG {
    /// The initial challenge `c[0]`.
    pub c_zero: CurveScalar,
    /// Responses `r_{0,0}, r_{0,1}, ... , r_{ring_size-1,0},
    /// r_{ring_size-1,1}`.
    pub responses: Vec<CurveScalar>,
    /// Key image "spent" by this signature.
    pub key_image: KeyImage,
}

impl View for RingMLSAG {
    type V = SignatureModel;

    open spec fn view(&self) -> SignatureModel {
        SignatureModel {
            c_zero: self.c_zero@,
            responses: scalar_values(self.responses@),
            key_image: self.key_image@,
        }
    }
}

impl PartialEq for RingMLSAG {
    /// Two signatures are equal where their challenges, their responses and
    /// their key images are.
    fn eq(&self, other: &RingMLSAG) -> (r: bool) {
        if self.c_zero != other.c_zero {
            return false;
        }
        if self.key_image != other.key_image {
            return false;
        }
        if self.responses.len() != other.responses.len() {
            assert(self@.responses.len() != other@.responses.len());
            return false;
        }
        let n = self.responses.len();
        let mut i: usize = 0;
        while i < n
            invariant
                i <= n,
                n == self.responses@.len(),
                n == other.responses@.len(),
                forall|k: int| 0 <= k < i ==> self@.responses[k] == other@.responses[k],
            decreases n - i,
        {
            if self.responses[i] != other.responses[i] {
                assert(self@.responses[i as int] != other@.responses[i as int]);
                return false;
            }
            i += 1;
        }
        assert(self@.responses =~= other@.responses);
        true
    }
}

impl Eq for RingMLSAG {

}

impl PartialEqSpecImpl for RingMLSAG {
    open spec fn obeys_eq_spec() -> bool {
        true
    }

    open spec fn eq_spec(&self, other: &RingMLSAG) -> bool {
        self@ == other@
    }
}

/// The members of `ring`, decompressed; the first member that does not
/// decompress is an `InvalidKeyImage`.
fn decompress_ring<R: Ring>(ring: &R) -> (r: Result<Vec<(RistrettoPublic, Commitment)>, Error>)
    ensures
        ring_decompresses(ring) ==> r is Ok && r.unwrap().spec_size() == ring.spec_size()
            && ring_entries(&r.unwrap()) == ring_entries(ring),
        !ring_decompresses(ring) ==> r == Err::<Vec<(RistrettoPublic, Commitment)>, Error>(
            Error::InvalidKeyImage,
        ),
{
    let ring_size = ring.size();
    let mut decompressed: Vec<(RistrettoPublic, Commitment)> = Vec::new();
    let mut i: usize = 0;
    while i < ring_size
        invariant
            i <= ring_size,
            ring_size == ring.spec_size(),
            decompressed@.len() == i,
            forall|k: int|
                0 <= k < i ==> (#[trigger] ring.spec_entry(k)) == Some(
                    RingEntry { target: decompressed@[k].0@, commitment: decompressed@[k].1@ },
                ),
        decreases ring_size - i,
    {
        match ring.index(i) {
            Ok(member) => {
                decompressed.push(member);
            },
            Err(_) => {
                assert(ring.spec_entry(i as int) is None);
                return Err(Error::InvalidKeyImage);
            },
        }
        i += 1;
    }
    proof {
        assert(ring_entries(&decompressed) =~= ring_entries(ring));
    }
    Ok(decompressed)
}

/// Every member of a decompressed ring is the identity.
spec fn all_identity(ring: Seq<(RistrettoPublic, Commitment)>) -> bool {
    forall|i: int| 0 <= i < ring.len() ==> (#[trigger] ring[i]).0@ == 0 && ring[i].1@ == 0
}

/// Overwrites every member of a decompressed ring with the identity.
fn wipe_ring(ring: &mut Vec<(RistrettoPublic, Commitment)>)
    ensures
        final(ring)@.len() == old(ring)@.len(),
        all_identity(final(ring)@),
{
    let n = ring.len();
    let mut i: usize = 0;
    while i < n
        invariant
            i <= n,
            ring@.len() == n,
            all_identity(ring@.take(i as int)),
        decreases n - i,
    {
        let ghost before = ring@;
        let mut member = ring[i];
        member.0.zeroize();
        member.1.point.zeroize();
        ring[i] = member;
        assert forall|k: int| 0 <= k < i + 1 implies (#[trigger] ring@.take(i + 1)[k]).0@ == 0
            && ring@.take(i + 1)[k].1@ == 0 by {
            if k < i {
                assert(ring@.take(i + 1)[k] == before.take(i as int)[k]);
            }
        }
        i += 1;
    }
    assert(ring@.take(n as int) =~= ring@);
}

/// A buffer of `len` scalars, all zero.
fn zeros(len: usize) -> (v: Vec<CurveScalar>)
    ensures
        v@.len() == len,
        all_zero(v@),
{
    let mut v: Vec<CurveScalar> = Vec::new();
    let mut i: usize = 0;
    while i < len
        invariant
            i <= len,
            v@.len() == i,
            all_zero(v@),
        decreases len - i,
    {
        v.push(CurveScalar::zero());
        i += 1;
    }
    v
}

impl RingMLSAG {
    /// The failure, if any, with which signing refuses `ring` and `opts`
    /// before any round.
    pub open spec fn spec_sign_refusal<R: Ring>(ring: &R, opts: &MlsagSignParams) -> Option<
        Error,
    > {
        let ring_size = ring.spec_size();
        if ring_size > MAX_TXOUTS {
            Some(Error::LengthMismatch(ring_size as usize, MAX_TXOUTS))
        } else if !ring_decompresses(ring) {
            Some(Error::InvalidKeyImage)
        } else if opts.real_index >= ring_size {
            Some(Error::IndexOutOfBounds)
        } else {
            opts.spec_refusal(ring_size, 2 * ring_size)
        }
    }

    /// Whether signing `ring` with the two nonces and the decoy responses ends
    /// in `result`: a `ValueNotConserved` where the check is asked for and
    /// fails, and else the signature of the signed state.
    pub open spec fn spec_sign_outcome(
        ring: Seq<RingEntry>,
        opts: &MlsagSignParams,
        alpha_0: nat,
        alpha_1: nat,
        decoys: Seq<nat>,
        result: Result<RingMLSAG, Error>,
    ) -> bool {
        let signed = opts.spec_signed(ring, alpha_0, alpha_1, decoys);
        if opts.check_value_is_preserved && !signed.value_conserved(opts.spec_z()) {
            result == Err::<RingMLSAG, Error>(Error::ValueNotConserved)
        } else {
            result is Ok && result.unwrap()@ == signed.signature()
        }
    }

    /// The real input is valid: the member of `ring` at the real index has the
    /// public key of the one-time private key, and the commitment to the value
    /// under the blinding of the parameters, with the basepoint as the
    /// generator of blindings.
    pub open spec fn spec_valid_real_input<R: Ring>(ring: &R, opts: &MlsagSignParams) -> bool {
        let member = ring_entries(ring)[opts.real_index as int];
        &&& opts.generator.B_blinding@ == 1
        &&& member.target == opts.onetime_private_key@
        &&& member.commitment == spec_commit(
            opts.value as nat,
            opts.blinding@,
            opts.generator.B@,
            opts.generator.B_blinding@,
        )
    }

    /// The signature passes verification of the message of `opts` over `ring`,
    /// against every encoding of the output commitment of `opts`.
    pub open spec fn spec_verifies<R: Ring>(&self, ring: &R, opts: &MlsagSignParams) -> bool {
        forall|output_commitment: Seq<u8>|
            is_point(output_commitment) && point_log(output_commitment) == opts.spec_output()
                ==> #[trigger] self.spec_verify(opts.message@, ring, output_commitment) == Ok::<
                (),
                Error,
            >(())
    }

    /// Generate a ring signature with the provided options, with nonces and
    /// decoy responses drawn from `rng`. Where signing is refused, nothing is
    /// drawn from `rng`. A generator that panics where it cannot fill a buffer
    /// panics here too.
    ///
    /// A signature that is made for a valid real input passes verification.
    pub fn sign<R: Ring, G: rand_core::RngCore + rand_core::CryptoRng>(
        ring: &R,
        opts: &MlsagSignParams,
        rng: &mut G,
    ) -> (r: Result<Self, Error>)
        ensures
            match Self::spec_sign_refusal(ring, opts) {
                Some(e) => r == Err::<Self, Error>(e),
                None => exists|alpha_0: nat, alpha_1: nat, decoys: Seq<nat>|
                    decoys.len() == 2 * opts.ring_size && #[trigger] Self::spec_sign_outcome(
                        ring_entries(ring),
                        opts,
                        alpha_0,
                        alpha_1,
                        decoys,
                        r,
                    ),
            },
            r is Ok ==> is_point(r.unwrap().key_image@) && point_log(r.unwrap().key_image@)
                == spec_key_image(opts.onetime_private_key@),
            r is Ok && Self::spec_valid_real_input(ring, opts) ==> r.unwrap().spec_verifies(
                ring,
                opts,
            ),
            Self::spec_sign_refusal(ring, opts) is Some ==> *final(rng) == *old(rng),
    {
        let ring_size = ring.size();

        // Check bounds
        if ring_size > MAX_TXOUTS {
            return Err(Error::LengthMismatch(ring_size, MAX_TXOUTS));
        }
        if ring_size * 2 > MAX_RESPONSES {
            return Err(Error::LengthMismatch(ring_size * 2, MAX_RESPONSES));
        }
        // Setup buffers for challenges and responses

        let mut challenges = zeros(ring_size);
        let mut responses = zeros(ring_size * 2);

        let decompressed_ring = match decompress_ring(ring) {
            Ok(decompressed) => decompressed,
            Err(e) => {
                return Err(e);
            },
        };

        // Perform ring signing
        let signed = opts.sign(&decompressed_ring, rng, &mut challenges, &mut responses);
        let ghost mut alpha_0 = 0nat;
        let ghost mut alpha_1 = 0nat;
        let ghost mut decoys = Seq::<nat>::empty();
        proof {
            if Self::spec_sign_refusal(ring, opts) is None {
                let (a0, a1, d) = choose|a0: nat, a1: nat, d: Seq<nat>|
                    d.len() == 2 * opts.ring_size && #[trigger] opts.spec_outcome(
                        ring_entries(ring),
                        a0,
                        a1,
                        d,
                        signed,
                        scalar_values(challenges@),
                        scalar_values(responses@),
                    );
                alpha_0 = a0;
                alpha_1 = a1;
                decoys = d;
                lemma_after_rounds_keeps(
                    opts.spec_initial(a0, a1, d),
                    opts.message@,
                    ring_entries(ring),
                    opts.ring_size as nat,
                );
            }
        }
        let key_image = match signed {
            Ok(key_image) => key_image,
            Err(e) => {
                assert(Self::spec_sign_refusal(ring, opts) is None ==> Self::spec_sign_outcome(
                    ring_entries(ring),
                    opts,
                    alpha_0,
                    alpha_1,
                    decoys,
                    Err::<Self, Error>(e),
                ));
                return Err(e);
            },
        };
        let r = RingMLSAG { c_zero: challenges[0], key_image, responses };
        assert(Self::spec_sign_outcome(
            ring_entries(ring),
            opts,
            alpha_0,
            alpha_1,
            decoys,
            Ok::<Self, Error>(r),
        ));
        proof {
            if Self::spec_valid_real_input(ring, opts) {
                lemma_signed_verifies(*opts, ring, alpha_0, alpha_1, decoys, r);
            }
        }

        // Zeroize buffers
        zeroize_all(&mut challenges);

        Ok(r)
    }

    /// Generate a ring signature with the provided options, from the two
    /// nonces and the decoy responses given: two responses for each position
    /// of the ring, of which those of the real position are not read.
    ///
    /// A signature that is made for a valid real input passes verification.
    pub fn sign_with<R: Ring>(
        ring: &R,
        opts: &MlsagSignParams,
        alpha_0: CurveScalar,
        alpha_1: CurveScalar,
        decoys: Vec<CurveScalar>,
    ) -> (r: Result<Self, Error>)
        ensures
            match Self::spec_sign_refusal(ring, opts) {
                Some(e) => r == Err::<Self, Error>(e),
                None => if decoys@.len() != 2 * ring.spec_size() {
                    r == Err::<Self, Error>(
                        Error::LengthMismatch((2 * ring.spec_size()) as usize, decoys@.len() as usize),
                    )
                } else {
                    Self::spec_sign_outcome(
                        ring_entries(ring),
                        opts,
                        alpha_0@,
                        alpha_1@,
                        scalar_values(decoys@),
                        r,
                    )
                },
            },
            r is Ok ==> is_point(r.unwrap().key_image@) && point_log(r.unwrap().key_image@)
                == spec_key_image(opts.onetime_private_key@),
            r is Ok && Self::spec_valid_real_input(ring, opts) ==> r.unwrap().spec_verifies(
                ring,
                opts,
            ),
    {
        let ring_size = ring.size();

        // Check bounds
        if ring_size > MAX_TXOUTS {
            return Err(Error::LengthMismatch(ring_size, MAX_TXOUTS));
        }
        if ring_size * 2 > MAX_RESPONSES {
            return Err(Error::LengthMismatch(ring_size * 2, MAX_RESPONSES));
        }
        let mut challenges = zeros(ring_size);
        let mut responses = decoys;

        let decompressed_ring = match decompress_ring(ring) {
            Ok(decompressed) => decompressed,
            Err(e) => {
                return Err(e);
            },
        };
        if opts.real_index >= ring_size {
            return Err(Error::IndexOutOfBounds);
        }
        match opts.check_shape(ring_size, 2 * ring_size) {
            Ok(()) => {},
            Err(e) => {
                return Err(e);
            },
        }

        if responses.len() != 2 * ring_size {
            return Err(Error::LengthMismatch(2 * ring_size, responses.len()));
        }
        proof {
            lemma_after_rounds_keeps(
                opts.spec_initial(alpha_0@, alpha_1@, scalar_values(decoys@)),
                opts.message@,
                ring_entries(ring),
                opts.ring_size as nat,
            );
        }

        // Perform ring signing
        let key_image = match opts.sign_with(
            &decompressed_ring,
            alpha_0,
            alpha_1,
            &mut challenges,
            &mut responses,
        ) {
            Ok(key_image) => key_image,
            Err(e) => {
                return Err(e);
            },
        };
        let r = RingMLSAG { c_zero: challenges[0], key_image, responses };
        proof {
            if Self::spec_valid_real_input(ring, opts) {
                lemma_signed_verifies(*opts, ring, alpha_0@, alpha_1@, scalar_values(decoys@), r);
            }
        }

        // Zeroize buffers
        zeroize_all(&mut challenges);

        Ok(r)
    }

    /// What verification of the signature answers over the members of a ring:
    /// the first failure in the order in which the checks are made, and `Ok`
    /// where the chain of challenges closes. A ring of more than eleven
    /// members is refused first; the responses are counted before any element
    /// but those of the ring is decompressed; over an empty ring, which has no
    /// chain, what is left to answer is an index error.
    pub open spec fn spec_verify_members(
        &self,
        message: Seq<u8>,
        members: Seq<Option<RingEntry>>,
        output_commitment: Seq<u8>,
    ) -> Result<(), Error> {
        let ring_size = members.len();
        if ring_size > MAX_TXOUTS {
            Err(Error::LengthMismatch(ring_size as usize, MAX_TXOUTS))
        } else if !members_decompress(members) {
            Err(Error::InvalidKeyImage)
        } else if self.responses@.len() != 2 * ring_size {
            Err(Error::LengthMismatch((2 * ring_size) as usize, self.responses@.len() as usize))
        } else if !is_point(self.key_image@) {
            Err(Error::InvalidKeyImage)
        } else if !is_point(output_commitment) {
            Err(Error::InvalidCurvePoint)
        } else if ring_size == 0 {
            Err(Error::IndexOutOfBounds)
        } else if chain_closes(
            message,
            self.key_image@,
            point_log(self.key_image@),
            point_log(output_commitment),
            member_entries(members),
            self@.responses,
            self@.c_zero,
        ) {
            Ok(())
        } else {
            Err(Error::InvalidSignature)
        }
    }

    /// What verification of the signature answers over `ring`.
    pub open spec fn spec_verify<R: Ring>(
        &self,
        message: Seq<u8>,
        ring: &R,
        output_commitment: Seq<u8>,
    ) -> Result<(), Error> {
        self.spec_verify_members(message, ring_members(ring), output_commitment)
    }

    /// Verify a ring signature with the provided options
    pub fn verify<R: Ring>(
        &self,
        message: &[u8],
        ring: &R,
        output_commitment: &CompressedCommitment,
    ) -> (r: Result<(), Error>)
        ensures
            r == self.spec_verify(message@, ring, output_commitment@),
    {
        let ring_size = ring.size();
        proof {
            lemma_ring_members(ring);
        }
        if ring_size > MAX_TXOUTS {
            return Err(Error::LengthMismatch(ring_size, MAX_TXOUTS));
        }
        // Setup buffer for recomputed challenges

        let mut recomputed_c = zeros(ring_size);

        let mut decompressed_ring = match decompress_ring(ring) {
            Ok(decompressed) => decompressed,
            Err(e) => {
                return Err(e);
            },
        };

        proof {
            lemma_ring_members(&decompressed_ring);
        }
        // Execute verification
        // (not returning here to ensure buffers get zeroized)
        let res = self.verify_decompressed(
            message,
            &decompressed_ring,
            output_commitment,
            &mut recomputed_c,
        );

        // Zeroize buffers
        zeroize_all(&mut recomputed_c);
        wipe_ring(&mut decompressed_ring);

        res
    }

    /// Walks the chain of challenges over a decompressed ring, with
    /// `recomputed_c` as the buffer of the challenges.
    fn verify_decompressed(
        &self,
        message: &[u8],
        ring: &Vec<(RistrettoPublic, Commitment)>,
        output_commitment: &CompressedCommitment,
        recomputed_c: &mut Vec<CurveScalar>,
    ) -> (r: Result<(), Error>)
        requires
            ring@.len() <= MAX_TXOUTS,
            old(recomputed_c)@.len() == ring@.len(),
        ensures
            r == self.spec_verify(message@, ring, output_commitment@),
            final(recomputed_c)@.len() == old(recomputed_c)@.len(),
    {
        let ring_size = ring.len();
        proof {
            lemma_ring_members(ring);
        }
        // `responses` must contain `2 * ring_size` elements.
        if self.responses.len() != 2 * ring_size {
            return Err(Error::LengthMismatch(2 * ring_size, self.responses.len()));
        }
        let g = Point::basepoint();

        // Key image must decompress.
        let image = match Point::decompress(self.key_image.as_bytes()) {
            Some(p) => p,
            None => {
                return Err(Error::InvalidKeyImage);
            },
        };

        // Output commitment must decompress.
        let output = match Commitment::try_from(output_commitment) {
            Ok(c) => c,
            Err(e) => {
                return Err(e);
            },
        };

        // An empty ring has no chain to walk
        if ring_size == 0 {
            return Err(Error::IndexOutOfBounds);
        }
        let ghost entries = ring_entries(ring);
        let ghost responses = self@.responses;
        let mut i: usize = 0;
        while i < ring_size
            invariant
                i <= ring_size,
                0 < ring_size <= MAX_TXOUTS,
                ring_size == ring@.len(),
                recomputed_c@.len() == ring_size,
                self.responses@.len() == 2 * ring_size,
                entries == ring_entries(ring),
                responses == self@.responses,
                g@ == 1,
                image@ == point_log(self.key_image@),
                output@ == point_log(output_commitment@),
                0 < i < ring_size ==> recomputed_c@[i as int]@ == verify_chain(
                    message@,
                    self.key_image@,
                    image@,
                    output@,
                    entries,
                    responses,
                    self@.c_zero,
                    i as nat,
                ),
                i == ring_size ==> recomputed_c@[0]@ == verify_chain(
                    message@,
                    self.key_image@,
                    image@,
                    output@,
                    entries,
                    responses,
                    self@.c_zero,
                    i as nat,
                ),
            decreases ring_size - i,
        {
            let c_i = if i == 0 {
                self.c_zero
            } else {
                recomputed_c[i]
            };
            let public_key = &ring[i].0;
            let input_commitment = &ring[i].1;
            let hashed = hash_to_point(public_key);
            assert(entries[i as int] == RingEntry {
                target: ring@[i as int].0@,
                commitment: ring@[i as int].1@,
            });
            assert(responses[2 * i as int] == self.responses@[2 * i as int]@);
            assert(responses[2 * i as int + 1] == self.responses@[2 * i as int + 1]@);

            let l0 = g.mul(&self.responses[2 * i]).add(&public_key.point().mul(&c_i));
            let r0 = hashed.mul(&self.responses[2 * i]).add(&image.mul(&c_i));
            let zero_commitment = output.point.sub(&input_commitment.point);
            let l1 = g.mul(&self.responses[2 * i + 1]).add(&zero_commitment.mul(&c_i));

            proof {
                lemma_next_index(i as nat, ring_size as nat);
                assert(verify_chain(
                    message@,
                    self.key_image@,
                    image@,
                    output@,
                    entries,
                    responses,
                    self@.c_zero,
                    (i + 1) as nat,
                ) == spec_step(
                    message@,
                    self.key_image@,
                    image@,
                    output@,
                    entries[i as int],
                    responses[2 * i as int],
                    responses[2 * i as int + 1],
                    verify_chain(
                        message@,
                        self.key_image@,
                        image@,
                        output@,
                        entries,
                        responses,
                        self@.c_zero,
                        i as nat,
                    ),
                ));
            }
            recomputed_c[(i + 1) % ring_size] = challenge(message, &self.key_image, &l0, &r0, &l1);
            i += 1;
        }

        if self.c_zero == recomputed_c[0] {
            Ok(())
        } else {
            Err(Error::InvalidSignature)
        }
    }
}

} // verus!
