//! A signed contingent input: a transaction fragment that its signer hands to
//! a counterparty, who may build it into a transaction.
use crate::amount::{Amount, OutputSecret, TokenId, UnmaskedAmount};
use crate::commitment::{spec_commit, spec_generator, CompressedCommitment};
use crate::error::Error;
use crate::key_image::KeyImage;
use crate::mlsag::RingMLSAG;
use crate::mlsag_tamper::{
    lemma_another_commitment_needs_a_collision, step_collides, walk_over,
};
use crate::ring::{ReducedTxOut, RingEntry};
use crate::ring_ct::{spec_reduced_ring, GeneratorCache, PresignedInputRing, SignedInputRing};
use crate::ristretto::point_of;
use crate::tx::{
    AmountError, InputRules, RevealedTxOut, RevealedTxOutError, TxIn, TxOut, TxOutConversionError,
};
use vstd::prelude::*;
use vstd::std_specs::convert::FromSpecImpl;

verus! {

/// An error which can occur when validating a signed contingent input
#[derive(Clone, Copy, Debug, PartialEq, Eq, Structural)]
pub enum SignedContingentInputError {
    /// The number of required outputs did not match to the number of amounts
    WrongNumberOfRequiredOutputAmounts,
    /// The number of global indices did not match the number of inputs
    WrongNumberOfGlobalIndices,
    /// The amount of a required output was incorrect
    RequiredOutputMismatch,
    /// Input rules are missing
    MissingRules,
    /// Proofs of membership are missing
    MissingProofs,
    /// Invalid Ring signature
    RingSignature(Error),
    /// TxOut conversion
    TxOutConversion(TxOutConversionError),
    /// Partial fill input not allowed with this API
    PartialFillInputNotAllowedHere,
    /// Missing partial fill change output
    MissingPartialFillChange,
    /// Index out of bounds
    IndexOutOfBounds,
    /// Fractional change amount was zero
    ZeroPartialFillChange,
    /// Min partial fill value exceeds partial fill change
    MinPartialFillValueExceedsPartialChange,
    /// Token id mismatch
    TokenIdMismatch,
    /// Change value exceeded limit imposed by input rules
    ChangeLimitExceeded,
    /// Revealing TxOut
    RevealedTxOut(RevealedTxOutError),
    /// Block version mismatch: the version found, then the version expected
    BlockVersionMismatch(u32, u32),
    /// Amount
    Amount(AmountError),
}

/// The wire form of the commitment that an unmasked amount discloses.
pub open spec fn spec_disclosed_commitment(amount: UnmaskedAmount) -> Seq<u8> {
    point_of(spec_commit(amount.value as nat, amount.blinding@, spec_generator(amount.token_id), 1))
}

/// What the check of the required outputs from `from` on answers: the first
/// output without a masked amount, or whose commitment is not the one that its
/// amount discloses, fails it.
pub open spec fn spec_required_outputs(
    amounts: Seq<UnmaskedAmount>,
    outputs: Seq<TxOut>,
    from: int,
) -> Result<(), SignedContingentInputError>
    decreases amounts.len() - from,
{
    if from < 0 || from >= amounts.len() || from >= outputs.len() {
        Ok(())
    } else {
        match outputs[from].masked_amount {
            None => Err(
                SignedContingentInputError::TxOutConversion(
                    TxOutConversionError::UnknownMaskedAmountVersion,
                ),
            ),
            Some(masked) => if spec_disclosed_commitment(amounts[from])
                != masked.spec_commitment()@ {
                Err(SignedContingentInputError::RequiredOutputMismatch)
            } else {
                spec_required_outputs(amounts, outputs, from + 1)
            },
        }
    }
}

/// What the check of the partial fill outputs from `from` on answers: the
/// first output whose amount cannot be revealed fails it.
pub open spec fn spec_partial_fill_outputs(outputs: Seq<RevealedTxOut>, from: int) -> Result<
    (),
    SignedContingentInputError,
>
    decreases outputs.len() - from,
{
    if from < 0 || from >= outputs.len() {
        Ok(())
    } else {
        match outputs[from].spec_reveal() {
            Err(e) => Err(SignedContingentInputError::RevealedTxOut(e)),
            Ok(_) => spec_partial_fill_outputs(outputs, from + 1),
        }
    }
}

/// What the check of the partial fill rules answers. With a change output:
/// its amount must be revealed, must not be zero and must not be less than the
/// least fill value, and every partial fill output must reveal its amount.
/// Without one: there must be no partial fill output and no least fill value.
pub open spec fn spec_partial_fill(rules: InputRules) -> Result<(), SignedContingentInputError> {
    match rules.partial_fill_change {
        Some(change) => match change.spec_reveal() {
            Err(e) => Err(SignedContingentInputError::RevealedTxOut(e)),
            Ok(revealed) => if revealed.0.value == 0 {
                Err(SignedContingentInputError::ZeroPartialFillChange)
            } else if rules.min_partial_fill_value > revealed.0.value {
                Err(SignedContingentInputError::MinPartialFillValueExceedsPartialChange)
            } else {
                spec_partial_fill_outputs(rules.partial_fill_outputs@, 0)
            },
        },
        None => if rules.partial_fill_outputs@.len() != 0 || rules.min_partial_fill_value != 0 {
            Err(SignedContingentInputError::MissingPartialFillChange)
        } else {
            Ok(())
        },
    }
}

/// A signed contingent input is a "transaction fragment" which can be
/// incorporated into a transaction signed by a counterparty.
#[derive(Clone, Debug)]
pub struct SignedContingentInput {
    /// The block version rules we used when making the signature
    pub block_version: u32,
    /// The tx_in which was signed over
    pub tx_in: TxIn,
    /// The Ring MLSAG signature, conferring spending authority
    pub mlsag: RingMLSAG,
    /// The amount and blinding of the pseudo-output of the MLSAG
    pub pseudo_output_amount: UnmaskedAmount,
    /// The amount and blinding of any TxOut required by the input rules
    pub required_output_amounts: Vec<UnmaskedAmount>,
    /// The tx_out global index of each ring member
    /// This helps the recipient of this payload construct proofs of membership
    /// for the ring
    pub tx_out_global_indices: Vec<u64>,
}

impl SignedContingentInput {
    /// What validation answers: the first failure in the order of the checks.
    ///
    /// * The number of global indices is the number of ring members.
    /// * The input carries rules, whose digest is the message of the
    ///   signature.
    /// * Every ring member carries a masked amount.
    /// * The signature verifies over the ring, against the commitment that the
    ///   pseudo-output amount discloses.
    /// * The required outputs are as many as the amounts disclosed for them,
    ///   and each carries the commitment that its amount discloses.
    /// * The partial fill rules agree with each other.
    pub open spec fn spec_validate(self) -> Result<(), SignedContingentInputError> {
        if self.tx_out_global_indices@.len() != self.tx_in.ring@.len() {
            Err(SignedContingentInputError::WrongNumberOfGlobalIndices)
        } else {
            match self.tx_in.input_rules {
                None => Err(SignedContingentInputError::MissingRules),
                Some(rules) => match spec_reduced_ring(self.tx_in.ring@) {
                    None => Err(
                        SignedContingentInputError::TxOutConversion(
                            TxOutConversionError::UnknownMaskedAmountVersion,
                        ),
                    ),
                    Some(members) => match self.spec_verify(rules, members) {
                        Err(e) => Err(SignedContingentInputError::RingSignature(e)),
                        Ok(_) => if self.required_output_amounts@.len()
                            != rules.required_outputs@.len() {
                            Err(SignedContingentInputError::WrongNumberOfRequiredOutputAmounts)
                        } else {
                            match spec_required_outputs(
                                self.required_output_amounts@,
                                rules.required_outputs@,
                                0,
                            ) {
                                Err(e) => Err(e),
                                Ok(_) => spec_partial_fill(rules),
                            }
                        },
                    },
                },
            }
        }
    }

    /// What verification of the signature answers, with the digest of `rules`
    /// as the message, over the ring `members`, against the commitment that the
    /// pseudo-output amount discloses.
    pub open spec fn spec_verify(self, rules: InputRules, members: Seq<ReducedTxOut>) -> Result<
        (),
        Error,
    > {
        self.mlsag.spec_verify_members(
            rules.digest@,
            Seq::new(members.len(), |i: int| members[i].spec_entry()),
            spec_disclosed_commitment(self.pseudo_output_amount),
        )
    }

    /// The key image of the input which has been signed. If this key image
    /// appears already in the ledger, then the signed contingent input is
    /// no longer valid.
    pub fn key_image(&self) -> (image: KeyImage)
        ensures
            image == self.mlsag.key_image,
    {
        self.mlsag.key_image
    }

    /// Validation checks that a signed contingent input is well-formed.
    ///
    /// * The ring MLSAG actually signs the pseudo-output as claimed
    /// * The required output amounts actually correspond to the required
    ///   outputs
    ///
    /// Note: This does not check any other rules like tombstone block, or
    /// confirm proofs of membership, which are normally added only when this
    /// is incorporated into a transaction
    #[verifier::loop_isolation(false)]
    pub fn validate(&self) -> (r: Result<(), SignedContingentInputError>)
        ensures
            r == self.spec_validate(),
    {
        if self.tx_out_global_indices.len() != self.tx_in.ring.len() {
            return Err(SignedContingentInputError::WrongNumberOfGlobalIndices);
        }
        let mut generator_cache = GeneratorCache::default();
        let generator = generator_cache.get(TokenId::from(self.pseudo_output_amount.token_id));

        let pseudo_output = CompressedCommitment::new(
            self.pseudo_output_amount.value,
            self.pseudo_output_amount.blinding,
            &generator,
        );

        let rules_digest = match self.tx_in.signed_digest() {
            Some(digest) => digest,
            None => {
                return Err(SignedContingentInputError::MissingRules);
            },
        };

        let signed_input_ring = match SignedInputRing::try_from(&self.tx_in) {
            Ok(ring) => ring,
            Err(e) => {
                return Err(SignedContingentInputError::from(e));
            },
        };

        match self.mlsag.verify(rules_digest.as_slice(), &signed_input_ring.members, &pseudo_output) {
            Ok(()) => {},
            Err(e) => {
                proof {
                    assert(crate::ring::ring_members(&signed_input_ring.members) =~= Seq::new(
                        signed_input_ring.members@.len(),
                        |i: int| signed_input_ring.members@[i].spec_entry(),
                    ));
                }
                return Err(SignedContingentInputError::from(e));
            },
        }
        proof {
            assert(crate::ring::ring_members(&signed_input_ring.members) =~= Seq::new(
                signed_input_ring.members@.len(),
                |i: int| signed_input_ring.members@[i].spec_entry(),
            ));
        }

        if let Some(rules) = &self.tx_in.input_rules {
            if self.required_output_amounts.len() != rules.required_outputs.len() {
                return Err(SignedContingentInputError::WrongNumberOfRequiredOutputAmounts);
            }
            // Check that required outputs match their claimed amounts

            let count = rules.required_outputs.len();
            let mut i: usize = 0;
            while i < count
                invariant
                    i <= count,
                    count == rules.required_outputs@.len(),
                    count == self.required_output_amounts@.len(),
                    spec_required_outputs(
                        self.required_output_amounts@,
                        rules.required_outputs@,
                        0,
                    ) == spec_required_outputs(
                        self.required_output_amounts@,
                        rules.required_outputs@,
                        i as int,
                    ),
                decreases count - i,
            {
                let amount = &self.required_output_amounts[i];
                let output = &rules.required_outputs[i];
                let generator = generator_cache.get(TokenId::from(amount.token_id));

                let expected_commitment = CompressedCommitment::new(
                    amount.value,
                    amount.blinding,
                    &generator,
                );
                let masked = match output.get_masked_amount() {
                    Ok(masked) => masked,
                    Err(e) => {
                        return Err(SignedContingentInputError::from(e));
                    },
                };
                if expected_commitment != *masked.commitment() {
                    return Err(SignedContingentInputError::RequiredOutputMismatch);
                }
                i += 1;
            }

            // Check that partial fill rule specs look correct
            if let Some(partial_fill_change) = rules.partial_fill_change.as_ref() {
                let amount = match partial_fill_change.reveal_amount() {
                    Ok(revealed) => revealed.0,
                    Err(e) => {
                        return Err(SignedContingentInputError::from(e));
                    },
                };
                if amount.value == 0 {
                    return Err(SignedContingentInputError::ZeroPartialFillChange);
                }
                // If the min fill value exceeds the fractional change, the SCI is ill-formed

                if rules.min_partial_fill_value > amount.value {
                    return Err(
                        SignedContingentInputError::MinPartialFillValueExceedsPartialChange,
                    );
                }
                // Check that each output can actually be revealed

                let outputs = rules.partial_fill_outputs.len();
                let mut k: usize = 0;
                while k < outputs
                    invariant
                        k <= outputs,
                        outputs == rules.partial_fill_outputs@.len(),
                        spec_partial_fill_outputs(rules.partial_fill_outputs@, 0)
                            == spec_partial_fill_outputs(rules.partial_fill_outputs@, k as int),
                    decreases outputs - k,
                {
                    match rules.partial_fill_outputs[k].reveal_amount() {
                        Ok(_) => {},
                        Err(e) => {
                            return Err(SignedContingentInputError::from(e));
                        },
                    }
                    k += 1;
                }
            } else if rules.partial_fill_outputs.len() != 0 || rules.min_partial_fill_value != 0 {
                return Err(SignedContingentInputError::MissingPartialFillChange);
            }
        }
        Ok(())
    }
}

impl From<SignedContingentInput> for PresignedInputRing {
    /// The presigned input ring that final transaction assembly consumes.
    fn from(src: SignedContingentInput) -> (ring: PresignedInputRing) {
        PresignedInputRing {
            mlsag: src.mlsag,
            pseudo_output_secret: OutputSecret::from(src.pseudo_output_amount),
        }
    }
}

impl FromSpecImpl<SignedContingentInput> for PresignedInputRing {
    open spec fn obeys_from_spec() -> bool {
        true
    }

    open spec fn from_spec(src: SignedContingentInput) -> PresignedInputRing {
        PresignedInputRing {
            mlsag: src.mlsag,
            pseudo_output_secret: OutputSecret {
                amount: Amount {
                    value: src.pseudo_output_amount.value,
                    token_id: TokenId(src.pseudo_output_amount.token_id),
                },
                blinding: src.pseudo_output_amount.blinding,
            },
        }
    }
}

impl From<Error> for SignedContingentInputError {
    fn from(src: Error) -> (e: Self) {
        Self::RingSignature(src)
    }
}

impl FromSpecImpl<Error> for SignedContingentInputError {
    open spec fn obeys_from_spec() -> bool {
        true
    }

    open spec fn from_spec(src: Error) -> Self {
        Self::RingSignature(src)
    }
}

impl From<TxOutConversionError> for SignedContingentInputError {
    fn from(src: TxOutConversionError) -> (e: Self) {
        Self::TxOutConversion(src)
    }
}

impl FromSpecImpl<TxOutConversionError> for SignedContingentInputError {
    open spec fn obeys_from_spec() -> bool {
        true
    }

    open spec fn from_spec(src: TxOutConversionError) -> Self {
        Self::TxOutConversion(src)
    }
}

impl From<RevealedTxOutError> for SignedContingentInputError {
    fn from(src: RevealedTxOutError) -> (e: Self) {
        Self::RevealedTxOut(src)
    }
}

impl FromSpecImpl<RevealedTxOutError> for SignedContingentInputError {
    open spec fn obeys_from_spec() -> bool {
        true
    }

    open spec fn from_spec(src: RevealedTxOutError) -> Self {
        Self::RevealedTxOut(src)
    }
}

impl From<AmountError> for SignedContingentInputError {
    fn from(src: AmountError) -> (e: Self) {
        Self::Amount(src)
    }
}

impl FromSpecImpl<AmountError> for SignedContingentInputError {
    open spec fn obeys_from_spec() -> bool {
        true
    }

    open spec fn from_spec(src: AmountError) -> Self {
        Self::Amount(src)
    }
}

/// Partial-fill consistency: rules that name a least fill value above zero
/// but no change output fail with the missing-change error; rules whose change
/// output reveals a value of zero fail with the zero-change error.
pub proof fn lemma_partial_fill_consistency(rules: InputRules)
    ensures
        rules.partial_fill_change is None && rules.min_partial_fill_value > 0
            ==> spec_partial_fill(rules) == Err::<(), SignedContingentInputError>(
            SignedContingentInputError::MissingPartialFillChange,
        ),
        rules.partial_fill_change is Some && rules.partial_fill_change.unwrap().spec_reveal() is Ok
            && rules.partial_fill_change.unwrap().spec_reveal().unwrap().0.value == 0
            ==> spec_partial_fill(rules) == Err::<(), SignedContingentInputError>(
            SignedContingentInputError::ZeroPartialFillChange,
        ),
{
}

/// A signed contingent input whose global indices, rules, ring, signature and
/// required outputs pass is answered as its partial fill rules are.
pub proof fn lemma_validation_ends_with_partial_fill(input: SignedContingentInput)
    requires
        input.tx_out_global_indices@.len() == input.tx_in.ring@.len(),
        input.tx_in.input_rules is Some,
        spec_reduced_ring(input.tx_in.ring@) is Some,
        input.spec_verify(
            input.tx_in.input_rules.unwrap(),
            spec_reduced_ring(input.tx_in.ring@).unwrap(),
        ) is Ok,
        input.required_output_amounts@.len()
            == input.tx_in.input_rules.unwrap().required_outputs@.len(),
        spec_required_outputs(
            input.required_output_amounts@,
            input.tx_in.input_rules.unwrap().required_outputs@,
            0,
        ) is Ok,
    ensures
        input.spec_validate() == spec_partial_fill(input.tx_in.input_rules.unwrap()),
{
}

/// The members of the ring of a signed contingent input, as verification
/// reads them.
pub open spec fn spec_ring_members(input: SignedContingentInput) -> Seq<Option<RingEntry>> {
    let members = spec_reduced_ring(input.tx_in.ring@).unwrap();
    Seq::new(members.len(), |i: int| members[i].spec_entry())
}

/// The disclosed pseudo-output amount is what the signature signs: where a
/// signed contingent input is valid, and stays valid with another amount
/// disclosed for its pseudo-output, whose commitment has another encoding,
/// there the step of the challenge chain gives one challenge for two different
/// inputs. But for such a collision, an input with a changed amount fails at
/// the verification of its signature.
pub proof fn lemma_disclosed_amount_is_signed(
    input: SignedContingentInput,
    changed: SignedContingentInput,
)
    requires
        input.spec_validate() == Ok::<(), SignedContingentInputError>(()),
        changed.spec_validate() == Ok::<(), SignedContingentInputError>(()),
        changed.tx_in == input.tx_in,
        changed.mlsag == input.mlsag,
        spec_disclosed_commitment(changed.pseudo_output_amount) != spec_disclosed_commitment(
            input.pseudo_output_amount,
        ),
    ensures
        step_collides(
            walk_over(
                input.mlsag,
                input.tx_in.input_rules.unwrap().digest@,
                spec_ring_members(input),
                spec_disclosed_commitment(input.pseudo_output_amount),
            ),
            walk_over(
                input.mlsag,
                input.tx_in.input_rules.unwrap().digest@,
                spec_ring_members(input),
                spec_disclosed_commitment(changed.pseudo_output_amount),
            ),
        ),
{
    lemma_another_commitment_needs_a_collision(
        input.mlsag,
        input.tx_in.input_rules.unwrap().digest@,
        spec_ring_members(input),
        spec_disclosed_commitment(input.pseudo_output_amount),
        spec_disclosed_commitment(changed.pseudo_output_amount),
    );
}

} // verus!
