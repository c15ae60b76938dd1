//! The summary of a transaction: what a device that signs it needs to see of
//! its inputs and outputs.
use crate::bytes::equal32;
use crate::commitment::CompressedCommitment;
use crate::ristretto_keys::CompressedRistrettoPublic;
use crate::tx::{spec_key_pairs, MaskedAmount, MaskedAmountModel, TxIn, TxOut, TxPrefix};
use vstd::prelude::*;

verus! {

/// The failure of pairing two lists of different lengths: the length of the
/// first, then that of the second.
#[derive(Clone, Copy, Debug, PartialEq, Eq, Structural)]
pub enum ZipExactError {
    /// The two lists have different lengths.
    LengthMismatch(usize, usize),
}

/// A subset of the data of a TxOut.
///
/// Fog hint and memo are omitted to reduce size and complexity on HW device,
/// which can't really do much with those and isn't very interested in them
/// anyways.
#[derive(Clone, Debug)]
pub struct TxOutSummary {
    /// The amount being sent.
    pub masked_amount: Option<MaskedAmount>,
    /// The one-time public address of this output.
    pub target_key: CompressedRistrettoPublic,
    /// The per output tx public key
    pub public_key: CompressedRistrettoPublic,
    /// Whether or not this output is associated to an input with rules
    pub associated_to_input_rules: bool,
}

/// Data in a TxSummary associated to a transaction input.
///
/// This includes only the pseudo output commitment and the InputRules if any,
/// omitting the Ring and the proofs of membership.
#[derive(Clone, Debug)]
pub struct TxInSummary {
    /// Commitment of value equal to the real input.
    pub pseudo_output_commitment: CompressedCommitment,
    /// If there are input rules associated to this input, the canonical digest
    /// of these. If not, then this field is empty.
    pub input_rules_digest: Vec<u8>,
}

/// A subset of the data in a Tx which enables efficient verification (e.g. by a
/// HW wallet) of the inputs and outputs of a transaction being signed.
#[derive(Clone, Debug)]
pub struct TxSummary {
    /// The outputs which will be added to the blockchain as a result of this
    /// transaction
    pub outputs: Vec<TxOutSummary>,
    /// Data in the summary associated to each real input
    pub inputs: Vec<TxInSummary>,
    /// Fee paid to the foundation for this transaction
    pub fee: u64,
    /// Token id for the fee output of this transaction
    pub fee_token_id: u64,
    /// The block index at which this transaction is no longer valid.
    pub tombstone_block: u64,
}

/// The keys of the outputs that are associated to the rules of the first
/// `count` inputs, in the order of the inputs.
pub open spec fn spec_associated_keys(inputs: Seq<TxIn>, count: int) -> Seq<(Seq<u8>, Seq<u8>)>
    decreases count,
{
    if count <= 0 {
        Seq::empty()
    } else {
        spec_associated_keys(inputs, count - 1) + match inputs[count - 1].input_rules {
            Some(rules) => rules.spec_associated_keys(),
            None => Seq::empty(),
        }
    }
}

/// Whether an output with the given keys is associated to input rules: of
/// the associated outputs with its public key, the last one has its target
/// key.
pub open spec fn spec_is_associated(
    associated: Seq<(Seq<u8>, Seq<u8>)>,
    public_key: Seq<u8>,
    target_key: Seq<u8>,
) -> bool
    decreases associated.len(),
{
    if associated.len() == 0 {
        false
    } else if associated.last().0 == public_key {
        associated.last().1 == target_key
    } else {
        spec_is_associated(associated.drop_last(), public_key, target_key)
    }
}

/// The digest that the summary of an input carries: that of its rules, and
/// nothing where it has none.
pub open spec fn spec_rules_digest(input: TxIn) -> Seq<u8> {
    match input.input_rules {
        Some(rules) => rules.digest@,
        None => Seq::empty(),
    }
}

/// The model of the masked amount of an output, if it has one.
pub open spec fn spec_masked_amount(masked_amount: Option<MaskedAmount>) -> Option<
    MaskedAmountModel,
> {
    match masked_amount {
        Some(masked) => Some(masked@),
        None => None,
    }
}

/// Whether an output with the given keys is associated to input rules.
fn is_associated(
    associated: &Vec<(CompressedRistrettoPublic, CompressedRistrettoPublic)>,
    public_key: &CompressedRistrettoPublic,
    target_key: &CompressedRistrettoPublic,
) -> (r: bool)
    ensures
        r == spec_is_associated(spec_key_pairs(associated@), public_key@, target_key@),
{
    let ghost pairs = spec_key_pairs(associated@);
    let mut i: usize = associated.len();
    assert(pairs.take(i as int) =~= pairs);
    while i > 0
        invariant
            i <= associated@.len(),
            pairs == spec_key_pairs(associated@),
            spec_is_associated(pairs, public_key@, target_key@) == spec_is_associated(
                pairs.take(i as int),
                public_key@,
                target_key@,
            ),
        decreases i,
    {
        let entry = &associated[i - 1];
        proof {
            let prefix = pairs.take(i as int);
            assert(prefix.last() == pairs[i - 1]);
            assert(prefix.drop_last() =~= pairs.take(i - 1));
        }
        if equal32(&entry.0.bytes, &public_key.bytes) {
            return equal32(&entry.1.bytes, &target_key.bytes);
        }
        i -= 1;
    }
    assert(pairs.take(0) =~= Seq::<(Seq<u8>, Seq<u8>)>::empty());
    false
}

impl TxSummary {
    /// Make a TxSummary for a given TxPrefix and pseudo-output commitments
    pub fn new(tx_prefix: &TxPrefix, pseudo_output_commitments: &[CompressedCommitment]) -> (r:
        Result<Self, ZipExactError>)
        ensures
            tx_prefix.inputs@.len() != pseudo_output_commitments@.len() ==> r == Err::<
                Self,
                ZipExactError,
            >(
                ZipExactError::LengthMismatch(
                    tx_prefix.inputs@.len() as usize,
                    pseudo_output_commitments@.len() as usize,
                ),
            ),
            tx_prefix.inputs@.len() == pseudo_output_commitments@.len() ==> r is Ok && ({
                let summary = r.unwrap();
                let associated = spec_associated_keys(
                    tx_prefix.inputs@,
                    tx_prefix.inputs@.len() as int,
                );
                &&& summary.fee == tx_prefix.fee
                &&& summary.fee_token_id == tx_prefix.fee_token_id
                &&& summary.tombstone_block == tx_prefix.tombstone_block
                &&& summary.inputs@.len() == tx_prefix.inputs@.len()
                &&& forall|i: int|
                    0 <= i < summary.inputs@.len() ==> (#[trigger] summary.inputs@[i]).pseudo_output_commitment
                        == pseudo_output_commitments@[i] && summary.inputs@[i].input_rules_digest@
                        == spec_rules_digest(tx_prefix.inputs@[i])
                &&& summary.outputs@.len() == tx_prefix.outputs@.len()
                &&& forall|k: int|
                    0 <= k < summary.outputs@.len() ==> {
                        let out = #[trigger] summary.outputs@[k];
                        let src = tx_prefix.outputs@[k];
                        &&& spec_masked_amount(out.masked_amount) == spec_masked_amount(
                            src.masked_amount,
                        )
                        &&& out.target_key == src.target_key
                        &&& out.public_key == src.public_key
                        &&& out.associated_to_input_rules == spec_is_associated(
                            associated,
                            src.public_key@,
                            src.target_key@,
                        )
                    }
            }),
    {
        if tx_prefix.inputs.len() != pseudo_output_commitments.len() {
            return Err(
                ZipExactError::LengthMismatch(
                    tx_prefix.inputs.len(),
                    pseudo_output_commitments.len(),
                ),
            );
        }
        // Scratch which helps us associate outputs to inputs with rules

        let mut input_rules_associated_tx_outs: Vec<
            (CompressedRistrettoPublic, CompressedRistrettoPublic),
        > = Vec::new();

        // Compute the inputs
        let mut inputs: Vec<TxInSummary> = Vec::new();
        let count = tx_prefix.inputs.len();
        let mut i: usize = 0;
        assert(spec_key_pairs(input_rules_associated_tx_outs@) =~= spec_associated_keys(
            tx_prefix.inputs@,
            0,
        ));
        while i < count
            invariant
                i <= count,
                count == tx_prefix.inputs@.len(),
                count == pseudo_output_commitments@.len(),
                inputs@.len() == i,
                spec_key_pairs(input_rules_associated_tx_outs@) == spec_associated_keys(
                    tx_prefix.inputs@,
                    i as int,
                ),
                forall|k: int|
                    0 <= k < i ==> (#[trigger] inputs@[k]).pseudo_output_commitment
                        == pseudo_output_commitments@[k] && inputs@[k].input_rules_digest@
                        == spec_rules_digest(tx_prefix.inputs@[k]),
            decreases count - i,
        {
            let input = &tx_prefix.inputs[i];
            let mut result = TxInSummary {
                pseudo_output_commitment: pseudo_output_commitments[i],
                input_rules_digest: Vec::new(),
            };
            match &input.input_rules {
                Some(rules) => {
                    let digest = rules.canonical_digest();
                    let mut bytes: Vec<u8> = Vec::new();
                    crate::bytes::append(&mut bytes, digest.as_slice());
                    assert(bytes@ =~= rules.digest@);
                    result.input_rules_digest = bytes;
                    rules.associated_keys(&mut input_rules_associated_tx_outs);
                },
                None => {
                    assert(spec_key_pairs(input_rules_associated_tx_outs@)
                        + Seq::<(Seq<u8>, Seq<u8>)>::empty() =~= spec_key_pairs(
                        input_rules_associated_tx_outs@,
                    ));
                },
            }
            inputs.push(result);
            i += 1;
        }

        let ghost associated = spec_associated_keys(tx_prefix.inputs@, count as int);
        let mut outputs: Vec<TxOutSummary> = Vec::new();
        let total = tx_prefix.outputs.len();
        let mut k: usize = 0;
        while k < total
            invariant
                k <= total,
                total == tx_prefix.outputs@.len(),
                outputs@.len() == k,
                associated == spec_key_pairs(input_rules_associated_tx_outs@),
                forall|j: int|
                    0 <= j < k ==> {
                        let out = #[trigger] outputs@[j];
                        let src = tx_prefix.outputs@[j];
                        &&& spec_masked_amount(out.masked_amount) == spec_masked_amount(
                            src.masked_amount,
                        )
                        &&& out.target_key == src.target_key
                        &&& out.public_key == src.public_key
                        &&& out.associated_to_input_rules == spec_is_associated(
                            associated,
                            src.public_key@,
                            src.target_key@,
                        )
                    },
            decreases total - k,
        {
            let src = &tx_prefix.outputs[k];
            let masked_amount = match &src.masked_amount {
                Some(masked) => Some(masked.duplicate()),
                None => None,
            };
            // Check if the public key and target key of this TxOutSummary match to a TxOut in
            // the associated_tx_outs list. The masked amount is not necessarily
            // expected to match, and no other fields of TxOut are in the TxOutSummary
            let associated_to_input_rules = is_associated(
                &input_rules_associated_tx_outs,
                &src.public_key,
                &src.target_key,
            );
            outputs.push(
                TxOutSummary {
                    masked_amount,
                    target_key: src.target_key,
                    public_key: src.public_key,
                    associated_to_input_rules,
                },
            );
            k += 1;
        }

        Ok(
            Self {
                outputs,
                inputs,
                fee: tx_prefix.fee,
                fee_token_id: tx_prefix.fee_token_id,
                tombstone_block: tx_prefix.tombstone_block,
            },
        )
    }
}

} // verus!
