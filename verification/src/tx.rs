//! Transaction outputs and inputs, as far as a signed contingent input reads
//! them.
use crate::amount::{Amount, TokenId};
use crate::commitment::{generators, spec_commit, spec_generator, CompressedCommitment};
use crate::consts::{
    AMOUNT_BLINDING_DOMAIN_TAG, AMOUNT_BLINDING_FACTORS_SALT, AMOUNT_TOKEN_ID_DOMAIN_TAG,
    AMOUNT_VALUE_DOMAIN_TAG,
};
use crate::curve_scalar::CurveScalar;
use crate::group::{group_order, le_value};
use crate::kdf::{hkdf_sha512, hkdf_sha512_expand};
use crate::ring::ReducedTxOut;
use crate::ristretto::point_of;
use crate::ristretto_keys::CompressedRistrettoPublic;
use vstd::bytes::{spec_u64_from_le_bytes, u64_from_le_bytes};
use vstd::prelude::*;

verus! {

/// An error which can occur when converting a transaction output.
#[derive(Clone, Copy, Debug, PartialEq, Eq, Structural)]
pub enum TxOutConversionError {
    /// The output carries no masked amount of a known version.
    UnknownMaskedAmountVersion,
}

/// An error which can occur when unmasking an amount.
#[derive(Clone, Copy, Debug, PartialEq, Eq, Structural)]
pub enum AmountError {
    /// The masked value, token id, or shared secret are not consistent with
    /// the commitment.
    InconsistentCommitment,
    /// The masked token id has an invalid number of bytes.
    InvalidMaskedTokenId,
    /// The masked amount is of a version that has no amount shared secret.
    AmountVersionTooOldForAmountSharedSecret,
}

/// An error which can occur when revealing the amount of an output.
#[derive(Clone, Copy, Debug, PartialEq, Eq, Structural)]
pub enum RevealedTxOutError {
    /// The amount shared secret does not have thirty-two bytes.
    InvalidAmountSharedSecret,
    /// The output could not be converted.
    TxOutConversion(TxOutConversionError),
    /// The amount could not be unmasked.
    Amount(AmountError),
}

/// A masked amount: the commitment to it, and its value and token id under
/// masks.
#[derive(Clone, Debug)]
pub struct MaskedAmountData {
    /// A Pedersen commitment `v*H + b*G` to a quantity `v` of the token.
    pub commitment: CompressedCommitment,
    /// `masked_value = value XOR value_mask`
    pub masked_value: u64,
    /// `masked_token_id = token_id XOR token_id_mask`: eight bytes, or none for
    /// token zero.
    pub masked_token_id: Vec<u8>,
}

/// A masked amount, in one of its versions.
#[derive(Clone, Debug)]
pub enum MaskedAmount {
    /// The first version, whose masks come from the shared secret of the
    /// output.
    V1(MaskedAmountData),
    /// The second version, whose masks come from the amount shared secret.
    V2(MaskedAmountData),
}

/// The mask of the value that belongs to an amount shared secret.
pub open spec fn spec_value_mask(secret: Seq<u8>) -> u64 {
    spec_u64_from_le_bytes(
        hkdf_sha512(AMOUNT_BLINDING_FACTORS_SALT@, secret, AMOUNT_VALUE_DOMAIN_TAG@, 8),
    )
}

/// The mask of the token id that belongs to an amount shared secret.
pub open spec fn spec_token_id_mask(secret: Seq<u8>) -> u64 {
    spec_u64_from_le_bytes(
        hkdf_sha512(AMOUNT_BLINDING_FACTORS_SALT@, secret, AMOUNT_TOKEN_ID_DOMAIN_TAG@, 8),
    )
}

/// The blinding that belongs to an amount shared secret.
pub open spec fn spec_amount_blinding(secret: Seq<u8>) -> nat {
    le_value(
        hkdf_sha512(AMOUNT_BLINDING_FACTORS_SALT@, secret, AMOUNT_BLINDING_DOMAIN_TAG@, 64),
    ) % group_order()
}

/// The token id that the masked bytes stand for under the mask of `secret`:
/// token zero where there are no bytes, and nothing where their number is
/// neither zero nor eight.
pub open spec fn spec_unmasked_token_id(masked_token_id: Seq<u8>, secret: Seq<u8>) -> Option<u64> {
    if masked_token_id.len() == 0 {
        Some(0u64)
    } else if masked_token_id.len() == 8 {
        Some(spec_u64_from_le_bytes(masked_token_id) ^ spec_token_id_mask(secret))
    } else {
        None
    }
}

impl MaskedAmountData {
    /// The amount and the blinding that `secret` unmasks, where they fit the
    /// commitment.
    pub open spec fn spec_unmask(self, secret: Seq<u8>) -> Result<(Amount, nat), AmountError> {
        match spec_unmasked_token_id(self.masked_token_id@, secret) {
            None => Err(AmountError::InvalidMaskedTokenId),
            Some(token_id) => {
                let value = self.masked_value ^ spec_value_mask(secret);
                let blinding = spec_amount_blinding(secret);
                if self.commitment@ == point_of(
                    spec_commit(value as nat, blinding, spec_generator(token_id), 1),
                ) {
                    Ok((Amount { value, token_id: TokenId(token_id) }, blinding))
                } else {
                    Err(AmountError::InconsistentCommitment)
                }
            },
        }
    }

    /// Unmasks the value and the token id with the masks of
    /// `amount_shared_secret`, and checks them against the commitment.
    fn unmask(&self, amount_shared_secret: &[u8; 32]) -> (r: Result<
        (Amount, CurveScalar),
        AmountError,
    >)
        ensures
            match self.spec_unmask(amount_shared_secret@) {
                Ok(revealed) => r is Ok && r.unwrap().0 == revealed.0 && r.unwrap().1@
                    == revealed.1,
                Err(e) => r == Err::<(Amount, CurveScalar), AmountError>(e),
            },
    {
        let secret = amount_shared_secret.as_slice();
        let salt = AMOUNT_BLINDING_FACTORS_SALT.as_slice();
        let value_mask_bytes = hkdf_sha512_expand(salt, secret, AMOUNT_VALUE_DOMAIN_TAG.as_slice(), 8);
        let value_mask = u64_from_le_bytes(value_mask_bytes.as_slice());
        let token_id_mask_bytes = hkdf_sha512_expand(
            salt,
            secret,
            AMOUNT_TOKEN_ID_DOMAIN_TAG.as_slice(),
            8,
        );
        let token_id_mask = u64_from_le_bytes(token_id_mask_bytes.as_slice());
        let blinding_bytes = hkdf_sha512_expand(
            salt,
            secret,
            AMOUNT_BLINDING_DOMAIN_TAG.as_slice(),
            64,
        );
        let mut wide = [0u8; 64];
        let mut i: usize = 0;
        while i < 64
            invariant
                i <= 64,
                blinding_bytes@.len() == 64,
                forall|k: int| 0 <= k < i ==> wide@[k] == blinding_bytes@[k],
            decreases 64 - i,
        {
            wide[i] = blinding_bytes[i];
            i += 1;
        }
        assert(wide@ =~= blinding_bytes@);
        let blinding = CurveScalar::from_bytes_mod_order_wide(&wide);

        let value = self.masked_value ^ value_mask;
        let token_id = if self.masked_token_id.len() == 0 {
            0
        } else if self.masked_token_id.len() == 8 {
            u64_from_le_bytes(self.masked_token_id.as_slice()) ^ token_id_mask
        } else {
            return Err(AmountError::InvalidMaskedTokenId);
        };
        let generator = generators(token_id);
        let expected_commitment = CompressedCommitment::new(value, blinding, &generator);
        if self.commitment != expected_commitment {
            return Err(AmountError::InconsistentCommitment);
        }
        Ok((Amount::new(value, TokenId::from(token_id)), blinding))
    }
}

impl MaskedAmount {
    /// The commitment of the masked amount.
    pub open spec fn spec_commitment(self) -> CompressedCommitment {
        match self {
            MaskedAmount::V1(data) => data.commitment,
            MaskedAmount::V2(data) => data.commitment,
        }
    }

    /// The amount and the blinding that `secret` unmasks: only the second
    /// version has an amount shared secret.
    pub open spec fn spec_unmask(self, secret: Seq<u8>) -> Result<(Amount, nat), AmountError> {
        match self {
            MaskedAmount::V1(_) => Err(AmountError::AmountVersionTooOldForAmountSharedSecret),
            MaskedAmount::V2(data) => data.spec_unmask(secret),
        }
    }

    /// Get the amount commitment
    pub fn commitment(&self) -> (c: &CompressedCommitment)
        ensures
            *c == self.spec_commitment(),
    {
        match self {
            MaskedAmount::V1(data) => &data.commitment,
            MaskedAmount::V2(data) => &data.commitment,
        }
    }

    /// Returns the amount underlying the masked amount, and its blinding,
    /// given the amount shared secret.
    pub fn get_value_from_amount_shared_secret(&self, amount_shared_secret: &[u8; 32]) -> (r:
        Result<(Amount, CurveScalar), AmountError>)
        ensures
            match self.spec_unmask(amount_shared_secret@) {
                Ok(revealed) => r is Ok && r.unwrap().0 == revealed.0 && r.unwrap().1@
                    == revealed.1,
                Err(e) => r == Err::<(Amount, CurveScalar), AmountError>(e),
            },
    {
        match self {
            MaskedAmount::V1(_) => Err(AmountError::AmountVersionTooOldForAmountSharedSecret),
            MaskedAmount::V2(data) => data.unmask(amount_shared_secret),
        }
    }
}

/// An output that results from a transaction.
#[derive(Clone, Debug)]
pub struct TxOut {
    /// The amount being sent.
    pub masked_amount: Option<MaskedAmount>,
    /// The one-time public address of this output.
    pub target_key: CompressedRistrettoPublic,
    /// The per output tx public key
    pub public_key: CompressedRistrettoPublic,
}

impl TxOut {
    /// The output as a ring member, where it carries a masked amount.
    pub open spec fn spec_reduced(self) -> Option<ReducedTxOut> {
        match self.masked_amount {
            Some(masked) => Some(
                ReducedTxOut {
                    public_key: self.public_key,
                    target_key: self.target_key,
                    commitment: masked.spec_commitment(),
                },
            ),
            None => None,
        }
    }

    /// Get the masked amount field, which is expected to be present in some
    /// version. Maps to a conversion error if the masked amount field is
    /// missing
    pub fn get_masked_amount(&self) -> (r: Result<&MaskedAmount, TxOutConversionError>)
        ensures
            match self.masked_amount {
                Some(masked) => r is Ok && *r.unwrap() == masked,
                None => r == Err::<&MaskedAmount, TxOutConversionError>(
                    TxOutConversionError::UnknownMaskedAmountVersion,
                ),
            },
    {
        match &self.masked_amount {
            Some(masked) => Ok(masked),
            None => Err(TxOutConversionError::UnknownMaskedAmountVersion),
        }
    }

    /// The output as a ring member.
    pub fn reduce(&self) -> (r: Result<ReducedTxOut, TxOutConversionError>)
        ensures
            match self.spec_reduced() {
                Some(reduced) => r == Ok::<ReducedTxOut, TxOutConversionError>(reduced),
                None => r == Err::<ReducedTxOut, TxOutConversionError>(
                    TxOutConversionError::UnknownMaskedAmountVersion,
                ),
            },
    {
        match self.get_masked_amount() {
            Ok(masked) => Ok(
                ReducedTxOut {
                    public_key: self.public_key,
                    target_key: self.target_key,
                    commitment: *masked.commitment(),
                },
            ),
            Err(e) => Err(e),
        }
    }
}

/// An output together with the secret that reveals its amount.
#[derive(Clone, Debug)]
pub struct RevealedTxOut {
    /// The output
    pub tx_out: TxOut,
    /// The amount shared secret of the output: thirty-two bytes.
    pub amount_shared_secret: Vec<u8>,
}

impl RevealedTxOut {
    /// The amount and the blinding that the output reveals, or the error with
    /// which revealing fails.
    pub open spec fn spec_reveal(self) -> Result<(Amount, nat), RevealedTxOutError> {
        match self.tx_out.masked_amount {
            None => Err(
                RevealedTxOutError::TxOutConversion(
                    TxOutConversionError::UnknownMaskedAmountVersion,
                ),
            ),
            Some(masked) => if self.amount_shared_secret@.len() != 32 {
                Err(RevealedTxOutError::InvalidAmountSharedSecret)
            } else {
                match masked.spec_unmask(self.amount_shared_secret@) {
                    Ok(revealed) => Ok(revealed),
                    Err(e) => Err(RevealedTxOutError::Amount(e)),
                }
            },
        }
    }

    /// Reveal the amount of the output: its value and token id, and the
    /// blinding of its commitment.
    pub fn reveal_amount(&self) -> (r: Result<(Amount, CurveScalar), RevealedTxOutError>)
        ensures
            match self.spec_reveal() {
                Ok(revealed) => r is Ok && r.unwrap().0 == revealed.0 && r.unwrap().1@
                    == revealed.1,
                Err(e) => r == Err::<(Amount, CurveScalar), RevealedTxOutError>(e),
            },
    {
        let masked = match self.tx_out.get_masked_amount() {
            Ok(masked) => masked,
            Err(e) => {
                return Err(RevealedTxOutError::TxOutConversion(e));
            },
        };
        if self.amount_shared_secret.len() != 32 {
            return Err(RevealedTxOutError::InvalidAmountSharedSecret);
        }
        let mut secret = [0u8; 32];
        let mut i: usize = 0;
        while i < 32
            invariant
                i <= 32,
                self.amount_shared_secret@.len() == 32,
                forall|k: int| 0 <= k < i ==> secret@[k] == self.amount_shared_secret@[k],
            decreases 32 - i,
        {
            secret[i] = self.amount_shared_secret[i];
            i += 1;
        }
        assert(secret@ =~= self.amount_shared_secret@);
        match masked.get_value_from_amount_shared_secret(&secret) {
            Ok(revealed) => Ok(revealed),
            Err(e) => Err(RevealedTxOutError::Amount(e)),
        }
    }
}

/// Rules that a transaction must meet to spend the input that carries them.
#[derive(Clone, Debug)]
pub struct InputRules {
    /// Outputs that are required to appear in the transaction outputs.
    pub required_outputs: Vec<TxOut>,
    /// The block index at which this input rule expires; zero for never.
    pub max_tombstone_block: u64,
    /// Outputs of which a fraction must appear in the transaction outputs.
    pub partial_fill_outputs: Vec<RevealedTxOut>,
    /// The change output of a partial fill.
    pub partial_fill_change: Option<RevealedTxOut>,
    /// The least value that a partial fill may fill.
    pub min_partial_fill_value: u64,
    /// The canonical digest of these rules: what the signature of the input
    /// signs. It is carried, not computed here: whoever builds the rules owes
    /// the digest of what they hold, and validation verifies the signature
    /// over whatever digest it finds.
    pub digest: [u8; 32],
}

impl InputRules {
    /// The canonical digest of the rules, as they carry it.
    pub fn canonical_digest(&self) -> (d: [u8; 32])
        ensures
            d == self.digest,
    {
        self.digest
    }
}

/// An "input" to a transaction.
#[derive(Clone, Debug)]
pub struct TxIn {
    /// A "ring" of outputs containing the single output that is being spent.
    pub ring: Vec<TxOut>,
    /// Any rules associated to this input.
    pub input_rules: Option<InputRules>,
}

impl TxIn {
    /// The digest that the signature of the input signs instead of the
    /// message of the transaction: that of the rules, where there are rules.
    pub open spec fn spec_signed_digest(self) -> Option<[u8; 32]> {
        match self.input_rules {
            Some(rules) => Some(rules.digest),
            None => None,
        }
    }

    /// The digest that the signature of the input signs instead of the
    /// message of the transaction: that of the rules, where there are rules.
    pub fn signed_digest(&self) -> (d: Option<[u8; 32]>)
        ensures
            d == self.spec_signed_digest(),
    {
        match &self.input_rules {
            Some(rules) => Some(rules.canonical_digest()),
            None => None,
        }
    }
}

/// The part of a transaction that is signed: its inputs, its outputs and its
/// fee.
#[derive(Clone, Debug)]
pub struct TxPrefix {
    /// List of inputs to the transaction.
    pub inputs: Vec<TxIn>,
    /// List of outputs from the transaction.
    pub outputs: Vec<TxOut>,
    /// Fee paid to the foundation for this transaction
    pub fee: u64,
    /// Token id for the fee output of this transaction
    pub fee_token_id: u64,
    /// The block index at which this transaction is no longer valid.
    pub tombstone_block: u64,
}

/// The model of a masked amount.
pub struct MaskedAmountModel {
    /// Whether the masked amount is of the second version.
    pub second_version: bool,
    /// The bytes of the commitment.
    pub commitment: Seq<u8>,
    /// The masked value.
    pub masked_value: u64,
    /// The masked token id.
    pub masked_token_id: Seq<u8>,
}

impl MaskedAmountData {
    /// A copy of the masked amount.
    fn duplicate(&self) -> (copy: Self)
        ensures
            copy.commitment == self.commitment,
            copy.masked_value == self.masked_value,
            copy.masked_token_id@ == self.masked_token_id@,
    {
        let masked_token_id = self.masked_token_id.clone();
        assert(masked_token_id@ =~= self.masked_token_id@);
        MaskedAmountData {
            commitment: self.commitment,
            masked_value: self.masked_value,
            masked_token_id,
        }
    }
}

impl View for MaskedAmount {
    type V = MaskedAmountModel;

    open spec fn view(&self) -> MaskedAmountModel {
        match self {
            MaskedAmount::V1(data) => MaskedAmountModel {
                second_version: false,
                commitment: data.commitment@,
                masked_value: data.masked_value,
                masked_token_id: data.masked_token_id@,
            },
            MaskedAmount::V2(data) => MaskedAmountModel {
                second_version: true,
                commitment: data.commitment@,
                masked_value: data.masked_value,
                masked_token_id: data.masked_token_id@,
            },
        }
    }
}

impl MaskedAmount {
    /// A copy of the masked amount.
    pub fn duplicate(&self) -> (copy: Self)
        ensures
            copy@ == self@,
    {
        match self {
            MaskedAmount::V1(data) => MaskedAmount::V1(data.duplicate()),
            MaskedAmount::V2(data) => MaskedAmount::V2(data.duplicate()),
        }
    }
}

/// The public key and the target key of an output.
pub open spec fn spec_keys(tx_out: TxOut) -> (Seq<u8>, Seq<u8>) {
    (tx_out.public_key@, tx_out.target_key@)
}

impl InputRules {
    /// The keys of the outputs that are associated to the rules, in order:
    /// the required outputs, the partial fill outputs, and the partial fill
    /// change.
    pub open spec fn spec_associated_keys(self) -> Seq<(Seq<u8>, Seq<u8>)> {
        Seq::new(self.required_outputs@.len(), |i: int| spec_keys(self.required_outputs@[i]))
            + Seq::new(
            self.partial_fill_outputs@.len(),
            |i: int| spec_keys(self.partial_fill_outputs@[i].tx_out),
        ) + match self.partial_fill_change {
            Some(change) => seq![spec_keys(change.tx_out)],
            None => Seq::empty(),
        }
    }

    /// Appends to `keys` the public key and the target key of every output
    /// that is associated to the rules.
    pub fn associated_keys(
        &self,
        keys: &mut Vec<(CompressedRistrettoPublic, CompressedRistrettoPublic)>,
    )
        ensures
            spec_key_pairs(final(keys)@) == spec_key_pairs(old(keys)@)
                + self.spec_associated_keys(),
    {
        let ghost before = spec_key_pairs(keys@);
        let mut i: usize = 0;
        assert(before =~= before + Seq::new(0nat, |k: int| spec_keys(self.required_outputs@[k])));
        while i < self.required_outputs.len()
            invariant
                i <= self.required_outputs@.len(),
                spec_key_pairs(keys@) == before + Seq::new(
                    i as nat,
                    |k: int| spec_keys(self.required_outputs@[k]),
                ),
            decreases self.required_outputs@.len() - i,
        {
            let tx_out = &self.required_outputs[i];
            let ghost previous = spec_key_pairs(keys@);
            keys.push((tx_out.public_key, tx_out.target_key));
            assert(spec_key_pairs(keys@) =~= previous.push(spec_keys(*tx_out)));
            assert(spec_key_pairs(keys@) =~= before + Seq::new(
                (i + 1) as nat,
                |k: int| spec_keys(self.required_outputs@[k]),
            ));
            i += 1;
        }
        let ghost required = spec_key_pairs(keys@);
        let mut j: usize = 0;
        assert(required =~= required + Seq::new(
            0nat,
            |k: int| spec_keys(self.partial_fill_outputs@[k].tx_out),
        ));
        while j < self.partial_fill_outputs.len()
            invariant
                j <= self.partial_fill_outputs@.len(),
                spec_key_pairs(keys@) == required + Seq::new(
                    j as nat,
                    |k: int| spec_keys(self.partial_fill_outputs@[k].tx_out),
                ),
            decreases self.partial_fill_outputs@.len() - j,
        {
            let tx_out = &self.partial_fill_outputs[j].tx_out;
            let ghost previous = spec_key_pairs(keys@);
            keys.push((tx_out.public_key, tx_out.target_key));
            assert(spec_key_pairs(keys@) =~= previous.push(spec_keys(*tx_out)));
            assert(spec_key_pairs(keys@) =~= required + Seq::new(
                (j + 1) as nat,
                |k: int| spec_keys(self.partial_fill_outputs@[k].tx_out),
            ));
            j += 1;
        }
        let ghost filled = spec_key_pairs(keys@);
        match &self.partial_fill_change {
            Some(change) => {
                keys.push((change.tx_out.public_key, change.tx_out.target_key));
                assert(spec_key_pairs(keys@) =~= filled.push(spec_keys(change.tx_out)));
                assert(spec_key_pairs(keys@) =~= filled + seq![spec_keys(change.tx_out)]);
            },
            None => {
                assert(spec_key_pairs(keys@) =~= filled + Seq::<(Seq<u8>, Seq<u8>)>::empty());
            },
        }
    }
}

/// The bytes of pairs of keys.
pub open spec fn spec_key_pairs(
    keys: Seq<(CompressedRistrettoPublic, CompressedRistrettoPublic)>,
) -> Seq<(Seq<u8>, Seq<u8>)> {
    Seq::new(keys.len(), |i: int| (keys[i].0@, keys[i].1@))
}

} // verus!
