use curve25519_dalek::scalar::Scalar;
use ring_mlsag::amount::{Amount, TokenId, UnmaskedAmount};
use ring_mlsag::commitment::{generators, CompressedCommitment};
use ring_mlsag::curve_scalar::CurveScalar;
use ring_mlsag::error::Error;
use ring_mlsag::key_image::KeyImage;
use ring_mlsag::mlsag::RingMLSAG;
use ring_mlsag::mlsag_sign::MlsagSignParams;
use ring_mlsag::amount::OutputSecret;
use ring_mlsag::ring_ct::{GeneratorCache, PresignedInputRing, SignedInputRing};
use ring_mlsag::ristretto_keys::{CompressedRistrettoPublic, RistrettoPrivate, RistrettoPublic};
use ring_mlsag::signed_contingent_input::{SignedContingentInput, SignedContingentInputError};
use ring_mlsag::tx::{
    AmountError, InputRules, MaskedAmount, MaskedAmountData, RevealedTxOut, RevealedTxOutError,
    TxIn, TxOut, TxOutConversionError,
};

fn key(n: u64) -> RistrettoPrivate {
    RistrettoPrivate::from_scalar(CurveScalar::from(n))
}

fn public(n: u64) -> CompressedRistrettoPublic {
    CompressedRistrettoPublic::from(&RistrettoPublic::from(&key(n)))
}

/// An output to the key `target` that commits to `value` of `token_id`.
fn tx_out(target: u64, value: u64, token_id: u64, blinding: CurveScalar) -> TxOut {
    TxOut {
        masked_amount: Some(MaskedAmount::V1(MaskedAmountData {
            commitment: CompressedCommitment::new(value, blinding, &generators(token_id)),
            masked_value: 0,
            masked_token_id: Vec::new(),
        })),
        target_key: public(target),
        public_key: public(target + 1000),
    }
}

/// The masks and the blinding that an amount shared secret gives.
fn blinding_factors(secret: &[u8; 32]) -> (u64, u64, CurveScalar) {
    let kdf = hkdf::Hkdf::<sha2::Sha512>::new(Some(b"mc-amount-blinding-factors"), secret);
    let mut value_mask = [0u8; 8];
    kdf.expand(b"mc_amount_value", &mut value_mask).unwrap();
    let mut token_id_mask = [0u8; 8];
    kdf.expand(b"mc_amount_token_id", &mut token_id_mask).unwrap();
    let mut blinding = [0u8; 64];
    kdf.expand(b"mc_amount_blinding", &mut blinding).unwrap();
    (
        u64::from_le_bytes(value_mask),
        u64::from_le_bytes(token_id_mask),
        CurveScalar::from_bytes_mod_order(Scalar::from_bytes_mod_order_wide(&blinding).to_bytes()),
    )
}

/// An output whose amount the secret reveals.
fn revealed(target: u64, value: u64, token_id: u64, secret: [u8; 32]) -> RevealedTxOut {
    let (value_mask, token_id_mask, blinding) = blinding_factors(&secret);
    RevealedTxOut {
        tx_out: TxOut {
            masked_amount: Some(MaskedAmount::V2(MaskedAmountData {
                commitment: CompressedCommitment::new(value, blinding, &generators(token_id)),
                masked_value: value ^ value_mask,
                masked_token_id: (token_id ^ token_id_mask).to_le_bytes().to_vec(),
            })),
            target_key: public(target),
            public_key: public(target + 1000),
        },
        amount_shared_secret: secret.to_vec(),
    }
}

fn empty_rules(digest: [u8; 32]) -> InputRules {
    InputRules {
        required_outputs: Vec::new(),
        max_tombstone_block: 0,
        partial_fill_outputs: Vec::new(),
        partial_fill_change: None,
        min_partial_fill_value: 0,
        digest,
    }
}

/// A signed contingent input over a ring of two outputs, of which the first
/// is spent: a thousand of token zero.
fn signed_input(rules: InputRules, required: Vec<UnmaskedAmount>) -> SignedContingentInput {
    let value = 1000;
    let blinding = CurveScalar::from(31u64);
    let pseudo_output_blinding = CurveScalar::from(32u64);
    let spent = key(5);
    let ring = vec![tx_out_of(&spent, value, blinding), tx_out(6, 40, 0, CurveScalar::from(41u64))];
    let tx_in = TxIn { ring, input_rules: Some(rules) };
    let members = SignedInputRing::try_from(&tx_in).unwrap().members;
    let generator = generators(0);
    let digest = tx_in.signed_digest().unwrap();
    let params = MlsagSignParams {
        ring_size: 2,
        message: &digest,
        real_index: 0,
        onetime_private_key: &spent,
        value,
        blinding: &blinding,
        output_blinding: &pseudo_output_blinding,
        generator: &generator,
        check_value_is_preserved: true,
    };
    let decoys = (0..4).map(|i| CurveScalar::from(50 + i)).collect();
    let mlsag = RingMLSAG::sign_with(
        &members,
        &params,
        CurveScalar::from(60u64),
        CurveScalar::from(61u64),
        decoys,
    )
    .unwrap();
    SignedContingentInput {
        block_version: 3,
        tx_in,
        mlsag,
        pseudo_output_amount: UnmaskedAmount::new(
            Amount::new(value, TokenId::from(0u64)),
            pseudo_output_blinding,
        ),
        required_output_amounts: required,
        tx_out_global_indices: vec![7, 8],
    }
}

fn tx_out_of(spent: &RistrettoPrivate, value: u64, blinding: CurveScalar) -> TxOut {
    TxOut {
        masked_amount: Some(MaskedAmount::V1(MaskedAmountData {
            commitment: CompressedCommitment::new(value, blinding, &generators(0)),
            masked_value: 0,
            masked_token_id: Vec::new(),
        })),
        target_key: CompressedRistrettoPublic::from(&RistrettoPublic::from(spent)),
        public_key: public(2000),
    }
}

#[test]
fn a_signed_input_without_requirements_is_valid() {
    let sci = signed_input(empty_rules([9; 32]), Vec::new());
    assert_eq!(sci.validate(), Ok(()));
    assert_eq!(sci.key_image(), KeyImage::from(&key(5)));
}

#[test]
fn a_disclosed_value_of_999_fails_at_the_commitment() {
    let mut sci = signed_input(empty_rules([9; 32]), Vec::new());
    sci.pseudo_output_amount.value = 999;
    assert_eq!(
        sci.validate(),
        Err(SignedContingentInputError::RingSignature(Error::InvalidSignature))
    );
    // and so does another token, or another blinding
    let mut sci = signed_input(empty_rules([9; 32]), Vec::new());
    sci.pseudo_output_amount.token_id = 1;
    assert_eq!(
        sci.validate(),
        Err(SignedContingentInputError::RingSignature(Error::InvalidSignature))
    );
    let mut sci = signed_input(empty_rules([9; 32]), Vec::new());
    sci.pseudo_output_amount.blinding = CurveScalar::from(33u64);
    assert_eq!(
        sci.validate(),
        Err(SignedContingentInputError::RingSignature(Error::InvalidSignature))
    );
}

#[test]
fn the_rules_are_what_is_signed() {
    let mut sci = signed_input(empty_rules([9; 32]), Vec::new());
    sci.tx_in.input_rules = Some(empty_rules([10; 32]));
    assert_eq!(
        sci.validate(),
        Err(SignedContingentInputError::RingSignature(Error::InvalidSignature))
    );
    sci.tx_in.input_rules = None;
    assert_eq!(sci.validate(), Err(SignedContingentInputError::MissingRules));
    assert_eq!(sci.tx_in.signed_digest(), None);
}

#[test]
fn global_indices_are_one_for_each_ring_member() {
    let mut sci = signed_input(empty_rules([9; 32]), Vec::new());
    sci.tx_out_global_indices.push(9);
    assert_eq!(sci.validate(), Err(SignedContingentInputError::WrongNumberOfGlobalIndices));
    sci.tx_out_global_indices = vec![7];
    assert_eq!(sci.validate(), Err(SignedContingentInputError::WrongNumberOfGlobalIndices));
}

#[test]
fn ring_members_carry_a_masked_amount() {
    let mut sci = signed_input(empty_rules([9; 32]), Vec::new());
    sci.tx_in.ring[1].masked_amount = None;
    assert_eq!(
        sci.validate(),
        Err(SignedContingentInputError::TxOutConversion(
            TxOutConversionError::UnknownMaskedAmountVersion
        ))
    );
    assert_eq!(
        SignedInputRing::try_from(&sci.tx_in).err(),
        Some(TxOutConversionError::UnknownMaskedAmountVersion)
    );
}

#[test]
fn a_ring_member_that_is_no_point_is_an_invalid_signature_input() {
    let mut sci = signed_input(empty_rules([9; 32]), Vec::new());
    sci.tx_in.ring[1].target_key = CompressedRistrettoPublic { bytes: [0xff; 32] };
    assert_eq!(
        sci.validate(),
        Err(SignedContingentInputError::RingSignature(Error::InvalidKeyImage))
    );
}

#[test]
fn required_outputs_carry_the_amounts_disclosed_for_them() {
    let blinding = CurveScalar::from(71u64);
    let mut rules = empty_rules([9; 32]);
    rules.required_outputs = vec![tx_out(80, 250, 2, blinding)];
    let amount = UnmaskedAmount::new(Amount::new(250, TokenId::from(2u64)), blinding);
    assert_eq!(signed_input(rules.clone(), vec![amount]).validate(), Ok(()));

    // no amount, or one too many
    assert_eq!(
        signed_input(rules.clone(), Vec::new()).validate(),
        Err(SignedContingentInputError::WrongNumberOfRequiredOutputAmounts)
    );
    assert_eq!(
        signed_input(rules.clone(), vec![amount, amount]).validate(),
        Err(SignedContingentInputError::WrongNumberOfRequiredOutputAmounts)
    );
    // another value, token, or blinding
    for wrong in [
        UnmaskedAmount::new(Amount::new(251, TokenId::from(2u64)), blinding),
        UnmaskedAmount::new(Amount::new(250, TokenId::from(3u64)), blinding),
        UnmaskedAmount::new(Amount::new(250, TokenId::from(2u64)), CurveScalar::from(72u64)),
    ] {
        assert_eq!(
            signed_input(rules.clone(), vec![wrong]).validate(),
            Err(SignedContingentInputError::RequiredOutputMismatch)
        );
    }
    // a required output without a masked amount
    let mut bare = rules.clone();
    bare.required_outputs[0].masked_amount = None;
    assert_eq!(
        signed_input(bare, vec![amount]).validate(),
        Err(SignedContingentInputError::TxOutConversion(
            TxOutConversionError::UnknownMaskedAmountVersion
        ))
    );
}

#[test]
fn a_least_fill_value_without_change_is_missing_the_change() {
    let mut rules = empty_rules([9; 32]);
    rules.min_partial_fill_value = 1;
    assert_eq!(
        signed_input(rules, Vec::new()).validate(),
        Err(SignedContingentInputError::MissingPartialFillChange)
    );
    let mut rules = empty_rules([9; 32]);
    rules.partial_fill_outputs = vec![revealed(90, 5, 0, [1; 32])];
    assert_eq!(
        signed_input(rules, Vec::new()).validate(),
        Err(SignedContingentInputError::MissingPartialFillChange)
    );
}

#[test]
fn a_change_of_zero_is_a_zero_partial_fill_change() {
    let mut rules = empty_rules([9; 32]);
    rules.partial_fill_change = Some(revealed(91, 0, 0, [2; 32]));
    assert_eq!(
        signed_input(rules.clone(), Vec::new()).validate(),
        Err(SignedContingentInputError::ZeroPartialFillChange)
    );
    rules.min_partial_fill_value = 10;
    assert_eq!(
        signed_input(rules, Vec::new()).validate(),
        Err(SignedContingentInputError::ZeroPartialFillChange)
    );
}

#[test]
fn the_least_fill_value_does_not_exceed_the_change() {
    let mut rules = empty_rules([9; 32]);
    rules.partial_fill_change = Some(revealed(91, 100, 0, [2; 32]));
    rules.min_partial_fill_value = 101;
    assert_eq!(
        signed_input(rules.clone(), Vec::new()).validate(),
        Err(SignedContingentInputError::MinPartialFillValueExceedsPartialChange)
    );
    rules.min_partial_fill_value = 100;
    assert_eq!(signed_input(rules.clone(), Vec::new()).validate(), Ok(()));
    rules.partial_fill_outputs = vec![revealed(92, 5, 1, [3; 32]), revealed(93, 6, 0, [4; 32])];
    assert_eq!(signed_input(rules, Vec::new()).validate(), Ok(()));
}

#[test]
fn partial_fill_outputs_reveal_their_amounts() {
    let mut rules = empty_rules([9; 32]);
    rules.partial_fill_change = Some(revealed(91, 100, 0, [2; 32]));
    // another secret than the one that masked the amount
    let mut output = revealed(92, 5, 1, [3; 32]);
    output.amount_shared_secret = vec![4; 32];
    rules.partial_fill_outputs = vec![revealed(93, 6, 0, [5; 32]), output];
    assert_eq!(
        signed_input(rules.clone(), Vec::new()).validate(),
        Err(SignedContingentInputError::RevealedTxOut(RevealedTxOutError::Amount(
            AmountError::InconsistentCommitment
        )))
    );
    // a secret that is too short
    rules.partial_fill_outputs[1].amount_shared_secret = vec![3; 31];
    assert_eq!(
        signed_input(rules.clone(), Vec::new()).validate(),
        Err(SignedContingentInputError::RevealedTxOut(
            RevealedTxOutError::InvalidAmountSharedSecret
        ))
    );
    // a change that cannot be revealed
    rules.partial_fill_outputs.clear();
    rules.partial_fill_change = Some(RevealedTxOut {
        tx_out: tx_out(94, 7, 0, CurveScalar::from(1u64)),
        amount_shared_secret: vec![6; 32],
    });
    assert_eq!(
        signed_input(rules.clone(), Vec::new()).validate(),
        Err(SignedContingentInputError::RevealedTxOut(RevealedTxOutError::Amount(
            AmountError::AmountVersionTooOldForAmountSharedSecret
        )))
    );
    let mut bare = tx_out(94, 7, 0, CurveScalar::from(1u64));
    bare.masked_amount = None;
    rules.partial_fill_change =
        Some(RevealedTxOut { tx_out: bare, amount_shared_secret: vec![6; 32] });
    assert_eq!(
        signed_input(rules, Vec::new()).validate(),
        Err(SignedContingentInputError::RevealedTxOut(RevealedTxOutError::TxOutConversion(
            TxOutConversionError::UnknownMaskedAmountVersion
        )))
    );
}

#[test]
fn revealing_unmasks_value_and_token() {
    let output = revealed(95, 123_456, 9, [7; 32]);
    let (amount, blinding) = output.reveal_amount().unwrap();
    assert_eq!(amount, Amount::new(123_456, TokenId::from(9u64)));
    assert_eq!(blinding, blinding_factors(&[7; 32]).2);
    // token zero may go without a masked token id
    let (_, _, blinding) = blinding_factors(&[8; 32]);
    let (value_mask, _, _) = blinding_factors(&[8; 32]);
    let masked = MaskedAmount::V2(MaskedAmountData {
        commitment: CompressedCommitment::new(77, blinding, &generators(0)),
        masked_value: 77 ^ value_mask,
        masked_token_id: Vec::new(),
    });
    assert_eq!(
        masked.get_value_from_amount_shared_secret(&[8; 32]).unwrap().0,
        Amount::new(77, TokenId::from(0u64))
    );
    // a masked token id of another length than eight
    let masked = MaskedAmount::V2(MaskedAmountData {
        commitment: CompressedCommitment::new(77, blinding, &generators(0)),
        masked_value: 77 ^ value_mask,
        masked_token_id: vec![0; 7],
    });
    assert_eq!(
        masked.get_value_from_amount_shared_secret(&[8; 32]).err(),
        Some(AmountError::InvalidMaskedTokenId)
    );
}

#[test]
fn a_validated_input_becomes_a_presigned_ring() {
    let sci = signed_input(empty_rules([9; 32]), Vec::new());
    let mlsag = sci.mlsag.clone();
    let presigned = PresignedInputRing::from(sci);
    assert_eq!(presigned.mlsag, mlsag);
    assert_eq!(presigned.pseudo_output_secret.amount, Amount::new(1000, TokenId::from(0u64)));
    assert_eq!(presigned.pseudo_output_secret.blinding, CurveScalar::from(32u64));
    let secret = OutputSecret::from(UnmaskedAmount::new(
        Amount::new(4, TokenId::from(5u64)),
        CurveScalar::from(6u64),
    ));
    assert_eq!(secret.amount, Amount::new(4, TokenId::from(5u64)));
    assert_eq!(
        Amount::from(&UnmaskedAmount::new(Amount::new(4, TokenId::from(5u64)), secret.blinding)),
        secret.amount
    );
}

#[test]
fn the_cache_hands_out_the_generators_of_the_token() {
    let mut cache = GeneratorCache::default();
    let first = cache.get(TokenId::from(4u64));
    let again = cache.get(TokenId::from(4u64));
    let other = cache.get(TokenId::from(5u64));
    assert_eq!(first.B.compress(), generators(4).B.compress());
    assert_eq!(again.B.compress(), first.B.compress());
    assert_eq!(other.B.compress(), generators(5).B.compress());
    assert_ne!(other.B.compress(), first.B.compress());
}
