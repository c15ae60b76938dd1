//! Amounts: a value in some token.
use crate::curve_scalar::CurveScalar;
use vstd::prelude::*;
use vstd::std_specs::convert::FromSpecImpl;

verus! {

/// The identifier of a token.
#[derive(Clone, Copy, Debug, PartialEq, Eq, Structural)]
pub struct TokenId(pub u64);

impl From<u64> for TokenId {
    /// The token id with the given number.
    fn from(id: u64) -> (t: TokenId) {
        TokenId(id)
    }
}

impl FromSpecImpl<u64> for TokenId {
    open spec fn obeys_from_spec() -> bool {
        true
    }

    open spec fn from_spec(id: u64) -> TokenId {
        TokenId(id)
    }
}

/// An amount of some token, in the "base" (u64) denomination.
#[derive(Clone, Copy, Debug, PartialEq, Eq, Structural)]
pub struct Amount {
    /// The "raw" value of this amount as a u64
    pub value: u64,
    /// The token-id which is the denomination of this amount
    pub token_id: TokenId,
}

impl Amount {
    /// Create a new amount
    pub fn new(value: u64, token_id: TokenId) -> (amount: Self)
        ensures
            amount == (Amount { value, token_id }),
    {
        Self { value, token_id }
    }
}

impl<'a> From<&'a UnmaskedAmount> for Amount {
    /// The amount that an unmasked amount discloses.
    fn from(src: &'a UnmaskedAmount) -> (amount: Self) {
        Self { value: src.value, token_id: TokenId::from(src.token_id) }
    }
}

impl<'a> FromSpecImpl<&'a UnmaskedAmount> for Amount {
    open spec fn obeys_from_spec() -> bool {
        true
    }

    open spec fn from_spec(src: &'a UnmaskedAmount) -> Amount {
        Amount { value: src.value, token_id: TokenId(src.token_id) }
    }
}

impl Default for Amount {
    /// Nothing of token zero.
    fn default() -> (amount: Self)
        ensures
            amount == (Amount { value: 0, token_id: TokenId(0) }),
    {
        Amount::new(0, TokenId::from(0))
    }
}

/// The "unmasked" data of an amount commitment
#[derive(Clone, Copy, Debug)]
pub struct UnmaskedAmount {
    /// The value of the amount commitment
    pub value: u64,
    /// The token id of the amount commitment
    pub token_id: u64,
    /// The blinding factor of the amount commitment
    pub blinding: CurveScalar,
}

impl UnmaskedAmount {
    /// The unmasked amount that discloses an amount and its blinding.
    pub fn new(amount: Amount, blinding: CurveScalar) -> (unmasked: Self)
        ensures
            unmasked == (UnmaskedAmount {
                value: amount.value,
                token_id: amount.token_id.0,
                blinding,
            }),
    {
        Self { value: amount.value, token_id: amount.token_id.0, blinding }
    }
}

/// The secrets needed to create a signature that holds an input's value for
/// an output or pseudo-output.
#[derive(Clone, Copy, Debug)]
pub struct OutputSecret {
    /// The amount of the output.
    pub amount: Amount,
    /// The blinding factor of the output we are trying to sign.
    pub blinding: CurveScalar,
}

impl From<UnmaskedAmount> for OutputSecret {
    /// The secret that an unmasked amount discloses.
    fn from(src: UnmaskedAmount) -> (secret: Self) {
        Self { amount: Amount::new(src.value, TokenId::from(src.token_id)), blinding: src.blinding }
    }
}

impl FromSpecImpl<UnmaskedAmount> for OutputSecret {
    open spec fn obeys_from_spec() -> bool {
        true
    }

    open spec fn from_spec(src: UnmaskedAmount) -> OutputSecret {
        OutputSecret {
            amount: Amount { value: src.value, token_id: TokenId(src.token_id) },
            blinding: src.blinding,
        }
    }
}

impl From<OutputSecret> for UnmaskedAmount {
    /// The unmasked amount that discloses a secret.
    fn from(src: OutputSecret) -> (unmasked: Self) {
        Self { value: src.amount.value, token_id: src.amount.token_id.0, blinding: src.blinding }
    }
}

impl FromSpecImpl<OutputSecret> for UnmaskedAmount {
    open spec fn obeys_from_spec() -> bool {
        true
    }

    open spec fn from_spec(src: OutputSecret) -> UnmaskedAmount {
        UnmaskedAmount {
            value: src.amount.value,
            token_id: src.amount.token_id.0,
            blinding: src.blinding,
        }
    }
}

} // verus!
