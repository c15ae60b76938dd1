//! Limits and domain separators.
use vstd::prelude::*;

verus! {

/// The largest number of members that a ring may have.
pub const MAX_TXOUTS: usize = 11;

/// The largest number of responses in a ring signature: two for each member.
pub const MAX_RESPONSES: usize = MAX_TXOUTS * 2;

/// The index of the default subaddress.
pub const DEFAULT_SUBADDRESS_INDEX: u64 = 0;

/// Domain separator of the hash that sends a one-time public key, or a token id, to a group element:
/// the bytes of `mc_onetime_key_hash_to_point`.
pub const HASH_TO_POINT_DOMAIN_TAG: [u8; 28] = [
    109, 99, 95, 111, 110, 101, 116, 105, 109, 101, 95, 107, 101, 121, 95, 104, 97, 115, 104,
    95, 116, 111, 95, 112, 111, 105, 110, 116,
];

/// Domain separator of the hash that gives the challenges of a ring signature:
/// the bytes of `mc_ring_mlsag_challenge`.
pub const RING_MLSAG_CHALLENGE_DOMAIN_TAG: [u8; 23] = [
    109, 99, 95, 114, 105, 110, 103, 95, 109, 108, 115, 97, 103, 95, 99, 104, 97, 108, 108,
    101, 110, 103, 101,
];

/// Domain separator of the hash that masks the value of an amount:
/// the bytes of `mc_amount_value`.
pub const AMOUNT_VALUE_DOMAIN_TAG: [u8; 15] = [
    109, 99, 95, 97, 109, 111, 117, 110, 116, 95, 118, 97, 108, 117, 101,
];

/// Domain separator of the hash that masks the token id of an amount:
/// the bytes of `mc_amount_token_id`.
pub const AMOUNT_TOKEN_ID_DOMAIN_TAG: [u8; 18] = [
    109, 99, 95, 97, 109, 111, 117, 110, 116, 95, 116, 111, 107, 101, 110, 95, 105, 100,
];

/// Domain separator of the hash that gives the blinding of an amount:
/// the bytes of `mc_amount_blinding`.
pub const AMOUNT_BLINDING_DOMAIN_TAG: [u8; 18] = [
    109, 99, 95, 97, 109, 111, 117, 110, 116, 95, 98, 108, 105, 110, 100, 105, 110, 103,
];

/// Domain separator of the hash that derives subaddress keys:
/// the bytes of `mc_subaddress`.
pub const SUBADDRESS_DOMAIN_TAG: [u8; 13] = [
    109, 99, 95, 115, 117, 98, 97, 100, 100, 114, 101, 115, 115,
];

/// Salt of the key derivation that gives the memo cipher its key and nonce:
/// the bytes of `mc-memo-okm`.
pub const MEMO_OKM_SALT: [u8; 11] = [
    109, 99, 45, 109, 101, 109, 111, 45, 111, 107, 109,
];

/// Domain separator of the memo authentication code:
/// the bytes of `mc-memo-mac`.
pub const MEMO_MAC_DOMAIN_TAG: [u8; 11] = [
    109, 99, 45, 109, 101, 109, 111, 45, 109, 97, 99,
];

/// Salt of the key derivation that gives an amount its masks and its blinding:
/// the bytes of `mc-amount-blinding-factors`.
pub const AMOUNT_BLINDING_FACTORS_SALT: [u8; 26] = [
    109, 99, 45, 97, 109, 111, 117, 110, 116, 45, 98, 108, 105, 110, 100, 105, 110, 103, 45,
    102, 97, 99, 116, 111, 114, 115,
];

} // verus!
