//! Ring signatures over the Ristretto group for confidential transactions:
//! Pedersen commitments to amounts, key images, the MLSAG signature that
//! proves the right to spend one member of a ring without telling which, and
//! the validation of signed contingent inputs that are built on it.
//!
//! The group and its scalars come from curve25519-dalek. Their contracts are
//! stated over a model in which a scalar is a number below the group order and
//! a group element is its discrete logarithm to the basepoint; see
//! [`group`] and [`ristretto`].

pub mod account;
pub mod amount;
pub mod bytes;
pub mod commitment;
pub mod consts;
pub mod container;
pub mod curve_scalar;
pub mod error;
pub mod group;
pub mod kdf;
pub mod key_image;
pub mod keys;
pub mod memo;
pub mod mlsag;
pub mod mlsag_laws;
pub mod mlsag_sign;
pub mod mlsag_spec;
pub mod mlsag_tamper;
pub mod onetime_keys;
pub mod ring;
pub mod ring_ct;
pub mod ristretto;
pub mod ristretto_keys;
pub mod signed_contingent_input;
pub mod subaddress;
pub mod tx;
pub mod tx_summary;
pub mod watcher;

pub use commitment::{generators, Commitment, CompressedCommitment, PedersenGens};
pub use curve_scalar::CurveScalar;
pub use error::Error;
pub use key_image::KeyImage;
pub use mlsag::RingMLSAG;
pub use mlsag_sign::{MlsagSignCtx, MlsagSignParams};
pub use onetime_keys::get_tx_out_shared_secret;
pub use ring::{ReducedTxOut, Ring};
pub use signed_contingent_input::{SignedContingentInput, SignedContingentInputError};
pub use subaddress::Subaddress;
