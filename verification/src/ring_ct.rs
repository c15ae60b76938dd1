//! What goes into and comes out of the signing of a transaction input.
use crate::amount::{OutputSecret, TokenId};
use crate::commitment::{generators, spec_generator, PedersenGens};
use crate::mlsag::RingMLSAG;
use crate::ring::ReducedTxOut;
use crate::tx::{TxIn, TxOut, TxOutConversionError};
use std::collections::BTreeMap;
use vstd::prelude::*;

verus! {

/// A cache of the generators of tokens, so that the generators of a token are
/// derived once in a pass.
pub struct GeneratorCache {
    cache: BTreeMap<u64, PedersenGens>,
}

impl GeneratorCache {
    /// Every entry of the cache holds the generators of its token.
    #[verifier::type_invariant]
    spec fn inv(self) -> bool {
        forall|token_id: u64| #[trigger]
            self.cache@.contains_key(token_id) ==> self.cache@[token_id].B@ == spec_generator(
                token_id,
            ) && self.cache@[token_id].B_blinding@ == 1
    }

    /// The tokens whose generators the cache holds.
    pub closed spec fn spec_tokens(self) -> Set<u64> {
        self.cache@.dom()
    }

    /// The generators of `token_id`, from the cache where it has them, and
    /// kept there where it had not.
    pub fn get(&mut self, token_id: TokenId) -> (gens: PedersenGens)
        ensures
            gens.B@ == spec_generator(token_id.0),
            gens.B_blinding@ == 1,
            final(self).spec_tokens() == old(self).spec_tokens().insert(token_id.0),
    {
        broadcast use vstd::std_specs::btree::group_btree_axioms;

        proof {
            use_type_invariant(&*self);
        }
        let mut cache: BTreeMap<u64, PedersenGens> = BTreeMap::new();
        core::mem::swap(&mut self.cache, &mut cache);
        let found = match cache.get(&token_id.0) {
            Some(gens) => Some(*gens),
            None => None,
        };
        let gens = match found {
            Some(gens) => {
                assert(cache@.dom() =~= cache@.dom().insert(token_id.0));
                gens
            },
            None => {
                let gens = generators(token_id.0);
                cache.insert(token_id.0, gens);
                gens
            },
        };
        core::mem::swap(&mut self.cache, &mut cache);
        gens
    }
}

impl Default for GeneratorCache {
    /// An empty cache.
    fn default() -> (cache: Self)
        ensures
            cache.spec_tokens() == Set::<u64>::empty(),
    {
        GeneratorCache { cache: BTreeMap::new() }
    }
}

/// A presigned RingMLSAG and ancillary data needed to incorporate it into a
/// signature.
#[derive(Clone, Debug)]
pub struct PresignedInputRing {
    /// The mlsag signature authorizing the spending of an input
    pub mlsag: RingMLSAG,
    /// The amount and blinding factor of the pseudo output
    pub pseudo_output_secret: OutputSecret,
}

/// A representation of the part of the input ring needed to verify a
/// signature.
#[derive(Clone, Debug)]
pub struct SignedInputRing {
    /// A reduced representation of the TxOut's in the ring.
    pub members: Vec<ReducedTxOut>,
}

/// The outputs as ring members, where each of them carries a masked amount.
pub open spec fn spec_reduced_ring(ring: Seq<TxOut>) -> Option<Seq<ReducedTxOut>> {
    if forall|i: int| 0 <= i < ring.len() ==> (#[trigger] ring[i]).spec_reduced() is Some {
        Some(Seq::new(ring.len(), |i: int| ring[i].spec_reduced().unwrap()))
    } else {
        None
    }
}

impl SignedInputRing {
    /// The ring of `src`, reduced to what verification reads.
    pub fn try_from(src: &TxIn) -> (r: Result<Self, TxOutConversionError>)
        ensures
            match spec_reduced_ring(src.ring@) {
                Some(members) => r is Ok && r.unwrap().members@ == members,
                None => r == Err::<Self, TxOutConversionError>(
                    TxOutConversionError::UnknownMaskedAmountVersion,
                ),
            },
    {
        let mut members: Vec<ReducedTxOut> = Vec::new();
        let mut i: usize = 0;
        while i < src.ring.len()
            invariant
                i <= src.ring@.len(),
                members@.len() == i,
                forall|k: int|
                    0 <= k < i ==> (#[trigger] src.ring@[k]).spec_reduced() == Some(members@[k]),
            decreases src.ring@.len() - i,
        {
            match src.ring[i].reduce() {
                Ok(member) => {
                    members.push(member);
                },
                Err(e) => {
                    return Err(e);
                },
            }
            i += 1;
        }
        proof {
            assert(members@ =~= spec_reduced_ring(src.ring@).unwrap());
        }
        Ok(SignedInputRing { members })
    }
}

} // verus!
