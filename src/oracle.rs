//! The decisions of one oracle pass for one passport: whether it can be evaluated, and on
//! which chains its owner's activity is looked up.

use vstd::prelude::*;
use crate::delta::texts;
use crate::ids::{canonical_chain, canonical_owner, is_chain_text, is_owner_text, parse_chain_id};
use crate::passport::{PassportInfo, TokenIdError, token_bytes};

verus! {

/// Why a passport is left out of a pass.
#[derive(Clone, Copy, Debug, PartialEq, Eq)]
pub enum SkipReason {
    /// The owner is not an account owner.
    InvalidOwner,
    /// The owner chain is not a chain id.
    InvalidChain,
    /// The token id is null or empty.
    MissingTokenId,
    /// The token id cannot be read as bytes.
    InvalidTokenId,
}

/// What a pass needs to evaluate one passport.
#[derive(Clone, Debug)]
pub struct PassportPlan {
    pub owner: String,
    pub home_chain: String,
    /// The chains to query, the home chain first.
    pub chains: Vec<String>,
    pub token_id: Vec<u8>,
}

/// The canonical texts of the configured chain ids that are valid, in order.
pub open spec fn valid_chains(ids: Seq<String>) -> Seq<Seq<char>>
    decreases ids.len(),
{
    if ids.len() == 0 {
        Seq::empty()
    } else {
        let earlier = valid_chains(ids.drop_last());
        if is_chain_text(ids.last()@) {
            earlier.push(canonical_chain(ids.last()@))
        } else {
            earlier
        }
    }
}

/// The chains to query for an owner: the home chain, then each configured chain id that
/// is valid; invalid ones are skipped.
pub fn chains_to_query(home_chain: &String, cross_chain_ids: &Vec<String>) -> (r: Vec<String>)
    ensures
        texts(r@) == seq![home_chain@] + valid_chains(cross_chain_ids@),
{
    let mut chains: Vec<String> = Vec::new();
    chains.push(home_chain.clone());
    let mut i: usize = 0;
    proof {
        assert(cross_chain_ids@.take(0) =~= Seq::<String>::empty());
        assert(texts(chains@) =~= seq![home_chain@] + valid_chains(cross_chain_ids@.take(0)));
    }
    while i < cross_chain_ids.len()
        invariant
            0 <= i <= cross_chain_ids.len(),
            texts(chains@) == seq![home_chain@] + valid_chains(cross_chain_ids@.take(i as int)),
        decreases cross_chain_ids.len() - i,
    {
        proof {
            assert(cross_chain_ids@.take(i + 1).drop_last() =~= cross_chain_ids@.take(i as int));
        }
        let ghost before = chains@;
        match parse_chain_id(cross_chain_ids[i].as_str()) {
            Some(chain) => {
                chains.push(chain);
                proof {
                    assert(texts(chains@) =~= texts(before).push(
                        canonical_chain(cross_chain_ids@[i as int]@),
                    ));
                }
            },
            None => {},
        }
        i += 1;
    }
    proof {
        assert(cross_chain_ids@.take(i as int) =~= cross_chain_ids@);
    }
    chains
}

/// Checks a passport's owner, chain and token id, and lists the chains to query.
pub fn plan_passport(passport: &PassportInfo, cross_chain_ids: &Vec<String>) -> (r: Result<
    PassportPlan,
    SkipReason,
>)
    ensures
        r == Err::<PassportPlan, SkipReason>(SkipReason::InvalidOwner) <==> !is_owner_text(
            passport.owner@,
        ),
        r == Err::<PassportPlan, SkipReason>(SkipReason::InvalidChain) <==> is_owner_text(
            passport.owner@,
        ) && !is_chain_text(passport.owner_chain@),
        r == Err::<PassportPlan, SkipReason>(SkipReason::MissingTokenId) <==> is_owner_text(
            passport.owner@,
        ) && is_chain_text(passport.owner_chain@) && token_bytes(passport.token_id.id) == Ok::<
            Option<Seq<u8>>,
            TokenIdError,
        >(None),
        r == Err::<PassportPlan, SkipReason>(SkipReason::InvalidTokenId) <==> is_owner_text(
            passport.owner@,
        ) && is_chain_text(passport.owner_chain@) && token_bytes(passport.token_id.id) is Err,
        r matches Ok(plan) ==> {
            &&& plan.owner@ == canonical_owner(passport.owner@)
            &&& plan.home_chain@ == canonical_chain(passport.owner_chain@)
            &&& texts(plan.chains@) == seq![plan.home_chain@] + valid_chains(cross_chain_ids@)
            &&& token_bytes(passport.token_id.id) == Ok::<Option<Seq<u8>>, TokenIdError>(Some(plan.token_id@))
        },
{
    let owner = match passport.owner_account() {
        Some(o) => o,
        None => return Err(SkipReason::InvalidOwner),
    };
    let home_chain = match passport.owner_chain_id() {
        Some(c) => c,
        None => return Err(SkipReason::InvalidChain),
    };
    let token_id = match passport.token_id_bytes() {
        Ok(Some(bytes)) => bytes,
        Ok(None) => return Err(SkipReason::MissingTokenId),
        Err(_) => return Err(SkipReason::InvalidTokenId),
    };
    let chains = chains_to_query(&home_chain, cross_chain_ids);
    Ok(PassportPlan { owner, home_chain, chains, token_id })
}

} // verus!
