//! Ready-made chains: one that verifies and one that does not.

use crate::chain_laws::{
    lemma_broken_first_link_invalidates_chain, lemma_chain_grown_by_child_is_valid,
};
use crate::header_chain::Header;
use vstd::prelude::*;

verus! {

/// Builds a valid chain of exactly five headers: genesis, then four times
/// the child of the last header so far.
pub fn build_valid_chain_length_5() -> (chain: Vec<Header>)
    ensures
        chain@.len() == 5,
        chain@[0] == Header::spec_genesis(),
        Header::grown_by_child(chain@),
        chain@[0].valid_sub_chain(chain@.skip(1)),
{
    let mut chain: Vec<Header> = vec![Header::genesis()];
    for n in 0..4usize
        invariant
            chain@.len() == n + 1,
            chain@[0] == Header::spec_genesis(),
            Header::grown_by_child(chain@),
    {
        let next = chain[n].child();
        chain.push(next);
    }
    proof {
        lemma_chain_grown_by_child_is_valid(chain@);
    }
    chain
}

/// Builds a chain of three headers that starts with a proper genesis header
/// and is not valid: each of the three is a genesis header, so the second
/// already stands at the wrong height.
pub fn build_an_invalid_chain() -> (chain: Vec<Header>)
    ensures
        chain@ == seq![Header::spec_genesis(), Header::spec_genesis(), Header::spec_genesis()],
        !chain@[0].valid_sub_chain(chain@.skip(1)),
{
    let chain: Vec<Header> = vec![Header::genesis(), Header::genesis(), Header::genesis()];
    proof {
        lemma_broken_first_link_invalidates_chain(chain@[0], chain@.skip(1));
    }
    chain
}

} // verus!
