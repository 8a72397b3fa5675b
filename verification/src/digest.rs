//! The digest that links one header to the next.
//!
//! The chain logic treats the digest as an arbitrary function from a header
//! to a `u64`: nothing there depends on which function it is, only on its
//! being one. Nothing is claimed about collisions.

use crate::header_chain::Header;
use std::collections::hash_map::DefaultHasher;
use std::hash::Hasher;
use vstd::bytes::{spec_u64_to_le_bytes, u64_to_le_bytes};
use vstd::prelude::*;
use vstd::std_specs::hash::DefaultHasherAdditionalSpecFns;

verus! {

/// What is written to the hasher for `header`: the little-endian bytes of
/// its parent, then those of its height. The placeholder fields are empty
/// and contribute nothing.
pub open spec fn hashed_bytes(header: Header) -> Seq<Seq<u8>> {
    seq![spec_u64_to_le_bytes(header.parent), spec_u64_to_le_bytes(header.height)]
}

/// The digest of `header`: what the standard library's default hasher
/// returns after `hashed_bytes(header)` has been written to it.
pub open spec fn spec_hash(header: Header) -> crate::header_chain::Hash {
    DefaultHasher::spec_finish(hashed_bytes(header))
}

/// Computes the digest of `header`.
///
/// The result is a function of the header's content alone, so hashing an
/// unchanged header again gives the same digest.
pub fn hash(header: &Header) -> (digest: crate::header_chain::Hash)
    ensures
        digest == spec_hash(*header),
{
    let mut state = DefaultHasher::new();
    let parent_bytes = u64_to_le_bytes(header.parent);
    state.write(parent_bytes.as_slice());
    let height_bytes = u64_to_le_bytes(header.height);
    state.write(height_bytes.as_slice());
    assert(state@ =~= hashed_bytes(*header));
    state.finish()
}

} // verus!
