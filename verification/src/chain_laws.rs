//! What holds of chain verification for every header and every chain.

use crate::digest::spec_hash;
use crate::header_chain::Header;
use vstd::prelude::*;

verus! {

/// An empty continuation is valid, whatever header it continues.
pub proof fn lemma_empty_sub_chain_is_valid(start: Header)
    ensures
        start.valid_sub_chain(Seq::<Header>::empty()),
{
}

/// A continuation that is not empty is valid exactly when its first header
/// links to the start and the rest is a valid continuation of that first
/// header.
pub proof fn lemma_valid_sub_chain_unfolds(start: Header, chain: Seq<Header>)
    requires
        chain.len() > 0,
    ensures
        start.valid_sub_chain(chain) <==> start.links_to(chain[0]) && chain[0].valid_sub_chain(
            chain.skip(1),
        ),
{
    let rest = chain.skip(1);
    if start.valid_sub_chain(chain) {
        assert(start.link_holds_at(chain, 0));
        assert forall|i: int| 0 <= i < rest.len() implies #[trigger] chain[0].link_holds_at(
            rest,
            i,
        ) by {
            assert(start.link_holds_at(chain, i + 1));
        }
    }
    if start.links_to(chain[0]) && chain[0].valid_sub_chain(rest) {
        assert forall|i: int| 0 <= i < chain.len() implies #[trigger] start.link_holds_at(
            chain,
            i,
        ) by {
            if i > 0 {
                assert(chain[0].link_holds_at(rest, i - 1));
            }
        }
    }
}

/// One header that fails to link makes the whole continuation invalid,
/// however well the headers around it link.
pub proof fn lemma_broken_link_invalidates_chain(start: Header, chain: Seq<Header>, i: int)
    requires
        0 <= i < chain.len(),
        !start.link_holds_at(chain, i),
    ensures
        !start.valid_sub_chain(chain),
{
}

/// A continuation whose first header does not link to the start is invalid,
/// whatever the later headers hold.
pub proof fn lemma_broken_first_link_invalidates_chain(start: Header, chain: Seq<Header>)
    requires
        chain.len() > 0,
        !start.links_to(chain[0]),
    ensures
        !start.valid_sub_chain(chain),
{
    lemma_broken_link_invalidates_chain(start, chain, 0);
}

/// A header does not continue `start` once its height is set to anything but
/// the height of `start` plus one.
pub proof fn lemma_wrong_height_is_rejected(start: Header, next: Header, height: u64)
    requires
        height != start.height + 1,
    ensures
        !start.valid_sub_chain(seq![(Header { height: height, ..next })]),
{
    let tampered = seq![(Header { height: height, ..next })];
    lemma_broken_link_invalidates_chain(start, tampered, 0);
}

/// A header does not continue `start` once its parent is set to anything but
/// the digest of `start`.
pub proof fn lemma_wrong_parent_is_rejected(start: Header, next: Header, parent: u64)
    requires
        parent != spec_hash(start),
    ensures
        !start.valid_sub_chain(seq![(Header { parent: parent, ..next })]),
{
    let tampered = seq![(Header { parent: parent, ..next })];
    lemma_broken_link_invalidates_chain(start, tampered, 0);
}

/// The child of a header below the greatest height is a valid continuation
/// of it.
pub proof fn lemma_child_continues_parent(start: Header)
    requires
        start.height < u64::MAX,
    ensures
        start.links_to(start.spec_child()),
        start.valid_sub_chain(seq![start.spec_child()]),
{
    let one = seq![start.spec_child()];
    assert forall|i: int| 0 <= i < one.len() implies #[trigger] start.link_holds_at(one, i) by {}
}

/// In a chain grown by `child` alone, heights count up from the first
/// header's, as long as they fit in 64 bits.
pub proof fn lemma_heights_count_up(chain: Seq<Header>, i: int)
    requires
        Header::grown_by_child(chain),
        0 <= i < chain.len(),
        chain[0].height + i <= u64::MAX,
    ensures
        chain[i].height == chain[0].height + i,
    decreases i,
{
    if i > 0 {
        lemma_heights_count_up(chain, i - 1);
        assert(chain[i] == chain[i - 1].spec_child());
    }
}

/// A chain grown by `child` alone is valid when checked from its first
/// header against the rest, as long as its heights fit in 64 bits.
pub proof fn lemma_chain_grown_by_child_is_valid(chain: Seq<Header>)
    requires
        chain.len() >= 1,
        Header::grown_by_child(chain),
        chain[0].height + chain.len() - 1 <= u64::MAX,
    ensures
        chain[0].valid_sub_chain(chain.skip(1)),
{
    let rest = chain.skip(1);
    assert forall|i: int| 0 <= i < rest.len() implies #[trigger] chain[0].link_holds_at(rest, i) by {
        lemma_heights_count_up(chain, i);
        assert(chain[i + 1] == chain[i].spec_child());
        assert(chain[0].predecessor(rest, i) == chain[i]);
    }
}

} // verus!
