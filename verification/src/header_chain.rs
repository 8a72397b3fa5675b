//! Block headers and the rule that links each header to the one before it.

use crate::digest::{hash, spec_hash};
use vstd::prelude::*;

verus! {

/// A digest: a 64-bit integer.
pub type Hash = u64;

/// The parent recorded in a genesis header, which has no real parent.
pub const NO_PARENT: Hash = 0;

/// The metadata of one block.
///
/// A header names the header before it by that header's digest and counts its
/// distance from genesis. The three root fields are empty for now; they keep
/// the header's shape for the day they carry content.
#[derive(Debug, Eq, Hash)]
pub struct Header {
    pub parent: Hash,
    pub height: u64,
    pub extrinsics_root: (),
    pub state_root: (),
    pub consensus_digest: (),
}

impl Clone for Header {
    /// A clone has the same fields.
    fn clone(&self) -> (copy: Header)
        ensures
            copy == *self,
    {
        Header {
            parent: self.parent,
            height: self.height,
            extrinsics_root: self.extrinsics_root,
            state_root: self.state_root,
            consensus_digest: self.consensus_digest,
        }
    }
}

impl PartialEq for Header {
    /// Two headers are equal when their fields are.
    fn eq(&self, other: &Header) -> (equal: bool) {
        self.parent == other.parent && self.height == other.height
    }
}

impl vstd::std_specs::cmp::PartialEqSpecImpl for Header {
    open spec fn obeys_eq_spec() -> bool {
        true
    }

    open spec fn eq_spec(&self, other: &Header) -> bool {
        *self == *other
    }
}

impl Header {
    /// The genesis header: no parent, height zero.
    pub open spec fn spec_genesis() -> Header {
        Header {
            parent: NO_PARENT,
            height: 0,
            extrinsics_root: (),
            state_root: (),
            consensus_digest: (),
        }
    }

    /// The height of a child of a header at `height`: one more, and zero
    /// after `u64::MAX`.
    pub open spec fn next_height(height: u64) -> u64 {
        if height < u64::MAX {
            (height + 1) as u64
        } else {
            0
        }
    }

    /// The child of `self`: its parent is the digest of `self`, its height
    /// is the next one, and the placeholder fields are carried over.
    pub open spec fn spec_child(self) -> Header {
        Header { parent: spec_hash(self), height: Self::next_height(self.height), ..self }
    }

    /// Whether `next` may directly follow `self` in a chain: it names `self`
    /// as its parent and stands exactly one higher.
    pub open spec fn links_to(self, next: Header) -> bool {
        &&& next.parent == spec_hash(self)
        &&& next.height == self.height + 1
    }

    /// The header that stands directly before position `i` of `chain`, where
    /// `chain` continues `self`: `self` before the first position, and the
    /// header one position earlier before every other.
    pub open spec fn predecessor(self, chain: Seq<Header>, i: int) -> Header {
        if i == 0 {
            self
        } else {
            chain[i - 1]
        }
    }

    /// Whether the header at position `i` of `chain` links to the header
    /// before it.
    pub open spec fn link_holds_at(self, chain: Seq<Header>, i: int) -> bool {
        self.predecessor(chain, i).links_to(chain[i])
    }

    /// Whether `chain` is an unbroken continuation of `self`: every header in
    /// it links to the one before it, the first to `self`. Nothing is asked
    /// of `self` itself.
    pub open spec fn valid_sub_chain(self, chain: Seq<Header>) -> bool {
        forall|i: int| 0 <= i < chain.len() ==> #[trigger] self.link_holds_at(chain, i)
    }

    /// Whether `chain` was grown by `child` alone: every header after the
    /// first is the child of the header before it.
    pub open spec fn grown_by_child(chain: Seq<Header>) -> bool {
        forall|i: int| 0 < i < chain.len() ==> #[trigger] chain[i] == chain[i - 1].spec_child()
    }

    /// Returns the genesis header.
    pub fn genesis() -> (g: Header)
        ensures
            g == Self::spec_genesis(),
            g.parent == NO_PARENT,
            g.height == 0,
    {
        Header {
            parent: NO_PARENT,
            height: 0,
            extrinsics_root: (),
            state_root: (),
            consensus_digest: (),
        }
    }

    /// Returns a child of this header and leaves this header as it is.
    ///
    /// Heights are 64 bits wide. A header at `u64::MAX` has no valid child:
    /// the header returned for it has height zero and does not link to it.
    pub fn child(&self) -> (next: Header)
        ensures
            next == self.spec_child(),
            next.parent == spec_hash(*self),
            self.height < u64::MAX ==> next.height == self.height + 1,
            self.height == u64::MAX ==> next.height == 0,
            self.height < u64::MAX <==> self.links_to(next),
    {
        Header {
            parent: hash(self),
            height: self.height.wrapping_add(1),
            extrinsics_root: self.extrinsics_root,
            state_root: self.state_root,
            consensus_digest: self.consensus_digest,
        }
    }

    /// Checks that `chain` is an unbroken continuation of this header.
    ///
    /// The header it is called on is taken as trusted. A whole chain is
    /// checked by calling this on its genesis header with the rest of the
    /// chain. An empty continuation is valid. The answer is `false` as soon
    /// as one header fails to link, whatever follows it.
    pub fn verify_sub_chain(&self, chain: &[Header]) -> (valid: bool)
        ensures
            valid == self.valid_sub_chain(chain@),
            chain@.len() == 0 ==> valid,
    {
        let mut prev: &Header = self;
        let mut i: usize = 0;
        while i < chain.len()
            invariant
                i <= chain.len(),
                *prev == self.predecessor(chain@, i as int),
                forall|j: int| 0 <= j < i ==> #[trigger] self.link_holds_at(chain@, j),
            decreases chain.len() - i,
        {
            let next = &chain[i];
            let linked = next.parent == hash(prev) && prev.height < u64::MAX && prev.height + 1
                == next.height;
            if !linked {
                assert(!self.link_holds_at(chain@, i as int));
                return false;
            }
            prev = next;
            i += 1;
        }
        true
    }
}

} // verus!
