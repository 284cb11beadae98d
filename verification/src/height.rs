//! Two-part ledger heights: a revision number and a height within that
//! revision, ordered lexicographically.  The all-zero height is a sentinel
//! meaning "no height-based timeout requested".

use vstd::prelude::*;

verus! {

/// A ledger height, made of the revision (fork) number and the block height
/// within that revision.
#[derive(Clone, Copy, PartialEq, Eq, Structural, Debug, Hash)]
pub struct Height {
    pub revision_number: u64,
    pub revision_height: u64,
}

impl Height {
    /// True iff both parts are zero; such a height is the "no timeout" sentinel.
    pub open spec fn spec_is_zero(self) -> bool {
        self.revision_number == 0 && self.revision_height == 0
    }

    /// The height `delta` blocks later in the same revision, saturating at the
    /// largest representable height of the revision.
    pub open spec fn spec_add(self, delta: u64) -> Height {
        Height {
            revision_number: self.revision_number,
            revision_height: if self.revision_height + delta <= u64::MAX {
                (self.revision_height + delta) as u64
            } else {
                u64::MAX
            },
        }
    }

    /// Lexicographic order: revision number first, then height.
    pub open spec fn spec_lt(self, other: Height) -> bool {
        ||| self.revision_number < other.revision_number
        ||| (self.revision_number == other.revision_number
            && self.revision_height < other.revision_height)
    }

    pub fn new(revision_number: u64, revision_height: u64) -> (r: Height)
        ensures
            r == (Height { revision_number, revision_height }),
    {
        Height { revision_number, revision_height }
    }

    pub fn is_zero(&self) -> (r: bool)
        ensures
            r == self.spec_is_zero(),
    {
        self.revision_number == 0 && self.revision_height == 0
    }

    /// Saturating addition of a raw number of blocks to the revision height,
    /// used for timeouts given relative to the current height.
    pub fn add(self, delta: u64) -> (r: Height)
        ensures
            r == self.spec_add(delta),
    {
        let revision_height: u64 = if delta <= u64::MAX - self.revision_height {
            self.revision_height + delta
        } else {
            u64::MAX
        };
        Height { revision_number: self.revision_number, revision_height }
    }

    /// Strictly-less comparison in the lexicographic order.
    pub fn lt(&self, other: &Height) -> (r: bool)
        ensures
            r == self.spec_lt(*other),
    {
        self.revision_number < other.revision_number
            || (self.revision_number == other.revision_number
                && self.revision_height < other.revision_height)
    }
}

impl Default for Height {
    /// The zero height: the "no timeout" sentinel.
    fn default() -> (r: Height)
        ensures
            r == (Height { revision_number: 0, revision_height: 0 }),
    {
        Height { revision_number: 0, revision_height: 0 }
    }
}

} // verus!
