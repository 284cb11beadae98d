//! Light-client records: the client's view of a counterparty ledger
//! (`ClientState`) and a consensus snapshot at one height
//! (`ConsensusState`), together with the nanosecond timestamps they carry.

use vstd::prelude::*;
use crate::height::Height;

verus! {

/// A point in time, in nanoseconds since an epoch shared by both ledgers.
#[derive(Clone, Copy, PartialEq, Eq, Structural, Debug, Hash)]
pub struct Timestamp {
    pub nanoseconds: u64,
}

impl Timestamp {
    /// The timestamp `nanos` nanoseconds later, saturating at the largest
    /// representable time.
    pub open spec fn spec_add_nanos(self, nanos: u64) -> Timestamp {
        Timestamp {
            nanoseconds: if self.nanoseconds + nanos <= u64::MAX {
                (self.nanoseconds + nanos) as u64
            } else {
                u64::MAX
            },
        }
    }

    pub fn new(nanoseconds: u64) -> (r: Timestamp)
        ensures
            r == (Timestamp { nanoseconds }),
    {
        Timestamp { nanoseconds }
    }

    /// Saturating addition of a relative timeout in nanoseconds.
    pub fn add_nanos(self, nanos: u64) -> (r: Timestamp)
        ensures
            r == self.spec_add_nanos(nanos),
    {
        let nanoseconds: u64 = if nanos <= u64::MAX - self.nanoseconds {
            self.nanoseconds + nanos
        } else {
            u64::MAX
        };
        Timestamp { nanoseconds }
    }

    /// Strictly-earlier comparison.
    pub fn lt(&self, other: &Timestamp) -> (r: bool)
        ensures
            r == (self.nanoseconds < other.nanoseconds),
    {
        self.nanoseconds < other.nanoseconds
    }
}

/// What the handler reads of a light client: its latest proven height and
/// whether misbehaviour froze it.  A frozen client can no longer be updated,
/// so nothing sent through it could ever be proven on the counterparty.
#[derive(Clone, Copy, PartialEq, Eq, Structural, Debug, Hash)]
pub struct ClientState {
    pub latest_height: Height,
    pub frozen: bool,
}

impl ClientState {
    pub fn new(latest_height: Height, frozen: bool) -> (r: ClientState)
        ensures
            r == (ClientState { latest_height, frozen }),
    {
        ClientState { latest_height, frozen }
    }

    /// The latest counterparty height this client has verified.
    pub fn latest_height(&self) -> (r: Height)
        ensures
            r == self.latest_height,
    {
        self.latest_height
    }

    /// True iff detected misbehaviour froze this client.
    pub fn is_frozen(&self) -> (r: bool)
        ensures
            r == self.frozen,
    {
        self.frozen
    }
}

/// A consensus snapshot of a ledger at one height; the handler only reads the
/// timestamp the snapshot was taken at.
#[derive(Clone, Copy, PartialEq, Eq, Structural, Debug, Hash)]
pub struct ConsensusState {
    pub timestamp: Timestamp,
}

impl ConsensusState {
    pub fn new(timestamp: Timestamp) -> (r: ConsensusState)
        ensures
            r == (ConsensusState { timestamp }),
    {
        ConsensusState { timestamp }
    }

    /// The time at which this snapshot was taken.
    pub fn latest_timestamp(&self) -> (r: Timestamp)
        ensures
            r == self.timestamp,
    {
        self.timestamp
    }
}

} // verus!
