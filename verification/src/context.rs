//! The read interface the packet handler validates against.  Every lookup
//! is a pure read of ledger state as of the current execution; absence is
//! reported as `None` and mapped by the handler to a named error, never
//! retried.

use vstd::prelude::*;
use crate::channel::{ChannelEnd, ChannelEndView};
use crate::client::{ClientState, ConsensusState};
use crate::connection::{ConnectionEnd, ConnectionEndView};
use crate::error::{Error, KindView};
use crate::height::Height;
use crate::identifier::{ChannelId, ClientId, ConnectionId, PortId};
use crate::packet::Sequence;

verus! {

/// An unforgeable token authorizing the caller to act on a port.
#[derive(Clone, Copy, Debug)]
pub struct Capability {
    pub index: u64,
}

/// Read-only access to the ledger records the packet handler checks: every
/// method returns exactly what the corresponding `spec_` function of the
/// implementing store holds, so the handler's contract can be stated over
/// those functions alone.
pub trait ChannelReader {
    /// The channel record stored for a (port, channel) pair, as a value.
    spec fn spec_channel_end(&self, port: Seq<char>, channel: Seq<char>)
        -> Option<ChannelEndView>;

    /// The connection record stored for a connection identifier.
    spec fn spec_connection_end(&self, connection_id: Seq<char>) -> Option<ConnectionEndView>;

    /// The client state stored for a client identifier.
    spec fn spec_client_state(&self, client_id: Seq<char>) -> Option<ClientState>;

    /// The consensus snapshot stored for a client at a height.
    spec fn spec_client_consensus_state(&self, client_id: Seq<char>, height: Height)
        -> Option<ConsensusState>;

    /// The current height of the ledger executing the handler.
    spec fn spec_host_current_height(&self) -> Height;

    /// The host ledger's own latest consensus snapshot.
    spec fn spec_host_consensus_state(&self) -> Option<ConsensusState>;

    /// The next-send-sequence counter for a (port, channel) pair.
    spec fn spec_next_sequence_send(&self, port: Seq<char>, channel: Seq<char>) -> Option<u64>;

    /// Whether the caller holds the capability for a port.
    spec fn spec_has_capability(&self, port: Seq<char>) -> bool;

    fn channel_end(&self, port_channel_id: &(PortId, ChannelId)) -> (r: Option<ChannelEnd>)
        ensures
            match r {
                Some(ce) => self.spec_channel_end(port_channel_id.0@, port_channel_id.1@)
                    == Some(ce@),
                None => self.spec_channel_end(port_channel_id.0@, port_channel_id.1@) is None,
            },
    ;

    fn connection_end(&self, connection_id: &ConnectionId) -> (r: Option<ConnectionEnd>)
        ensures
            match r {
                Some(ce) => self.spec_connection_end(connection_id@) == Some(ce@),
                None => self.spec_connection_end(connection_id@) is None,
            },
    ;

    fn client_state(&self, client_id: &ClientId) -> (r: Option<ClientState>)
        ensures
            r == self.spec_client_state(client_id@),
    ;

    fn client_consensus_state(&self, client_id: &ClientId, height: Height)
        -> (r: Option<ConsensusState>)
        ensures
            r == self.spec_client_consensus_state(client_id@, height),
    ;

    fn channel_host_current_height(&self) -> (r: Height)
        ensures
            r == self.spec_host_current_height(),
    ;

    fn channel_host_consensus_state(&self) -> (r: Option<ConsensusState>)
        ensures
            r == self.spec_host_consensus_state(),
    ;

    fn get_next_sequence_send(&self, port_channel_id: &(PortId, ChannelId))
        -> (r: Option<Sequence>)
        ensures
            match r {
                Some(s) => self.spec_next_sequence_send(port_channel_id.0@, port_channel_id.1@)
                    == Some(s.0),
                None => self.spec_next_sequence_send(port_channel_id.0@, port_channel_id.1@)
                    is None,
            },
    ;

    /// Succeeds exactly when the caller holds the port's capability; the
    /// only error it may report is [`Kind::Unauthorized`].
    fn authenticated_capability(&self, port: &PortId) -> (r: Result<Capability, Error>)
        ensures
            r is Ok <==> self.spec_has_capability(port@),
            r matches Err(e) ==> e.kind@ == KindView::Unauthorized,
    ;
}

} // verus!
