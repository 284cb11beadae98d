//! An in-memory store implementing [`ChannelReader`], used to exercise the
//! handler: records live in plain vectors, later registrations shadowing
//! earlier ones for the same key.

use vstd::prelude::*;
use crate::channel::{ChannelEnd, ChannelEndView};
use crate::client::{ClientState, ConsensusState, Timestamp};
use crate::connection::{ConnectionEnd, ConnectionEndView};
use crate::context::{Capability, ChannelReader};
use crate::error::{Error, Kind};
use crate::height::Height;
use crate::identifier::{ChannelId, ClientId, ConnectionId, PortId};
use crate::packet::Sequence;

verus! {

/// What the mock stores per client: its state and the consensus snapshots
/// by height.
#[derive(Clone, Debug)]
pub struct MockClientRecord {
    pub client_state: ClientState,
    pub consensus_states: Vec<(Height, ConsensusState)>,
}

/// The last entry whose (port, channel) key matches, as a channel value.
pub open spec fn lookup_channel(
    entries: Seq<(PortId, ChannelId, ChannelEnd)>,
    port: Seq<char>,
    channel: Seq<char>,
) -> Option<ChannelEndView>
    decreases entries.len(),
{
    if entries.len() == 0 {
        None
    } else if entries.last().0@ == port && entries.last().1@ == channel {
        Some(entries.last().2@)
    } else {
        lookup_channel(entries.drop_last(), port, channel)
    }
}

/// The last entry whose connection identifier matches, as a connection value.
pub open spec fn lookup_connection(
    entries: Seq<(ConnectionId, ConnectionEnd)>,
    connection_id: Seq<char>,
) -> Option<ConnectionEndView>
    decreases entries.len(),
{
    if entries.len() == 0 {
        None
    } else if entries.last().0@ == connection_id {
        Some(entries.last().1@)
    } else {
        lookup_connection(entries.drop_last(), connection_id)
    }
}

/// The last record registered for a client identifier.
pub open spec fn lookup_client(
    entries: Seq<(ClientId, MockClientRecord)>,
    client_id: Seq<char>,
) -> Option<MockClientRecord>
    decreases entries.len(),
{
    if entries.len() == 0 {
        None
    } else if entries.last().0@ == client_id {
        Some(entries.last().1)
    } else {
        lookup_client(entries.drop_last(), client_id)
    }
}

/// The last snapshot stored at exactly the given height.
pub open spec fn lookup_consensus(
    entries: Seq<(Height, ConsensusState)>,
    height: Height,
) -> Option<ConsensusState>
    decreases entries.len(),
{
    if entries.len() == 0 {
        None
    } else if entries.last().0 == height {
        Some(entries.last().1)
    } else {
        lookup_consensus(entries.drop_last(), height)
    }
}

/// The last counter stored for a (port, channel) key.
pub open spec fn lookup_sequence(
    entries: Seq<(PortId, ChannelId, Sequence)>,
    port: Seq<char>,
    channel: Seq<char>,
) -> Option<u64>
    decreases entries.len(),
{
    if entries.len() == 0 {
        None
    } else if entries.last().0@ == port && entries.last().1@ == channel {
        Some(entries.last().2.0)
    } else {
        lookup_sequence(entries.drop_last(), port, channel)
    }
}

/// Whether a capability was granted for the port.
pub open spec fn contains_port(entries: Seq<PortId>, port: Seq<char>) -> bool
    decreases entries.len(),
{
    if entries.len() == 0 {
        false
    } else {
        entries.last()@ == port || contains_port(entries.drop_last(), port)
    }
}

/// An in-memory ledger state for exercising the handler, populated through
/// the `with_` builders.
#[derive(Clone, Debug)]
pub struct MockContext {
    pub host_height: Height,
    pub host_consensus_state: Option<ConsensusState>,
    pub channels: Vec<(PortId, ChannelId, ChannelEnd)>,
    pub connections: Vec<(ConnectionId, ConnectionEnd)>,
    pub clients: Vec<(ClientId, MockClientRecord)>,
    pub port_capabilities: Vec<PortId>,
    pub next_sequence_sends: Vec<(PortId, ChannelId, Sequence)>,
}

impl Default for MockContext {
    /// An empty store on a host ledger at height (0, 1) whose own latest
    /// consensus snapshot carries timestamp 0.
    fn default() -> (r: MockContext)
        ensures
            r.host_height == (Height { revision_number: 0, revision_height: 1 }),
            r.host_consensus_state == Some(
                ConsensusState { timestamp: Timestamp { nanoseconds: 0 } },
            ),
            r.channels@.len() == 0,
            r.connections@.len() == 0,
            r.clients@.len() == 0,
            r.port_capabilities@.len() == 0,
            r.next_sequence_sends@.len() == 0,
    {
        MockContext {
            host_height: Height { revision_number: 0, revision_height: 1 },
            host_consensus_state: Some(
                ConsensusState { timestamp: Timestamp { nanoseconds: 0 } },
            ),
            channels: Vec::new(),
            connections: Vec::new(),
            clients: Vec::new(),
            port_capabilities: Vec::new(),
            next_sequence_sends: Vec::new(),
        }
    }
}

impl MockContext {
    /// Registers an unfrozen client at the given latest height, with one
    /// consensus snapshot at that height carrying timestamp 0.
    pub fn with_client(self, client_id: &ClientId, height: Height) -> (r: MockContext)
        ensures
            r.spec_client_state(client_id@) == Some(
                ClientState { latest_height: height, frozen: false },
            ),
            r.spec_client_consensus_state(client_id@, height) == Some(
                ConsensusState { timestamp: Timestamp { nanoseconds: 0 } },
            ),
            forall|id: Seq<char>| id != client_id@
                ==> r.spec_client_state(id) == self.spec_client_state(id),
            r.host_height == self.host_height,
            r.host_consensus_state == self.host_consensus_state,
            r.channels == self.channels,
            r.connections == self.connections,
            r.port_capabilities == self.port_capabilities,
            r.next_sequence_sends == self.next_sequence_sends,
    {
        self.with_client_record(client_id, height, false)
    }

    /// Registers a frozen client at the given latest height, with one
    /// consensus snapshot at that height carrying timestamp 0.
    pub fn with_frozen_client(self, client_id: &ClientId, height: Height) -> (r: MockContext)
        ensures
            r.spec_client_state(client_id@) == Some(
                ClientState { latest_height: height, frozen: true },
            ),
            r.spec_client_consensus_state(client_id@, height) == Some(
                ConsensusState { timestamp: Timestamp { nanoseconds: 0 } },
            ),
            forall|id: Seq<char>| id != client_id@
                ==> r.spec_client_state(id) == self.spec_client_state(id),
            r.host_height == self.host_height,
            r.host_consensus_state == self.host_consensus_state,
            r.channels == self.channels,
            r.connections == self.connections,
            r.port_capabilities == self.port_capabilities,
            r.next_sequence_sends == self.next_sequence_sends,
    {
        self.with_client_record(client_id, height, true)
    }

    fn with_client_record(self, client_id: &ClientId, height: Height, frozen: bool) -> (r:
        MockContext)
        ensures
            r.spec_client_state(client_id@) == Some(
                ClientState { latest_height: height, frozen },
            ),
            r.spec_client_consensus_state(client_id@, height) == Some(
                ConsensusState { timestamp: Timestamp { nanoseconds: 0 } },
            ),
            forall|id: Seq<char>| id != client_id@
                ==> r.spec_client_state(id) == self.spec_client_state(id),
            r.host_height == self.host_height,
            r.host_consensus_state == self.host_consensus_state,
            r.channels == self.channels,
            r.connections == self.connections,
            r.port_capabilities == self.port_capabilities,
            r.next_sequence_sends == self.next_sequence_sends,
    {
        let mut consensus_states: Vec<(Height, ConsensusState)> = Vec::new();
        consensus_states.push((height, ConsensusState { timestamp: Timestamp { nanoseconds: 0 } }));
        let record = MockClientRecord {
            client_state: ClientState { latest_height: height, frozen },
            consensus_states,
        };
        let mut clients = self.clients;
        clients.push((client_id.clone(), record));
        let r = MockContext {
            host_height: self.host_height,
            host_consensus_state: self.host_consensus_state,
            channels: self.channels,
            connections: self.connections,
            clients,
            port_capabilities: self.port_capabilities,
            next_sequence_sends: self.next_sequence_sends,
        };
        proof {
            assert(r.clients@.drop_last() =~= self.clients@);
            assert forall|id: Seq<char>| id != client_id@ implies r.spec_client_state(id)
                == self.spec_client_state(id) by {
                assert(lookup_client(r.clients@, id) == lookup_client(self.clients@, id));
            }
        }
        r
    }

    /// Registers a connection record under its identifier.
    pub fn with_connection(self, connection_id: ConnectionId, connection_end: ConnectionEnd) -> (
        r: MockContext)
        ensures
            r.spec_connection_end(connection_id@) == Some(connection_end@),
            forall|id: Seq<char>| id != connection_id@
                ==> r.spec_connection_end(id) == self.spec_connection_end(id),
            r.host_height == self.host_height,
            r.host_consensus_state == self.host_consensus_state,
            r.channels == self.channels,
            r.clients == self.clients,
            r.port_capabilities == self.port_capabilities,
            r.next_sequence_sends == self.next_sequence_sends,
    {
        let mut connections = self.connections;
        connections.push((connection_id, connection_end));
        let r = MockContext {
            host_height: self.host_height,
            host_consensus_state: self.host_consensus_state,
            channels: self.channels,
            connections,
            clients: self.clients,
            port_capabilities: self.port_capabilities,
            next_sequence_sends: self.next_sequence_sends,
        };
        proof {
            assert(r.connections@.drop_last() =~= self.connections@);
        }
        r
    }

    /// Grants the caller the capability for a port.
    pub fn with_port_capability(self, port: PortId) -> (r: MockContext)
        ensures
            r.spec_has_capability(port@),
            forall|p: Seq<char>| p != port@
                ==> r.spec_has_capability(p) == self.spec_has_capability(p),
            r.host_height == self.host_height,
            r.host_consensus_state == self.host_consensus_state,
            r.channels == self.channels,
            r.connections == self.connections,
            r.clients == self.clients,
            r.next_sequence_sends == self.next_sequence_sends,
    {
        let mut port_capabilities = self.port_capabilities;
        port_capabilities.push(port);
        let r = MockContext {
            host_height: self.host_height,
            host_consensus_state: self.host_consensus_state,
            channels: self.channels,
            connections: self.connections,
            clients: self.clients,
            port_capabilities,
            next_sequence_sends: self.next_sequence_sends,
        };
        proof {
            assert(r.port_capabilities@.drop_last() =~= self.port_capabilities@);
        }
        r
    }

    /// Registers a channel record under its (port, channel) key.
    pub fn with_channel(self, port: PortId, channel: ChannelId, channel_end: ChannelEnd) -> (r:
        MockContext)
        ensures
            r.spec_channel_end(port@, channel@) == Some(channel_end@),
            forall|p: Seq<char>, c: Seq<char>| !(p == port@ && c == channel@)
                ==> r.spec_channel_end(p, c) == self.spec_channel_end(p, c),
            r.host_height == self.host_height,
            r.host_consensus_state == self.host_consensus_state,
            r.connections == self.connections,
            r.clients == self.clients,
            r.port_capabilities == self.port_capabilities,
            r.next_sequence_sends == self.next_sequence_sends,
    {
        let mut channels = self.channels;
        channels.push((port, channel, channel_end));
        let r = MockContext {
            host_height: self.host_height,
            host_consensus_state: self.host_consensus_state,
            channels,
            connections: self.connections,
            clients: self.clients,
            port_capabilities: self.port_capabilities,
            next_sequence_sends: self.next_sequence_sends,
        };
        proof {
            assert(r.channels@.drop_last() =~= self.channels@);
        }
        r
    }

    /// Sets the next-send-sequence counter for a (port, channel) key.
    pub fn with_send_sequence(self, port: PortId, channel: ChannelId, sequence: u64) -> (r:
        MockContext)
        ensures
            r.spec_next_sequence_send(port@, channel@) == Some(sequence),
            forall|p: Seq<char>, c: Seq<char>| !(p == port@ && c == channel@)
                ==> r.spec_next_sequence_send(p, c) == self.spec_next_sequence_send(p, c),
            r.host_height == self.host_height,
            r.host_consensus_state == self.host_consensus_state,
            r.channels == self.channels,
            r.connections == self.connections,
            r.clients == self.clients,
            r.port_capabilities == self.port_capabilities,
    {
        let mut next_sequence_sends = self.next_sequence_sends;
        next_sequence_sends.push((port, channel, Sequence(sequence)));
        let r = MockContext {
            host_height: self.host_height,
            host_consensus_state: self.host_consensus_state,
            channels: self.channels,
            connections: self.connections,
            clients: self.clients,
            port_capabilities: self.port_capabilities,
            next_sequence_sends,
        };
        proof {
            assert(r.next_sequence_sends@.drop_last() =~= self.next_sequence_sends@);
        }
        r
    }
}

impl ChannelReader for MockContext {
    open spec fn spec_channel_end(&self, port: Seq<char>, channel: Seq<char>) -> Option<
        ChannelEndView,
    > {
        lookup_channel(self.channels@, port, channel)
    }

    open spec fn spec_connection_end(&self, connection_id: Seq<char>) -> Option<
        ConnectionEndView,
    > {
        lookup_connection(self.connections@, connection_id)
    }

    open spec fn spec_client_state(&self, client_id: Seq<char>) -> Option<ClientState> {
        match lookup_client(self.clients@, client_id) {
            Some(record) => Some(record.client_state),
            None => None,
        }
    }

    open spec fn spec_client_consensus_state(&self, client_id: Seq<char>, height: Height)
        -> Option<ConsensusState> {
        match lookup_client(self.clients@, client_id) {
            Some(record) => lookup_consensus(record.consensus_states@, height),
            None => None,
        }
    }

    open spec fn spec_host_current_height(&self) -> Height {
        self.host_height
    }

    open spec fn spec_host_consensus_state(&self) -> Option<ConsensusState> {
        self.host_consensus_state
    }

    open spec fn spec_next_sequence_send(&self, port: Seq<char>, channel: Seq<char>) -> Option<
        u64,
    > {
        lookup_sequence(self.next_sequence_sends@, port, channel)
    }

    open spec fn spec_has_capability(&self, port: Seq<char>) -> bool {
        contains_port(self.port_capabilities@, port)
    }

    fn channel_end(&self, port_channel_id: &(PortId, ChannelId)) -> (r: Option<ChannelEnd>) {
        proof {
            assert(self.channels@.subrange(0, self.channels@.len() as int) =~= self.channels@);
        }
        let mut i: usize = self.channels.len();
        while i > 0
            invariant
                i <= self.channels@.len(),
                lookup_channel(
                    self.channels@.subrange(0, i as int),
                    port_channel_id.0@,
                    port_channel_id.1@,
                ) == lookup_channel(self.channels@, port_channel_id.0@, port_channel_id.1@),
            decreases i,
        {
            i = i - 1;
            proof {
                assert(self.channels@.subrange(0, i as int + 1).drop_last() =~= self.channels@
                    .subrange(0, i as int));
                assert(self.channels@.subrange(0, i as int + 1).last() == self.channels@[
                    i as int]);
            }
            let entry = &self.channels[i];
            if entry.0.eq_id(&port_channel_id.0) && entry.1.eq_id(&port_channel_id.1) {
                return Some(entry.2.clone());
            }
        }
        proof {
            assert(self.channels@.subrange(0, 0) =~= Seq::<(PortId, ChannelId, ChannelEnd)>::empty());
        }
        None
    }

    fn connection_end(&self, connection_id: &ConnectionId) -> (r: Option<ConnectionEnd>) {
        proof {
            assert(self.connections@.subrange(0, self.connections@.len() as int)
                =~= self.connections@);
        }
        let mut i: usize = self.connections.len();
        while i > 0
            invariant
                i <= self.connections@.len(),
                lookup_connection(self.connections@.subrange(0, i as int), connection_id@)
                    == lookup_connection(self.connections@, connection_id@),
            decreases i,
        {
            i = i - 1;
            proof {
                assert(self.connections@.subrange(0, i as int + 1).drop_last()
                    =~= self.connections@.subrange(0, i as int));
                assert(self.connections@.subrange(0, i as int + 1).last() == self.connections@[
                    i as int]);
            }
            let entry = &self.connections[i];
            if entry.0.eq_id(connection_id) {
                return Some(entry.1.clone());
            }
        }
        proof {
            assert(self.connections@.subrange(0, 0)
                =~= Seq::<(ConnectionId, ConnectionEnd)>::empty());
        }
        None
    }

    fn client_state(&self, client_id: &ClientId) -> (r: Option<ClientState>) {
        proof {
            assert(self.clients@.subrange(0, self.clients@.len() as int) =~= self.clients@);
        }
        let mut i: usize = self.clients.len();
        while i > 0
            invariant
                i <= self.clients@.len(),
                lookup_client(self.clients@.subrange(0, i as int), client_id@)
                    == lookup_client(self.clients@, client_id@),
            decreases i,
        {
            i = i - 1;
            proof {
                assert(self.clients@.subrange(0, i as int + 1).drop_last() =~= self.clients@
                    .subrange(0, i as int));
                assert(self.clients@.subrange(0, i as int + 1).last() == self.clients@[i as int]);
            }
            let entry = &self.clients[i];
            if entry.0.eq_id(client_id) {
                return Some(entry.1.client_state);
            }
        }
        proof {
            assert(self.clients@.subrange(0, 0) =~= Seq::<(ClientId, MockClientRecord)>::empty());
        }
        None
    }

    fn client_consensus_state(&self, client_id: &ClientId, height: Height) -> (r: Option<
        ConsensusState,
    >) {
        proof {
            assert(self.clients@.subrange(0, self.clients@.len() as int) =~= self.clients@);
        }
        let mut i: usize = self.clients.len();
        while i > 0
            invariant
                i <= self.clients@.len(),
                lookup_client(self.clients@.subrange(0, i as int), client_id@)
                    == lookup_client(self.clients@, client_id@),
            decreases i,
        {
            i = i - 1;
            proof {
                assert(self.clients@.subrange(0, i as int + 1).drop_last() =~= self.clients@
                    .subrange(0, i as int));
                assert(self.clients@.subrange(0, i as int + 1).last() == self.clients@[i as int]);
            }
            let entry = &self.clients[i];
            if entry.0.eq_id(client_id) {
                let states = &entry.1.consensus_states;
                proof {
                    assert(lookup_client(self.clients@, client_id@) == Some(
                        self.clients@[i as int].1,
                    ));
                    assert(states@.subrange(0, states@.len() as int) =~= states@);
                }
                let mut j: usize = states.len();
                while j > 0
                    invariant
                        i < self.clients@.len(),
                        lookup_client(self.clients@, client_id@) == Some(
                            self.clients@[i as int].1,
                        ),
                        states@ == self.clients@[i as int].1.consensus_states@,
                        j <= states@.len(),
                        lookup_consensus(states@.subrange(0, j as int), height)
                            == lookup_consensus(states@, height),
                    decreases j,
                {
                    j = j - 1;
                    proof {
                        assert(states@.subrange(0, j as int + 1).drop_last() =~= states@.subrange(
                            0, j as int));
                        assert(states@.subrange(0, j as int + 1).last() == states@[j as int]);
                    }
                    let snapshot = &states[j];
                    if snapshot.0 == height {
                        return Some(snapshot.1);
                    }
                }
                proof {
                    assert(states@.subrange(0, 0) =~= Seq::<(Height, ConsensusState)>::empty());
                }
                return None;
            }
        }
        proof {
            assert(self.clients@.subrange(0, 0) =~= Seq::<(ClientId, MockClientRecord)>::empty());
        }
        None
    }

    fn channel_host_current_height(&self) -> (r: Height) {
        self.host_height
    }

    fn channel_host_consensus_state(&self) -> (r: Option<ConsensusState>) {
        self.host_consensus_state
    }

    fn get_next_sequence_send(&self, port_channel_id: &(PortId, ChannelId)) -> (r: Option<
        Sequence,
    >) {
        proof {
            assert(self.next_sequence_sends@.subrange(0, self.next_sequence_sends@.len() as int)
                =~= self.next_sequence_sends@);
        }
        let mut i: usize = self.next_sequence_sends.len();
        while i > 0
            invariant
                i <= self.next_sequence_sends@.len(),
                lookup_sequence(
                    self.next_sequence_sends@.subrange(0, i as int),
                    port_channel_id.0@,
                    port_channel_id.1@,
                ) == lookup_sequence(
                    self.next_sequence_sends@,
                    port_channel_id.0@,
                    port_channel_id.1@,
                ),
            decreases i,
        {
            i = i - 1;
            proof {
                assert(self.next_sequence_sends@.subrange(0, i as int + 1).drop_last()
                    =~= self.next_sequence_sends@.subrange(0, i as int));
                assert(self.next_sequence_sends@.subrange(0, i as int + 1).last()
                    == self.next_sequence_sends@[i as int]);
            }
            let entry = &self.next_sequence_sends[i];
            if entry.0.eq_id(&port_channel_id.0) && entry.1.eq_id(&port_channel_id.1) {
                return Some(entry.2);
            }
        }
        proof {
            assert(self.next_sequence_sends@.subrange(0, 0)
                =~= Seq::<(PortId, ChannelId, Sequence)>::empty());
        }
        None
    }

    fn authenticated_capability(&self, port: &PortId) -> (r: Result<Capability, Error>) {
        proof {
            assert(self.port_capabilities@.subrange(0, self.port_capabilities@.len() as int)
                =~= self.port_capabilities@);
        }
        let mut i: usize = self.port_capabilities.len();
        while i > 0
            invariant
                i <= self.port_capabilities@.len(),
                contains_port(self.port_capabilities@.subrange(0, i as int), port@)
                    == contains_port(self.port_capabilities@, port@),
            decreases i,
        {
            i = i - 1;
            proof {
                assert(self.port_capabilities@.subrange(0, i as int + 1).drop_last()
                    =~= self.port_capabilities@.subrange(0, i as int));
                assert(self.port_capabilities@.subrange(0, i as int + 1).last()
                    == self.port_capabilities@[i as int]);
            }
            let entry = &self.port_capabilities[i];
            if entry.eq_id(port) {
                return Ok(Capability { index: 0 });
            }
        }
        proof {
            assert(self.port_capabilities@.subrange(0, 0) =~= Seq::<PortId>::empty());
        }
        Err(Error::new(Kind::Unauthorized))
    }
}

} // verus!
