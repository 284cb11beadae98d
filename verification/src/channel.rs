//! Channel records: the per-(port, channel) end stored on this ledger,
//! read-only to the packet handler.

use vstd::prelude::*;
use crate::identifier::{ChannelId, ConnectionId, PortId};

verus! {

/// Lifecycle state of a channel end.  Packets may not be sent over a
/// `Closed` channel; every other state admits sends.
#[derive(Clone, Copy, PartialEq, Eq, Structural, Debug, Hash)]
pub enum State {
    Init,
    TryOpen,
    Open,
    Closed,
}

/// Whether the channel delivers packets in sequence order or unordered.
#[derive(Clone, Copy, PartialEq, Eq, Structural, Debug, Hash)]
pub enum Order {
    Unordered,
    Ordered,
}

impl Default for Order {
    fn default() -> (r: Order)
        ensures
            r == Order::Unordered,
    {
        Order::Unordered
    }
}

/// The mathematical value of a [`Counterparty`].
#[verifier::ext_equal]
pub struct CounterpartyView {
    pub port_id: Seq<char>,
    pub channel_id: Option<Seq<char>>,
}

/// The remote end of a channel: its port, and its channel identifier once
/// the handshake has assigned one.
#[derive(Debug)]
pub struct Counterparty {
    pub port_id: PortId,
    pub channel_id: Option<ChannelId>,
}

impl View for Counterparty {
    type V = CounterpartyView;

    open spec fn view(&self) -> CounterpartyView {
        CounterpartyView {
            port_id: self.port_id@,
            channel_id: match self.channel_id {
                Some(c) => Some(c@),
                None => None,
            },
        }
    }
}

impl Counterparty {
    pub fn new(port_id: PortId, channel_id: Option<ChannelId>) -> (r: Counterparty)
        ensures
            r == (Counterparty { port_id, channel_id }),
    {
        Counterparty { port_id, channel_id }
    }

    pub fn port_id(&self) -> (r: &PortId)
        ensures
            *r == self.port_id,
    {
        &self.port_id
    }

    pub fn channel_id(&self) -> (r: Option<&ChannelId>)
        ensures
            match r {
                Some(c) => self.channel_id matches Some(cc) && cc == *c,
                None => self.channel_id is None,
            },
    {
        match &self.channel_id {
            Some(c) => Some(c),
            None => None,
        }
    }

    /// True iff both ends name the same port and the same optional channel.
    pub fn eq_counterparty(&self, other: &Counterparty) -> (r: bool)
        ensures
            r == (self@ == other@),
    {
        let ports_match = self.port_id.eq_id(&other.port_id);
        let channels_match = match (&self.channel_id, &other.channel_id) {
            (Some(a), Some(b)) => a.eq_id(b),
            (None, None) => true,
            _ => false,
        };
        ports_match && channels_match
    }
}

impl Clone for Counterparty {
    fn clone(&self) -> (r: Self)
        ensures
            r == *self,
    {
        Counterparty {
            port_id: self.port_id.clone(),
            channel_id: match &self.channel_id {
                Some(c) => Some(c.clone()),
                None => None,
            },
        }
    }
}

/// The mathematical value of a [`ChannelEnd`].
#[verifier::ext_equal]
pub struct ChannelEndView {
    pub state: State,
    pub ordering: Order,
    pub remote: CounterpartyView,
    pub connection_hops: Seq<Seq<char>>,
    pub version: Seq<char>,
}

/// The channel record stored on this ledger for one (port, channel) pair.
/// The connection hops are the identifiers of the connections the channel
/// runs over; the current protocol uses exactly one hop, and the list is
/// never empty for a well-formed record.
#[derive(Debug)]
pub struct ChannelEnd {
    pub state: State,
    pub ordering: Order,
    pub remote: Counterparty,
    pub connection_hops: Vec<ConnectionId>,
    pub version: String,
}

impl View for ChannelEnd {
    type V = ChannelEndView;

    open spec fn view(&self) -> ChannelEndView {
        ChannelEndView {
            state: self.state,
            ordering: self.ordering,
            remote: self.remote@,
            connection_hops: self.connection_hops@.map_values(|c: ConnectionId| c@),
            version: self.version@,
        }
    }
}

impl ChannelEnd {
    pub fn new(
        state: State,
        ordering: Order,
        remote: Counterparty,
        connection_hops: Vec<ConnectionId>,
        version: String,
    ) -> (r: ChannelEnd)
        ensures
            r == (ChannelEnd { state, ordering, remote, connection_hops, version }),
    {
        ChannelEnd { state, ordering, remote, connection_hops, version }
    }

    /// True iff the channel currently is in the given state.
    pub fn state_matches(&self, other: &State) -> (r: bool)
        ensures
            r == (self.state == *other),
    {
        self.state == *other
    }

    pub fn counterparty(&self) -> (r: &Counterparty)
        ensures
            *r == self.remote,
    {
        &self.remote
    }

    /// True iff the stored remote end equals the given one.
    pub fn counterparty_matches(&self, other: &Counterparty) -> (r: bool)
        ensures
            r == (self.remote@ == other@),
    {
        self.remote.eq_counterparty(other)
    }

    pub fn connection_hops(&self) -> (r: &Vec<ConnectionId>)
        ensures
            *r == self.connection_hops,
    {
        &self.connection_hops
    }
}

impl Clone for ChannelEnd {
    fn clone(&self) -> (r: Self)
        ensures
            r@ == self@,
    {
        let connection_hops = self.connection_hops.clone();
        proof {
            assert forall|i: int| 0 <= i < self.connection_hops@.len()
                implies connection_hops@[i] == self.connection_hops@[i] by {
                assert(vstd::pervasive::cloned::<ConnectionId>(
                    self.connection_hops@[i], connection_hops@[i]));
            }
            assert(connection_hops@ =~= self.connection_hops@);
        }
        let r = ChannelEnd {
            state: self.state,
            ordering: self.ordering,
            remote: self.remote.clone(),
            connection_hops,
            version: self.version.clone(),
        };
        proof {
            assert(r@ =~= self@);
        }
        r
    }
}

} // verus!
