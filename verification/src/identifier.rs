//! Typed wrappers for the short string identifiers of ports, channels,
//! connections and clients.  Identifiers are compared by their character
//! sequence; each wrapper's view is that sequence.

use vstd::prelude::*;
use vstd::string::StringExecFns;

verus! {

/// Identifier of a port on a ledger.
#[derive(Debug, Hash, PartialEq, Eq)]
pub struct PortId(pub String);

impl View for PortId {
    type V = Seq<char>;

    open spec fn view(&self) -> Seq<char> {
        self.0@
    }
}

impl PortId {
    /// True iff the two identifiers spell the same string.
    pub fn eq_id(&self, other: &PortId) -> (r: bool)
        ensures
            r == (self@ == other@),
    {
        self.0 == other.0
    }
}

impl Clone for PortId {
    fn clone(&self) -> (r: Self)
        ensures
            r == *self,
    {
        PortId(self.0.clone())
    }
}

impl Default for PortId {
    /// The conventional placeholder port identifier.
    fn default() -> (r: Self)
        ensures
            r@ == "defaultPort"@,
    {
        PortId(String::from_str("defaultPort"))
    }
}

/// Identifier of a channel between two ports.
#[derive(Debug, Hash, PartialEq, Eq)]
pub struct ChannelId(pub String);

impl View for ChannelId {
    type V = Seq<char>;

    open spec fn view(&self) -> Seq<char> {
        self.0@
    }
}

impl ChannelId {
    /// True iff the two identifiers spell the same string.
    pub fn eq_id(&self, other: &ChannelId) -> (r: bool)
        ensures
            r == (self@ == other@),
    {
        self.0 == other.0
    }
}

impl Clone for ChannelId {
    fn clone(&self) -> (r: Self)
        ensures
            r == *self,
    {
        ChannelId(self.0.clone())
    }
}

impl Default for ChannelId {
    /// The conventional placeholder channel identifier.
    fn default() -> (r: Self)
        ensures
            r@ == "defaultChannel"@,
    {
        ChannelId(String::from_str("defaultChannel"))
    }
}

/// Identifier of a connection underlying one or more channels.
#[derive(Debug, Hash, PartialEq, Eq)]
pub struct ConnectionId(pub String);

impl View for ConnectionId {
    type V = Seq<char>;

    open spec fn view(&self) -> Seq<char> {
        self.0@
    }
}

impl ConnectionId {
    /// True iff the two identifiers spell the same string.
    pub fn eq_id(&self, other: &ConnectionId) -> (r: bool)
        ensures
            r == (self@ == other@),
    {
        self.0 == other.0
    }
}

impl Clone for ConnectionId {
    fn clone(&self) -> (r: Self)
        ensures
            r == *self,
    {
        ConnectionId(self.0.clone())
    }
}

impl Default for ConnectionId {
    /// The conventional placeholder connection identifier.
    fn default() -> (r: Self)
        ensures
            r@ == "defaultConnection"@,
    {
        ConnectionId(String::from_str("defaultConnection"))
    }
}

/// Identifier of a light client tracking a counterparty ledger.
#[derive(Debug, Hash, PartialEq, Eq)]
pub struct ClientId(pub String);

impl View for ClientId {
    type V = Seq<char>;

    open spec fn view(&self) -> Seq<char> {
        self.0@
    }
}

impl ClientId {
    /// True iff the two identifiers spell the same string.
    pub fn eq_id(&self, other: &ClientId) -> (r: bool)
        ensures
            r == (self@ == other@),
    {
        self.0 == other.0
    }
}

impl Clone for ClientId {
    fn clone(&self) -> (r: Self)
        ensures
            r == *self,
    {
        ClientId(self.0.clone())
    }
}

impl Default for ClientId {
    /// The conventional placeholder client identifier.
    fn default() -> (r: Self)
        ensures
            r@ == "defaultClient"@,
    {
        ClientId(String::from_str("defaultClient"))
    }
}

} // verus!
