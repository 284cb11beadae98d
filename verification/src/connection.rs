//! Connection records: the binding between two light clients that a channel
//! runs over, read-only to the packet handler.

use vstd::prelude::*;
use vstd::string::StringExecFns;
use crate::identifier::{ClientId, ConnectionId};

verus! {

/// Lifecycle state of a connection end.
#[derive(Clone, Copy, PartialEq, Eq, Structural, Debug, Hash)]
pub enum State {
    Init,
    TryOpen,
    Open,
}

/// A commitment-proof key prefix of the counterparty's state tree.
#[derive(Debug)]
pub struct CommitmentPrefix(pub Vec<u8>);

impl View for CommitmentPrefix {
    type V = Seq<u8>;

    open spec fn view(&self) -> Seq<u8> {
        self.0@
    }
}

impl Clone for CommitmentPrefix {
    fn clone(&self) -> (r: Self)
        ensures
            r@ == self@,
    {
        let r = CommitmentPrefix(self.0.clone());
        proof {
            assert(r@ =~= self@);
        }
        r
    }
}

impl Default for CommitmentPrefix {
    /// The empty prefix.
    fn default() -> (r: Self)
        ensures
            r@ == Seq::<u8>::empty(),
    {
        let r = CommitmentPrefix(Vec::new());
        proof {
            assert(r@ =~= Seq::<u8>::empty());
        }
        r
    }
}

/// The mathematical value of a connection [`Counterparty`].
#[verifier::ext_equal]
pub struct CounterpartyView {
    pub client_id: Seq<char>,
    pub connection_id: Option<Seq<char>>,
    pub prefix: Seq<u8>,
}

/// The remote end of a connection: the counterparty's client for this
/// ledger, its connection identifier once assigned, and its proof prefix.
#[derive(Debug)]
pub struct Counterparty {
    pub client_id: ClientId,
    pub connection_id: Option<ConnectionId>,
    pub prefix: CommitmentPrefix,
}

impl View for Counterparty {
    type V = CounterpartyView;

    open spec fn view(&self) -> CounterpartyView {
        CounterpartyView {
            client_id: self.client_id@,
            connection_id: match self.connection_id {
                Some(c) => Some(c@),
                None => None,
            },
            prefix: self.prefix@,
        }
    }
}

impl Counterparty {
    pub fn new(
        client_id: ClientId,
        connection_id: Option<ConnectionId>,
        prefix: CommitmentPrefix,
    ) -> (r: Counterparty)
        ensures
            r == (Counterparty { client_id, connection_id, prefix }),
    {
        Counterparty { client_id, connection_id, prefix }
    }
}

impl Clone for Counterparty {
    fn clone(&self) -> (r: Self)
        ensures
            r@ == self@,
    {
        Counterparty {
            client_id: self.client_id.clone(),
            connection_id: match &self.connection_id {
                Some(c) => Some(c.clone()),
                None => None,
            },
            prefix: self.prefix.clone(),
        }
    }
}

/// The mathematical value of a [`Version`].
#[verifier::ext_equal]
pub struct VersionView {
    pub identifier: Seq<char>,
    pub features: Seq<Seq<char>>,
}

/// A protocol version a connection was negotiated with, and the channel
/// ordering features it supports.
#[derive(Debug)]
pub struct Version {
    pub identifier: String,
    pub features: Vec<String>,
}

impl View for Version {
    type V = VersionView;

    open spec fn view(&self) -> VersionView {
        VersionView {
            identifier: self.identifier@,
            features: self.features@.map_values(|f: String| f@),
        }
    }
}

impl Clone for Version {
    fn clone(&self) -> (r: Self)
        ensures
            r@ == self@,
    {
        let features = self.features.clone();
        proof {
            assert forall|i: int| 0 <= i < self.features@.len()
                implies features@[i] == self.features@[i] by {
                assert(vstd::pervasive::cloned::<String>(self.features@[i], features@[i]));
            }
            assert(features@ =~= self.features@);
        }
        let r = Version { identifier: self.identifier.clone(), features };
        proof {
            assert(r@ =~= self@);
        }
        r
    }
}

impl Default for Version {
    /// The only version the current protocol negotiates: identifier "1",
    /// supporting both channel orderings.
    fn default() -> (r: Self)
        ensures
            r@.identifier == "1"@,
            r@.features.len() == 2,
            r@.features[0] == "ORDER_ORDERED"@,
            r@.features[1] == "ORDER_UNORDERED"@,
    {
        let mut features: Vec<String> = Vec::new();
        features.push(String::from_str("ORDER_ORDERED"));
        features.push(String::from_str("ORDER_UNORDERED"));
        let r = Version { identifier: String::from_str("1"), features };
        proof {
            assert(r@.features =~= seq!["ORDER_ORDERED"@, "ORDER_UNORDERED"@]);
        }
        r
    }
}

/// The versions a new connection may be negotiated with.
pub fn get_compatible_versions() -> (r: Vec<Version>)
    ensures
        r@.len() == 1,
        r@[0]@.identifier == "1"@,
{
    let mut versions: Vec<Version> = Vec::new();
    versions.push(Version::default());
    versions
}

/// The mathematical value of a [`ConnectionEnd`].
#[verifier::ext_equal]
pub struct ConnectionEndView {
    pub state: State,
    pub client_id: Seq<char>,
    pub remote: CounterpartyView,
    pub versions: Seq<VersionView>,
    pub delay_period: u64,
}

/// The connection record a channel's hop refers to: its state, the local
/// light client it is bound to, the remote end, the negotiated versions and
/// the relayer delay period in nanoseconds.
#[derive(Debug)]
pub struct ConnectionEnd {
    pub state: State,
    pub client_id: ClientId,
    pub remote: Counterparty,
    pub versions: Vec<Version>,
    pub delay_period: u64,
}

impl View for ConnectionEnd {
    type V = ConnectionEndView;

    open spec fn view(&self) -> ConnectionEndView {
        ConnectionEndView {
            state: self.state,
            client_id: self.client_id@,
            remote: self.remote@,
            versions: self.versions@.map_values(|v: Version| v@),
            delay_period: self.delay_period,
        }
    }
}

impl ConnectionEnd {
    pub fn new(
        state: State,
        client_id: ClientId,
        remote: Counterparty,
        versions: Vec<Version>,
        delay_period: u64,
    ) -> (r: ConnectionEnd)
        ensures
            r == (ConnectionEnd { state, client_id, remote, versions, delay_period }),
    {
        ConnectionEnd { state, client_id, remote, versions, delay_period }
    }

    /// The local light client this connection is bound to.
    pub fn client_id(&self) -> (r: &ClientId)
        ensures
            *r == self.client_id,
    {
        &self.client_id
    }
}

impl Clone for ConnectionEnd {
    fn clone(&self) -> (r: Self)
        ensures
            r@ == self@,
    {
        let versions = self.versions.clone();
        proof {
            assert forall|i: int| 0 <= i < self.versions@.len()
                implies versions@[i]@ == self.versions@[i]@ by {
                assert(vstd::pervasive::cloned::<Version>(self.versions@[i], versions@[i]));
            }
            assert(versions@.map_values(|v: Version| v@)
                =~= self.versions@.map_values(|v: Version| v@));
        }
        let r = ConnectionEnd {
            state: self.state,
            client_id: self.client_id.clone(),
            remote: self.remote.clone(),
            versions,
            delay_period: self.delay_period,
        };
        proof {
            assert(r@ =~= self@);
        }
        r
    }
}

} // verus!
