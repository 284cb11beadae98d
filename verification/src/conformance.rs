//! The data model of externally generated conformance traces: one step per
//! protocol-setup action with its expected outcome and the resulting height
//! of every chain.  The replay tool that produces and consumes these traces
//! is outside this crate; only the schema and the sentinel decoding live
//! here.

use vstd::prelude::*;

verus! {

/// A protocol-setup action of a trace, tagged by operation.  Identifier
/// fields carry the model's numeric identifiers.
#[derive(Clone, Debug, PartialEq, Eq, Hash)]
pub enum Action {
    NoAction,
    ICS02CreateClient { chain_id: String, client_state: u64, consensus_state: u64 },
    ICS02UpdateClient { chain_id: String, client_id: u64, header: u64 },
    ICS03ConnectionOpenInit { chain_id: String, client_id: u64, counterparty_client_id: u64 },
    ICS03ConnectionOpenTry {
        chain_id: String,
        previous_connection_id: Option<u64>,
        client_id: u64,
        client_state: u64,
        counterparty_client_id: u64,
        counterparty_connection_id: u64,
    },
}

/// The outcome tag a trace expects of its action.
#[derive(Clone, Copy, Debug, PartialEq, Eq, Structural, Hash)]
pub enum ActionOutcome {
    NoOutcome,
    ICS02CreateOK,
    ICS02UpdateOK,
    ICS02ClientNotFound,
    ICS02HeaderVerificationFailure,
    ICS03ConnectionOpenInitOK,
    ICS03MissingClient,
    ICS03ConnectionOpenTryOK,
    ICS03InvalidConsensusHeight,
    ICS03ConnectionNotFound,
    ICS03ConnectionMismatch,
}

/// The state of one chain after a step: its height.
#[derive(Clone, Copy, Debug, PartialEq, Eq, Structural, Hash)]
pub struct Chain {
    pub height: u64,
}

/// One step of a trace: the action taken, the outcome the model expects,
/// and the chains' states afterwards, keyed by chain name.
#[derive(Clone, Debug)]
pub struct Step {
    pub action: Action,
    pub action_outcome: ActionOutcome,
    pub chains: Vec<(String, Chain)>,
}

/// Decodes the model's optional connection identifier, whose sentinel -1
/// stands for "no previous connection": the sentinel and absence both
/// decode to `None`, and any other value keeps its two's-complement bits.
pub fn connection_id_from_model(raw: Option<i64>) -> (r: Option<u64>)
    ensures
        r == match raw {
            Option::<i64>::None => Option::<u64>::None,
            Some(v) => if v == -1 {
                Option::<u64>::None
            } else {
                Some(v as u64)
            },
        },
{
    match raw {
        None => None,
        Some(v) => if v == -1 {
            None
        } else {
            Some(#[verifier::truncate] (v as u64))
        },
    }
}

} // verus!
