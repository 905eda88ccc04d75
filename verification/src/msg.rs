//! The transient message and response shapes of the engine.
//!
//! Addresses arrive in human-readable form and must be canonicalized by an
//! external collaborator before the engine can compare or store them. An
//! [`AddrInput`] therefore carries both the human-readable form (kept for log
//! entries) and the outcome of canonicalizing it; a canonicalization failure
//! propagates out of the handler untouched.

use vstd::prelude::*;

use crate::errors::Error;
use crate::state::State;

verus! {

/// An address as supplied by the caller, together with the canonical form
/// the external encoding collaborator produced for it.
#[derive(Debug, PartialEq)]
pub struct AddrInput {
    /// The human-readable form, as it appeared in the message.
    pub human: String,
    /// The canonical binary form, or the collaborator's failure.
    pub canonical: Result<Vec<u8>, Error>,
}

/// The initialization request.
#[derive(Debug, PartialEq)]
pub struct InitMsg {
    pub region: String,
    pub beneficiary: AddrInput,
    pub oracle: AddrInput,
    pub ecostate: i64,
    pub total_tokens: i64,
    pub payout_start_height: Option<i64>,
    pub payout_end_height: Option<i64>,
}

/// The six mutually exclusive handle operations.
#[derive(Debug, PartialEq)]
pub enum HandleMsg {
    UpdateEcostate { ecostate: i64 },
    Lock {},
    UnLock {},
    ChangeBeneficiary { beneficiary: AddrInput },
    ChangeOracle { oracle: AddrInput },
    TransferOwnership { owner: AddrInput },
}

/// The two read-only query requests.
#[derive(Debug, PartialEq)]
pub enum QueryMsg {
    State {},
    Balance { address: AddrInput },
}

/// The balance query's payload: the balance rendered as a decimal string.
#[derive(Debug, PartialEq)]
pub struct BalanceResponse {
    pub balance: String,
}

/// One log entry of a successful handle operation.
#[derive(Debug, PartialEq)]
pub struct LogEntry {
    pub key: String,
    pub value: String,
}

/// The result of a successful handle operation. The engine emits log
/// entries only: no sub-messages and no data payload.
#[derive(Debug, PartialEq)]
pub struct Response {
    pub log: Vec<LogEntry>,
}

/// The structured answer to a query; the host serializes it.
#[derive(Debug, PartialEq)]
pub enum QueryAnswer {
    State(State),
    Balance(BalanceResponse),
}

/// The log entries of a response, as pairs of character sequences.
pub open spec fn resp_log(r: Response) -> Seq<(Seq<char>, Seq<char>)> {
    r.log@.map_values(|e: LogEntry| (e.key@, e.value@))
}

} // verus!
