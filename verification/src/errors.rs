//! The failure signals of the engine. Every error aborts the current
//! invocation; none is ever swallowed or translated.

use vstd::prelude::*;

verus! {

/// One failure signal. Each variant corresponds to exactly one rejection
/// rule of the engine; `AddrError` carries a message handed in by the
/// external address-canonicalization collaborator verbatim.
#[derive(Clone, Debug, PartialEq, Eq)]
pub enum Error {
    /// The payout window has no start height, or it lies in the future.
    NotStarted,
    /// The current height lies strictly past the payout end height.
    Expired,
    /// The contract is locked against ecostate updates.
    Locked,
    /// Every token of the supply has already been released.
    Done,
    /// The caller is not the owner (or, for ecostate updates, the oracle).
    Unauthorized,
    /// Initialization was attempted with an already-expired payout window.
    ExpiredAtInit,
    /// A stored balance was not exactly 16 bytes long.
    CorruptedData,
    /// Address canonicalization failed; the collaborator's message is kept.
    AddrError { msg: String },
}

/// The three kinds of failure the engine distinguishes.
#[derive(Clone, Copy, Debug, PartialEq, Eq, Structural)]
pub enum ErrorKind {
    /// Malformed or out-of-range input.
    Validation,
    /// The caller lacks the required identity.
    Authorization,
    /// The operation is disallowed by the current lifecycle state.
    BusinessState,
}

/// The kind of each error variant.
pub open spec fn spec_kind(e: Error) -> ErrorKind {
    match e {
        Error::NotStarted => ErrorKind::BusinessState,
        Error::Expired => ErrorKind::BusinessState,
        Error::Locked => ErrorKind::BusinessState,
        Error::Done => ErrorKind::BusinessState,
        Error::Unauthorized => ErrorKind::Authorization,
        Error::ExpiredAtInit => ErrorKind::Validation,
        Error::CorruptedData => ErrorKind::Validation,
        Error::AddrError { .. } => ErrorKind::Validation,
    }
}

/// The caller-visible message of each error variant.
pub open spec fn spec_message(e: Error) -> Seq<char> {
    match e {
        Error::NotStarted => "The contract has not been started."@,
        Error::Expired => "The contract has expired."@,
        Error::Locked => "The contract is locked."@,
        Error::Done => "The contract status is DONE."@,
        Error::Unauthorized => "Unauthorized"@,
        Error::ExpiredAtInit => "creating expired contract"@,
        Error::CorruptedData => "Corrupted data found. 16 byte expected."@,
        Error::AddrError { msg } => msg@,
    }
}

impl Error {
    /// Classifies this error.
    pub fn kind(&self) -> (k: ErrorKind)
        ensures
            k == spec_kind(*self),
    {
        match self {
            Error::NotStarted => ErrorKind::BusinessState,
            Error::Expired => ErrorKind::BusinessState,
            Error::Locked => ErrorKind::BusinessState,
            Error::Done => ErrorKind::BusinessState,
            Error::Unauthorized => ErrorKind::Authorization,
            Error::ExpiredAtInit => ErrorKind::Validation,
            Error::CorruptedData => ErrorKind::Validation,
            Error::AddrError { .. } => ErrorKind::Validation,
        }
    }

    /// Renders the caller-visible message of this error.
    pub fn message(&self) -> (m: String)
        ensures
            m@ == spec_message(*self),
    {
        match self {
            Error::NotStarted => String::from_str("The contract has not been started."),
            Error::Expired => String::from_str("The contract has expired."),
            Error::Locked => String::from_str("The contract is locked."),
            Error::Done => String::from_str("The contract status is DONE."),
            Error::Unauthorized => String::from_str("Unauthorized"),
            Error::ExpiredAtInit => String::from_str("creating expired contract"),
            Error::CorruptedData => String::from_str("Corrupted data found. 16 byte expected."),
            Error::AddrError { msg } => msg.clone(),
        }
    }
}

} // verus!
