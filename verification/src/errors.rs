//! The error taxonomy of the ledger: a structured error with a kind and a
//! message, so the boundary layer can pick an appropriate status code
//! instead of collapsing every failure to an opaque string.

use vstd::prelude::*;

verus! {

/// What went wrong, as a category the boundary layer can act on.
#[derive(Clone, Copy, Debug, PartialEq, Eq, Structural)]
pub enum ErrorKind {
    /// Caller-supplied data violates a domain invariant (for example,
    /// unbalanced or missing postings).
    Validation,
    /// A referenced entity is absent from the store.
    NotFound,
    /// No pooled connection became available within the configured timeout.
    PoolExhausted,
    /// The underlying store failed; the message retains the original cause.
    Store,
}

/// A structured ledger error: a kind plus a human-readable cause.
#[derive(Debug)]
pub struct LedgerError {
    pub kind: ErrorKind,
    pub message: String,
}

impl LedgerError {
    /// Builds an error of the given kind with the given cause.
    pub fn new(kind: ErrorKind, message: String) -> (r: LedgerError)
        ensures
            r.kind == kind,
            r.message@ == message@,
    {
        LedgerError { kind, message }
    }

    /// The HTTP status code the boundary layer answers with for this error:
    /// validation failures are the client's fault, exhaustion and store
    /// failures are the service's.
    pub fn status_code(&self) -> (r: u16)
        ensures
            r == (match self.kind {
                ErrorKind::Validation => 422u16,
                ErrorKind::NotFound => 404u16,
                ErrorKind::PoolExhausted => 503u16,
                ErrorKind::Store => 500u16,
            }),
    {
        match self.kind {
            ErrorKind::Validation => 422,
            ErrorKind::NotFound => 404,
            ErrorKind::PoolExhausted => 503,
            ErrorKind::Store => 500,
        }
    }
}

} // verus!
