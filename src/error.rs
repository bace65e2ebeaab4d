use vstd::prelude::*;

verus! {

/// Why preparing or executing a statement failed.
#[derive(Debug, PartialEq, Eq)]
pub enum StatementError {
    /// The statement name or the SQL text holds an embedded null byte.
    InvalidIdentifier,
    /// The backend answered, and reported a failure.
    BackendRejected { message: String },
    /// The backend gave no result at all: the session is unusable.
    ConnectionInvalid,
}

/// What the backend answered to one prepare or execute-prepared call, as
/// classified by the result wrapper around the raw response.
#[derive(Debug)]
pub enum BackendReply<R> {
    /// The primitive returned no result.
    Missing,
    /// A result came back with a failure status.
    Rejected { message: String },
    /// A result came back with a success status.
    Accepted(R),
}

/// The outcome that a reply amounts to: its handle on success, else the error.
pub open spec fn reply_outcome<R>(reply: BackendReply<R>) -> Result<R, StatementError> {
    match reply {
        BackendReply::Missing => Err(StatementError::ConnectionInvalid),
        BackendReply::Rejected { message } => Err(StatementError::BackendRejected { message }),
        BackendReply::Accepted(handle) => Ok(handle),
    }
}

/// Turns a backend reply into the call's result: the handle when the backend
/// accepted the call, else the matching error. Nothing is retried.
pub fn accept_reply<R>(reply: BackendReply<R>) -> (r: Result<R, StatementError>)
    ensures
        r == reply_outcome(reply),
{
    match reply {
        BackendReply::Missing => Err(StatementError::ConnectionInvalid),
        BackendReply::Rejected { message } => Err(StatementError::BackendRejected { message }),
        BackendReply::Accepted(handle) => Ok(handle),
    }
}

} // verus!
