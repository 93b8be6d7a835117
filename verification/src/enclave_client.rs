//! Failures at the boundary between the host and its enclave, and how the layers of one call
//! (deadline, transport, operation) flatten into them.

use vstd::prelude::*;

use crate::enclave_types;

verus! {

/// Failures while calling an enclave operation.
#[derive(Debug, Clone, PartialEq, Eq)]
pub enum Error {
    /// The Pontifex connection or wire operation failed.
    Transport(String),
    /// The enclave returned a structured operation error.
    Operation(enclave_types::Error),
    /// The enclave did not answer within the request deadline.
    Timeout,
}

/// An `Error` by the values it holds.
pub enum ErrorView {
    Transport(Seq<char>),
    Operation(enclave_types::Error),
    Timeout,
}

impl View for Error {
    type V = ErrorView;

    open spec fn view(&self) -> ErrorView {
        match self {
            Error::Transport(detail) => ErrorView::Transport(detail@),
            Error::Operation(operation) => ErrorView::Operation(*operation),
            Error::Timeout => ErrorView::Timeout,
        }
    }
}

/// What one call came to: `None` when the deadline passed first; otherwise either the
/// transport's error message or the enclave's answer.
pub type CallOutcome<T> = Option<Result<Result<T, enclave_types::Error>, String>>;

/// Flattens the timeout, transport and operation layers of one enclave call.
pub fn flatten<T>(outcome: CallOutcome<T>) -> (r: Result<T, Error>)
    ensures
        match outcome {
            None => r matches Err(Error::Timeout),
            Some(Err(detail)) => r matches Err(Error::Transport(d)) && d@ == detail@,
            Some(Ok(Err(operation))) => r matches Err(Error::Operation(o)) && o == operation,
            Some(Ok(Ok(value))) => r matches Ok(v) && v == value,
        },
{
    match outcome {
        None => Err(Error::Timeout),
        Some(Err(detail)) => Err(Error::Transport(detail)),
        Some(Ok(Err(operation))) => Err(Error::Operation(operation)),
        Some(Ok(Ok(value))) => Ok(value),
    }
}

} // verus!
