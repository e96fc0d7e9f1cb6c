//! The failures that the store reports.

use vstd::prelude::*;

verus! {

/// Why an operation failed.
#[derive(Clone, Copy, Debug, PartialEq, Eq, Structural)]
pub enum ErrorKind {
    /// The stored text is not JSON.
    Parse,
    /// The collection could not be written as JSON text.
    Serialization,
    /// The host reported that a file or directory operation failed.
    Io,
}

/// A failure, with the text that describes it to the caller.
#[derive(Debug, PartialEq, Eq)]
pub struct StoreError {
    pub kind: ErrorKind,
    pub message: String,
}

/// A failure as contracts see it.
pub struct Failure {
    pub kind: ErrorKind,
    pub message: Seq<char>,
}

impl View for StoreError {
    type V = Failure;

    open spec fn view(&self) -> Failure {
        Failure { kind: self.kind, message: self.message@ }
    }
}

/// An outcome with its failure, if any, seen as contracts see it.
pub open spec fn outcome_view<T>(outcome: Result<T, StoreError>) -> Result<T, Failure> {
    match outcome {
        Ok(value) => Ok(value),
        Err(error) => Err(error@),
    }
}

/// The failure that stands for what the host reported about a file or a
/// directory.
pub open spec fn io_failure(message: Seq<char>) -> Failure {
    Failure { kind: ErrorKind::Io, message }
}

/// What the host reported of one file or directory operation, as contracts see
/// it: what the operation gave, or the host's description of why it failed.
pub open spec fn report_view<T>(report: Result<T, String>) -> Result<T, Seq<char>> {
    match report {
        Ok(value) => Ok(value),
        Err(message) => Err(message@),
    }
}

/// The outcome that a host's report amounts to: what the operation gave, or an
/// `Io` failure that carries the host's description unchanged.
pub open spec fn host_outcome<T>(report: Result<T, Seq<char>>) -> Result<T, Failure> {
    match report {
        Ok(value) => Ok(value),
        Err(message) => Err(io_failure(message)),
    }
}

impl StoreError {
    /// Wraps the host's own description of a failed file or directory
    /// operation.
    pub fn io(message: String) -> (error: StoreError)
        ensures
            error@ == io_failure(message@),
    {
        StoreError { kind: ErrorKind::Io, message }
    }

    /// Turns a host's report into an outcome of the store.
    pub fn from_host<T>(report: Result<T, String>) -> (outcome: Result<T, StoreError>)
        ensures
            outcome_view(outcome) == host_outcome(report_view(report)),
    {
        match report {
            Ok(value) => Ok(value),
            Err(message) => Err(StoreError::io(message)),
        }
    }
}

} // verus!
