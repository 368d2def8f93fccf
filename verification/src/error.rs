use vstd::prelude::*;

verus! {

/// The error taxonomy of the manager: filesystem or network failure,
/// durability-store failure, an invalid state-machine transition, a
/// digest disagreement, and a supervisor process-control failure.
#[derive(Clone, Copy, PartialEq, Eq, Structural, Debug)]
pub enum ErrorKind {
    IoError,
    StoreError,
    StateError,
    VerificationMismatch,
    ProcessError,
}

/// A structured error: its kind, and a human-readable message.
#[derive(Debug)]
pub struct AppError {
    pub kind: ErrorKind,
    pub message: String,
}

impl AppError {
    pub fn new(kind: ErrorKind, message: String) -> (e: AppError)
        ensures
            e.kind == kind,
            e.message@ == message@,
    {
        AppError { kind, message }
    }

    /// The human-readable text of the error, for display at the edge.
    pub fn describe(&self) -> (m: &String)
        ensures
            m@ == self.message@,
    {
        &self.message
    }
}

} // verus!
