//! The error taxonomy of the supervision core.

use vstd::prelude::*;

verus! {

/// Abstract value of an [`Error`]: the same three kinds, with each message
/// seen as its character sequence.
pub enum SpecError {
    AlreadyRunning,
    SpawnFailed(Seq<char>),
    TerminationFailed(Seq<char>),
}

/// Why a supervisor operation failed.
///
/// None of these is fatal to the host: `AlreadyRunning` is a caller error,
/// the other two are reported as warnings and the host continues (degraded,
/// or with local state already consistent).
#[derive(Debug, Clone)]
pub enum Error {
    /// `start` was called while a worker handle was already held.
    AlreadyRunning,
    /// The OS refused to create the worker process; the host continues
    /// without a worker.
    SpawnFailed(String),
    /// The termination signal could not be delivered or confirmed; the
    /// handle has already been cleared, so the single-instance invariant
    /// holds regardless.
    TerminationFailed(String),
}

impl View for Error {
    type V = SpecError;

    open spec fn view(&self) -> SpecError {
        match self {
            Error::AlreadyRunning => SpecError::AlreadyRunning,
            Error::SpawnFailed(m) => SpecError::SpawnFailed(m@),
            Error::TerminationFailed(m) => SpecError::TerminationFailed(m@),
        }
    }
}

impl Error {
    /// A human-readable description of the failure.
    pub fn message(&self) -> (r: String)
        ensures
            self@ is AlreadyRunning ==> r@ == "Backend already running"@,
            self@ matches SpecError::SpawnFailed(m) ==> r@ == m,
            self@ matches SpecError::TerminationFailed(m) ==> r@ == m,
    {
        match self {
            Error::AlreadyRunning => String::from_str("Backend already running"),
            Error::SpawnFailed(m) => m.clone(),
            Error::TerminationFailed(m) => m.clone(),
        }
    }
}

} // verus!
