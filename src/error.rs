//! What a failed set-up reports.
use vstd::prelude::*;

verus! {

#[verifier::external_type_specification]
#[verifier::external_body]
pub struct ExIoError(std::io::Error);

#[verifier::external_type_specification]
#[verifier::external_body]
pub struct ExSetGlobalDefaultError(tracing::subscriber::SetGlobalDefaultError);

#[verifier::external_type_specification]
#[verifier::external_body]
pub struct ExSetLoggerError(tracing_log::log::SetLoggerError);

/// The kinds of failure that reach the caller of a set-up.
#[derive(Clone, Copy, Debug, PartialEq, Eq, Structural)]
pub enum ErrorKind {
    /// The system journal could not be reached.
    TransportUnavailable,
    /// The legacy bridge or the global handler was installed before.
    AlreadyInitialized,
}

/// A failed set-up, with the error that the failing step gave.
#[derive(Debug)]
pub enum Error {
    /// The journal transport could not be opened.
    IO(std::io::Error),
    /// A global handler was already installed.
    TracingGlobal(tracing::subscriber::SetGlobalDefaultError),
    /// The legacy `log` bridge was already installed.
    TracingLog(tracing_log::log::SetLoggerError),
}

impl Error {
    pub open spec fn spec_kind(&self) -> ErrorKind {
        match self {
            Error::IO(_) => ErrorKind::TransportUnavailable,
            Error::TracingGlobal(_) => ErrorKind::AlreadyInitialized,
            Error::TracingLog(_) => ErrorKind::AlreadyInitialized,
        }
    }

    /// The kind of this failure.
    pub fn kind(&self) -> (r: ErrorKind)
        ensures
            r == self.spec_kind(),
    {
        match self {
            Error::IO(_) => ErrorKind::TransportUnavailable,
            Error::TracingGlobal(_) => ErrorKind::AlreadyInitialized,
            Error::TracingLog(_) => ErrorKind::AlreadyInitialized,
        }
    }
}

} // verus!
