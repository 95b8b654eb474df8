//! The library's error taxonomy.  Recoverable conditions (a timeout, a
//! failed liveness probe) are absorbed into state elsewhere; these errors
//! are the ones a caller sees.

use vstd::prelude::*;

verus! {

/// What went wrong, with the human-readable detail.
pub enum AppError {
    /// The snapshot could not be written or read.
    CacheError(String),
    /// The data-source query failed or returned malformed data.
    FailedRunKubeCtlCommand(String),
    /// The terminal failed; fatal.
    TerminalError(String),
    /// A forward attempt failed: spawn failure or readiness timeout.
    PortForwardError(String),
    /// Anything else.
    GeneralError(String),
}

impl AppError {
    /// The detail text carried by the error.
    pub fn message(&self) -> (r: &String)
        ensures
            r@ == (match *self {
                AppError::CacheError(m) => m@,
                AppError::FailedRunKubeCtlCommand(m) => m@,
                AppError::TerminalError(m) => m@,
                AppError::PortForwardError(m) => m@,
                AppError::GeneralError(m) => m@,
            }),
    {
        match self {
            AppError::CacheError(m) => m,
            AppError::FailedRunKubeCtlCommand(m) => m,
            AppError::TerminalError(m) => m,
            AppError::PortForwardError(m) => m,
            AppError::GeneralError(m) => m,
        }
    }
}

} // verus!
