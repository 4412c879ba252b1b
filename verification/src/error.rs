//! The error type the library surfaces from its own checks.

use vstd::prelude::*;

verus! {

/// Error raised by the library itself, as opposed to failures of the
/// serial link or the command channel, which the runtime owns and
/// propagates unmodified.
#[derive(Clone, Copy, Debug, PartialEq, Eq)]
pub enum ErrorWrapper {
    GenericError,
}

impl ErrorWrapper {
    /// A short description of the error, for logs.
    pub fn describe(&self) -> String {
        match self {
            ErrorWrapper::GenericError => "Generic error".to_string(),
        }
    }
}

} // verus!
