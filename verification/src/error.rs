//! Structured errors for every operation the library exposes.
//!
//! All core operations report failure as a value of [`Error`]: a code that a
//! caller can match on plus a human-readable message. Nothing in the library
//! panics on an input its contract admits.

use vstd::prelude::*;

verus! {

/// The failure taxonomy of the library.
#[derive(Clone, Copy, Debug, PartialEq, Eq, Structural)]
pub enum ErrorCode {
    /// Automation or input permission was not granted by the host.
    PermissionDenied,
    /// A locator exhausted its timeout with zero matches.
    ElementNotFound,
    /// Several nodes matched under a policy that forbids first-match fallback.
    AmbiguousMatch,
    /// An idle wait or a selector wait exceeded its deadline.
    Timeout,
    /// A native call failed underneath the library.
    PlatformError,
    /// A selector string could not be parsed.
    InvalidSelector,
    /// Anything that fits no other code.
    Unknown,
}

/// A failure: a code to match on and a message to show.
#[derive(Debug)]
pub struct Error {
    pub code: ErrorCode,
    pub message: String,
}

impl Error {
    /// Builds an error from a code and a message.
    pub fn new(code: ErrorCode, message: String) -> (e: Error)
        ensures
            e.code == code,
            e.message == message,
    {
        Error { code, message }
    }

    /// The code of this error.
    pub fn code(&self) -> (c: ErrorCode)
        ensures
            c == self.code,
    {
        self.code
    }

    /// The message of this error, for display by a host.
    pub fn message(&self) -> (m: &String)
        ensures
            m == &self.message,
    {
        &self.message
    }
}

impl Clone for Error {
    fn clone(&self) -> (e: Self)
        ensures
            e == *self,
    {
        Error { code: self.code, message: self.message.clone() }
    }
}

} // verus!
