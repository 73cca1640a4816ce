//! Error kinds reported by the session engine.

use vstd::prelude::*;

verus! {

/// Why a terminal operation failed.
///
/// Resource allocation failures are fatal to the one call that raised them;
/// a not-found error means the referenced session identifier is not live;
/// an I/O error leaves the session registered so the caller may retry.
#[derive(Debug)]
pub enum TerminalError {
    /// The pseudo-terminal or its child process could not be created.
    ResourceAllocation(String),
    /// The operation referenced an identifier with no live session.
    NotFound(String),
    /// A write or resize against the terminal failed.
    Io(String),
}

impl TerminalError {
    /// The human-readable message carried by the error.
    pub fn message(&self) -> (r: String)
        ensures
            match self {
                TerminalError::ResourceAllocation(m) => r@ == m@,
                TerminalError::NotFound(m) => r@ == m@,
                TerminalError::Io(m) => r@ == m@,
            },
    {
        match self {
            TerminalError::ResourceAllocation(m) => m.clone(),
            TerminalError::NotFound(m) => m.clone(),
            TerminalError::Io(m) => m.clone(),
        }
    }

    /// True exactly when the error is the not-found kind.
    pub fn is_not_found(&self) -> (r: bool)
        ensures
            r == (self matches TerminalError::NotFound(_)),
    {
        match self {
            TerminalError::NotFound(_) => true,
            _ => false,
        }
    }
}

} // verus!
