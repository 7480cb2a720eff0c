use vstd::prelude::*;

verus! {

/// The ways a dialog can fail.
#[derive(Debug, PartialEq, Eq)]
pub enum Error {
    /// No dialog helper is available on this system.
    NoImplementation,
    /// The named helper ended without an exit code.
    UnexpectedOutput(&'static str),
    /// The native toolkit reported a failure, described in words.
    ImplementationError(String),
}

} // verus!
