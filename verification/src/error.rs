//! The error value returned by fallible operations.
use vstd::prelude::*;

verus! {

/// An error reported by an operation of this library.
///
/// Errors produced by zenoh are carried as their rendered description.
#[derive(Debug, Clone, PartialEq, Eq)]
pub struct Error {
    /// Human-readable description of the error.
    pub message: String,
}

/// Return a human-readable description of an error.
pub fn error_get_message(e: &Error) -> (r: String)
    ensures
        r@ == e.message@,
{
    e.message.clone()
}

} // verus!
