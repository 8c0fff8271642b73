//! The error type that mock callbacks hand back.
//!
//! The mock layer itself never fails recoverably: a recoverable error only
//! ever enters the model because the author of a callback put one there, so a
//! message is all it carries.

use vstd::prelude::*;

verus! {

/// An error produced by a caller-supplied callback, carried through the mock
/// layer unchanged.
#[derive(Clone, Debug, PartialEq)]
pub struct MockError {
    /// The description the callback author supplied.
    pub message: String,
}

impl MockError {
    /// Wraps a description into an error value.
    pub fn new(message: String) -> (r: MockError)
        ensures
            r.message == message,
    {
        MockError { message }
    }

    /// The description the error carries.
    pub fn text(&self) -> (r: String)
        ensures
            r@ == self.message@,
    {
        self.message.clone()
    }
}

/// The result of a mock operation: what the configured callback produced.
pub type MockResult<T> = Result<T, MockError>;

} // verus!
