//! The error the app's commands report to the dashboard: a message.

use vstd::prelude::*;

verus! {

/// A command failure, carried to the dashboard as its message.
#[derive(Debug)]
pub struct GeneralError(pub String);

impl GeneralError {
    /// An error with the given message.
    pub fn new(message: String) -> (r: GeneralError)
        ensures
            r.0@ == message@,
    {
        GeneralError(message)
    }

    /// An error with a fixed message.
    pub fn from_message(message: &str) -> (r: GeneralError)
        ensures
            r.0@ == message@,
    {
        GeneralError(String::from_str(message))
    }

    /// The message.
    pub fn message(&self) -> (r: &str)
        ensures
            r@ == self.0@,
    {
        self.0.as_str()
    }
}

} // verus!
