//! What one attempt at an operation yields.

use vstd::prelude::*;
use std::io::Error;

verus! {

/// The result of one scheduling turn spent on an operation.
#[derive(Debug)]
pub enum Outcome<T> {
    /// The operation needs further turns. It has to be tried again as the
    /// same operation, not as a new one.
    Pending,
    /// The operation completed and produced this value.
    Done(T),
    /// The operation completed with a failure of the stream.
    Failed(Error),
}

impl<T> Outcome<T> {
    pub open spec fn spec_completed(&self) -> bool {
        !(self is Pending)
    }

    /// Whether the operation came to an end, well or badly.
    #[verifier::when_used_as_spec(spec_completed)]
    pub fn completed(&self) -> (c: bool)
        ensures
            c == self.spec_completed(),
    {
        match self {
            Outcome::Pending => false,
            _ => true,
        }
    }
}

} // verus!
