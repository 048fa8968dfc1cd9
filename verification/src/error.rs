//! What can go wrong in a synonym store operation.

use vstd::prelude::*;

verus! {

/// The failure of an operation.
#[derive(Clone, Copy, Debug, PartialEq, Eq, Structural)]
pub enum SynonymError {
    /// The store reported a failure, or answered something other than what
    /// it was asked. Never retried here: the transaction is the caller's.
    Storage,
    /// The words handed to a write are not in strictly ascending order, or
    /// the set handed to it does not read back as a set of strings.
    InvalidSet,
    /// A blob read back from the folded region is not a set of strings.
    CorruptData,
}

impl SynonymError {
    /// A short description, for messages.
    pub fn describe(&self) -> (text: &'static str)
        ensures
            text@ == match *self {
                SynonymError::Storage => "storage failure"@,
                SynonymError::InvalidSet => "invalid synonym set"@,
                SynonymError::CorruptData => "corrupt synonym data"@,
            },
    {
        match self {
            SynonymError::Storage => "storage failure",
            SynonymError::InvalidSet => "invalid synonym set",
            SynonymError::CorruptData => "corrupt synonym data",
        }
    }
}

} // verus!
