//! The ways in which an operation on a task is refused.

use vstd::prelude::*;

verus! {

/// Why an operation was refused. A refused operation changes nothing.
#[derive(Clone, Copy, Debug, PartialEq, Eq, Structural)]
pub enum ErrorCode {
    /// The text of a new task has more than 400 Unicode scalar values.
    TextTooLong,
    /// The actor is not the author of the task.
    Unauthorized,
}

impl ErrorCode {
    /// The message shown for the error.
    pub fn message(&self) -> (text: &'static str)
        ensures
            text@ == self.spec_message(),
    {
        match self {
            ErrorCode::TextTooLong => "The text is too long",
            ErrorCode::Unauthorized => "You are not authorized for this action",
        }
    }

    /// The message of each error.
    pub open spec fn spec_message(&self) -> Seq<char> {
        match self {
            ErrorCode::TextTooLong => "The text is too long"@,
            ErrorCode::Unauthorized => "You are not authorized for this action"@,
        }
    }
}

} // verus!
