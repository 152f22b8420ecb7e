//! The ways in which the queue can break its promise to a waiting request.

use vstd::prelude::*;

verus! {

/// A violation of the queue's order. It ends the request and is never
/// retried.
#[derive(Clone, Copy, Debug, PartialEq, Eq, Structural)]
pub enum QueueError {
    /// The job left the queue while its caller was still waiting for it to
    /// reach the head.
    Vanished,
    /// The id popped from the head is not the job that was waited on.
    OutOfOrder,
}

impl QueueError {
    /// The text that tells the requester what went wrong.
    pub open spec fn text(self) -> Seq<char> {
        match self {
            QueueError::Vanished => "Unexpectedly popped"@,
            QueueError::OutOfOrder => "Queue served jobs out of order"@,
        }
    }

    /// The text that tells the requester what went wrong.
    pub fn message(self) -> (text: &'static str)
        ensures
            text@ == self.text(),
    {
        match self {
            QueueError::Vanished => "Unexpectedly popped",
            QueueError::OutOfOrder => "Queue served jobs out of order",
        }
    }
}

} // verus!
