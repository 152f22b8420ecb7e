//! What the requester is told while a request is carried out.

use crate::text::{decimal, push_decimal};
use vstd::prelude::*;
use vstd::string::StringExecFns;

verus! {

/// How far a request has come.
#[derive(Clone, Copy, Debug, PartialEq, Eq, Structural)]
pub enum Progress {
    /// Waiting with this many jobs in front.
    Queued(usize),
    /// The transform is running.
    Processing,
    /// The result is being sent.
    Uploading,
    /// The result was sent.
    Done,
}

impl Progress {
    /// The text shown to the requester.
    pub open spec fn text(self) -> Seq<char> {
        match self {
            Progress::Queued(position) => "Queue Position: "@ + decimal(position as nat),
            Progress::Processing => "Processing..."@,
            Progress::Uploading => "Uploading..."@,
            Progress::Done => "Done!"@,
        }
    }

    /// The text shown to the requester.
    pub fn message(self) -> (text: String)
        ensures
            text@ == self.text(),
    {
        match self {
            Progress::Queued(position) => {
                let mut text = String::from_str("Queue Position: ");
                push_decimal(&mut text, position);
                text
            },
            Progress::Processing => String::from_str("Processing..."),
            Progress::Uploading => String::from_str("Uploading..."),
            Progress::Done => String::from_str("Done!"),
        }
    }
}

} // verus!
