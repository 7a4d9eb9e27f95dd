//! The error taxonomy of the fetch paths.

use vstd::prelude::*;

verus! {

/// Everything that can go wrong between a button click and a displayed
/// result. None of these crash the application: each is surfaced to the
/// user (a modal for invalid input, a log line otherwise) and the state
/// machine returns to `Completed` so the fetch can be retried.
#[derive(Clone, Debug, PartialEq)]
pub enum AppError {
    /// User-supplied coordinate text was not parseable as a number.
    InvalidInput,
    /// The network fetch itself failed; carries the message to log.
    Fetch(String),
    /// The producer side of a result channel was dropped before sending.
    ChannelDisconnected,
}

impl AppError {
    /// A short description, for the log view.
    pub fn describe(&self) -> (r: String)
        ensures
            self is InvalidInput ==> r@ == "Invalid input: number not parseable as float."@,
            self matches AppError::Fetch(m) ==> r@ == m@,
            self is ChannelDisconnected ==> r@ == "Result channel disconnected before sending."@,
    {
        match self {
            AppError::InvalidInput => "Invalid input: number not parseable as float.".to_owned(),
            AppError::Fetch(m) => m.clone(),
            AppError::ChannelDisconnected => "Result channel disconnected before sending.".to_owned(),
        }
    }
}

} // verus!
