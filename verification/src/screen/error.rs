//! The screen that shows a failure and offers to start over.

use crate::screen::State;
use vstd::prelude::*;

verus! {

/// The failure screen.
#[derive(Debug)]
pub struct Error {
    /// The text of the failure.
    pub error: String,
}

/// What the user can do on the failure screen.
#[derive(Debug, Clone, Copy, PartialEq, Eq, Structural)]
pub enum Message {
    /// Start over.
    Retry,
}

impl Error {
    /// Answers the user: a retry leads back to loading.
    pub fn update(&self, message: Message) -> (state: State)
        ensures
            state == State::Loading,
    {
        match message {
            Message::Retry => State::Loading,
        }
    }
}

} // verus!
