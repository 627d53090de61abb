//! The consumer: what the application shows, and how it answers the bridge
//! and the user.
//!
//! The screens decide and leave the doing to their caller: an answer is the
//! next state together with an `Effect`, the one thing that is to be done
//! outside, and the outcome of that comes back through a call of its own.

pub mod error;
pub mod loading;
pub mod ready;

use crate::decimal::{decimal, push_decimal};
use crate::microphone::Microphone;
use crate::ovr::OvrError;
use crate::poller::Event;
use crate::screen::error::Error;
use crate::screen::ready::Ready;
use vstd::string::*;
use vstd::prelude::*;

verus! {

/// Why the active microphones are asked for.
#[derive(Debug, Clone)]
pub enum Query {
    /// The bridge is ready; the text is the headset's display name.
    Startup(String),
    /// The user picked a microphone; the text is its display name.
    Selected(String),
}

/// The one thing that an answer leaves to be done outside.
#[derive(Debug)]
pub enum Effect {
    /// Nothing is to be done.
    Nothing,
    /// Mute or unmute the current microphone, and report a success with
    /// `mute_changed`. With `feedback`, a success is also made audible.
    SetMute { mute: bool, feedback: bool },
    /// Ask for the active microphones, and report the outcome with
    /// `microphones_listed`, together with the query.
    ListMicrophones(Query),
    /// Ask the bridge for a learning session. A request that the channel
    /// has no room for is dropped.
    RequestRebind,
}

/// What the application shows.
#[derive(Debug)]
pub enum State {
    /// The bridge is not ready yet.
    Loading,
    /// The main screen.
    Ready(Ready),
    /// A failure, with the offer to start over.
    Error(Error),
}

/// What can happen to the application.
#[derive(Debug, Clone)]
pub enum Message {
    /// The bridge failed; the text says how.
    Errored(String),
    /// Something for the loading screen.
    Loading(loading::Message),
    /// Something for the main screen.
    Ready(ready::Message),
    /// Something for the failure screen.
    Error(error::Message),
}

/// The text that shows a failure of the bridge.
pub open spec fn failure_text(code: i32, reason: Seq<char>) -> Seq<char> {
    "OVR Error\nCode "@ + decimal(code as int) + "\nReason "@ + reason
}

/// Turns an event of the bridge into the message for the screen that it
/// concerns.
pub fn message_of(event: Event) -> (message: Message)
    ensures
        match event {
            Event::Ready(headset) => message == Message::Loading(loading::Message::Ready(headset)),
            Event::Controller(event) => message == Message::Ready(
                ready::Message::Controller(event),
            ),
            Event::Error(error) => message matches Message::Errored(text) && text@ == failure_text(
                error.code,
                error.reason@,
            ),
        },
{
    match event {
        Event::Ready(headset) => Message::Loading(loading::Message::Ready(headset)),
        Event::Controller(event) => Message::Ready(ready::Message::Controller(event)),
        Event::Error(error) => {
            let OvrError { code, reason } = error;
            let mut text = String::new();
            text.append("OVR Error\nCode ");
            push_decimal(&mut text, code);
            text.append("\nReason ");
            text.append(reason.as_str());
            assert(text@ =~= failure_text(code, reason@));
            Message::Errored(text)
        },
    }
}

impl State {
    /// The answer to a message: the state after it, and what is to be done.
    ///
    /// A failure of the bridge leads to the failure screen from anywhere.
    /// Every other message is for one screen, and is dropped unless that
    /// screen is shown: the ready bridge makes the loading screen ask for
    /// the microphones, the main screen answers for itself, and a retry
    /// leads from the failure screen back to loading.
    pub open spec fn answer(self, message: Message) -> (State, Effect) {
        match message {
            Message::Errored(text) => (State::Error(Error { error: text }), Effect::Nothing),
            Message::Loading(loading::Message::Ready(headset)) => match self {
                State::Loading => (self, Effect::ListMicrophones(Query::Startup(headset))),
                _ => (self, Effect::Nothing),
            },
            Message::Ready(message) => match self {
                State::Ready(ready) => (
                    State::Ready(ready.answer(message).0),
                    ready.answer(message).1,
                ),
                _ => (self, Effect::Nothing),
            },
            Message::Error(_) => match self {
                State::Error(_) => (State::Loading, Effect::Nothing),
                _ => (self, Effect::Nothing),
            },
        }
    }

    /// Whether `after` is what the outcome of a query for the active
    /// microphones leads to.
    ///
    /// The query of the start leaves the loading screen, the query of a pick
    /// changes the microphone of the main screen or leads to the failure
    /// screen, and an outcome that the shown screen did not ask for changes
    /// nothing.
    pub open spec fn listed(
        self,
        query: Query,
        listed: Result<Vec<Microphone>, String>,
        after: State,
    ) -> bool {
        match (self, query) {
            (State::Loading, Query::Startup(headset)) => loading::follows(headset, listed, after),
            (State::Ready(ready), Query::Selected(choice)) => exists|
                next: Ready,
                failure: Option<Error>,
            |
                ready.picks(choice@, listed, next, failure) && after == match failure {
                    Some(error) => State::Error(error),
                    None => State::Ready(next),
                },
            _ => after == self,
        }
    }

    /// Whether the bridge is to run: it does unless a failure is shown.
    pub fn wants_poller(&self) -> (wanted: bool)
        ensures
            wanted == !(self is Error),
    {
        match self {
            State::Error(_) => false,
            _ => true,
        }
    }

    /// Answers a message as `State::answer` says.
    pub fn update(self, message: Message) -> (answer: (State, Effect))
        ensures
            answer == self.answer(message),
    {
        match message {
            Message::Errored(text) => (State::Error(Error { error: text }), Effect::Nothing),
            Message::Loading(loading::Message::Ready(headset)) => match self {
                State::Loading => (State::Loading, Effect::ListMicrophones(Query::Startup(headset))),
                other => (other, Effect::Nothing),
            },
            Message::Ready(message) => match self {
                State::Ready(mut ready) => {
                    let effect = ready.update(message);
                    (State::Ready(ready), effect)
                },
                other => (other, Effect::Nothing),
            },
            Message::Error(message) => match self {
                State::Error(error) => (error.update(message), Effect::Nothing),
                other => (other, Effect::Nothing),
            },
        }
    }

    /// Takes the outcome of a query for the active microphones, together
    /// with the query that asked for it.
    pub fn microphones_listed(
        self,
        query: Query,
        listed: Result<Vec<Microphone>, String>,
    ) -> (after: State)
        ensures
            self.listed(query, listed, after),
    {
        match self {
            State::Loading => match query {
                Query::Startup(headset) => loading::update(headset, listed),
                Query::Selected(_) => State::Loading,
            },
            State::Ready(mut ready) => match query {
                Query::Selected(choice) => {
                    let ghost before = ready;
                    let failure = ready.select(&choice, listed);
                    assert(before.picks(choice@, listed, ready, failure));
                    match failure {
                        Some(error) => State::Error(error),
                        None => State::Ready(ready),
                    }
                },
                Query::Startup(_) => State::Ready(ready),
            },
            State::Error(error) => State::Error(error),
        }
    }

    /// Records that the microphone was muted or unmuted. Only the main
    /// screen has a microphone to record it for.
    pub fn mute_changed(self, mute: bool) -> (after: State)
        ensures
            after == match self {
                State::Ready(ready) => State::Ready(
                    Ready { mic: Microphone { muted: mute, ..ready.mic }, ..ready },
                ),
                _ => self,
            },
    {
        match self {
            State::Ready(mut ready) => {
                ready.mute_changed(mute);
                State::Ready(ready)
            },
            other => other,
        }
    }
}

} // verus!
