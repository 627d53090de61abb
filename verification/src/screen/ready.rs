//! The main screen: the microphone, the mute mode and the binding.

use crate::microphone::{find_microphone, is_first_named, Microphone};
use crate::ovr::ControllerEvent;
use crate::screen::error::Error;
use crate::screen::{Effect, Query};
use vstd::prelude::*;

verus! {

/// How the chord acts on the microphone.
#[derive(Debug, Clone, Copy, PartialEq, Eq, Structural)]
pub enum MicMode {
    /// Each press of the chord toggles the mute.
    MuteAndUnmute,
    /// The microphone is live while the chord is held.
    PushToTalk,
}

/// What can happen on the main screen.
#[derive(Debug, Clone)]
pub enum Message {
    /// The bridge forwarded an event of the binding machine.
    Controller(ControllerEvent),
    /// The user pressed the mute button.
    MuteToggle,
    /// The user chose a mute mode.
    MicMode(MicMode),
    /// The user picked the microphone with this display name.
    MicSelected(String),
    /// The user asked to set a new binding.
    SettingControllerBind,
}

/// The main screen.
#[derive(Debug)]
pub struct Ready {
    /// The headset's display name.
    pub headset: String,
    /// The microphone that is controlled.
    pub mic: Microphone,
    /// The display names of the microphones that can be picked.
    pub mics: Vec<String>,
    /// How the chord acts on the microphone.
    pub mode: MicMode,
    /// The display text of the binding.
    pub binding: String,
    /// Whether a learning session was asked for and has not ended.
    pub is_setting_binding: bool,
}

impl Ready {
    /// The answer to an event of the binding machine.
    ///
    /// In push-to-talk a press unmutes and a release mutes; otherwise a
    /// press toggles and a release does nothing. Both binding events bring
    /// the text to show, and `BindingSet` also ends the learning session.
    pub open spec fn controlled(self, event: ControllerEvent) -> (Ready, Effect) {
        match event {
            ControllerEvent::Pressed => match self.mode {
                MicMode::PushToTalk => (self, Effect::SetMute { mute: false, feedback: true }),
                MicMode::MuteAndUnmute => (
                    self,
                    Effect::SetMute { mute: !self.mic.muted, feedback: true },
                ),
            },
            ControllerEvent::Released => match self.mode {
                MicMode::PushToTalk => (self, Effect::SetMute { mute: true, feedback: true }),
                MicMode::MuteAndUnmute => (self, Effect::Nothing),
            },
            ControllerEvent::BindingUpdate(binding) => (Ready { binding, ..self }, Effect::Nothing),
            ControllerEvent::BindingSet(binding) => (
                Ready { binding, is_setting_binding: false, ..self },
                Effect::Nothing,
            ),
        }
    }

    /// The answer to a message: the screen after it, and what is to be done.
    ///
    /// The mute button toggles without a sound. A new mode takes hold at
    /// once, and mutes for push-to-talk and unmutes otherwise. A picked
    /// microphone is looked up among those that are active now. A request
    /// for a new binding is passed to the bridge.
    pub open spec fn answer(self, message: Message) -> (Ready, Effect) {
        match message {
            Message::Controller(event) => self.controlled(event),
            Message::MuteToggle => (
                self,
                Effect::SetMute { mute: !self.mic.muted, feedback: false },
            ),
            Message::MicMode(mode) => (
                Ready { mode, ..self },
                Effect::SetMute { mute: mode is PushToTalk, feedback: false },
            ),
            Message::MicSelected(choice) => (self, Effect::ListMicrophones(Query::Selected(choice))),
            Message::SettingControllerBind => (
                Ready { is_setting_binding: true, ..self },
                Effect::RequestRebind,
            ),
        }
    }

    /// Answers a message as `Ready::answer` says.
    pub fn update(&mut self, message: Message) -> (effect: Effect)
        ensures
            (*final(self), effect) == old(self).answer(message),
    {
        match message {
            Message::Controller(event) => match event {
                ControllerEvent::Pressed => match self.mode {
                    MicMode::PushToTalk => Effect::SetMute { mute: false, feedback: true },
                    MicMode::MuteAndUnmute => Effect::SetMute {
                        mute: !self.mic.muted,
                        feedback: true,
                    },
                },
                ControllerEvent::Released => match self.mode {
                    MicMode::PushToTalk => Effect::SetMute { mute: true, feedback: true },
                    MicMode::MuteAndUnmute => Effect::Nothing,
                },
                ControllerEvent::BindingUpdate(binding) => {
                    self.binding = binding;
                    Effect::Nothing
                },
                ControllerEvent::BindingSet(binding) => {
                    self.binding = binding;
                    self.is_setting_binding = false;
                    Effect::Nothing
                },
            },
            Message::MuteToggle => Effect::SetMute { mute: !self.mic.muted, feedback: false },
            Message::MicMode(mode) => {
                let mute = match mode {
                    MicMode::MuteAndUnmute => false,
                    MicMode::PushToTalk => true,
                };
                self.mode = mode;
                Effect::SetMute { mute, feedback: false }
            },
            Message::MicSelected(choice) => Effect::ListMicrophones(Query::Selected(choice)),
            Message::SettingControllerBind => {
                self.is_setting_binding = true;
                Effect::RequestRebind
            },
        }
    }

    /// Records that the microphone was muted or unmuted.
    pub fn mute_changed(&mut self, mute: bool)
        ensures
            *final(self) == (Ready {
                mic: Microphone { muted: mute, ..old(self).mic },
                ..*old(self)
            }),
    {
        self.mic.muted = mute;
    }

    /// Whether `after` and `failure` are what a pick leads to, given the
    /// outcome of the query for the active microphones.
    ///
    /// The first active microphone with the picked name becomes the current
    /// one. Where there is none, or the query failed, the screen is left as
    /// it is and there is a failure to show.
    pub open spec fn picks(
        self,
        choice: Seq<char>,
        listed: Result<Vec<Microphone>, String>,
        after: Ready,
        failure: Option<Error>,
    ) -> bool {
        match listed {
            Ok(mics) => {
                if exists|i: int| is_first_named(mics@, choice, i) {
                    &&& failure is None
                    &&& exists|i: int|
                        is_first_named(mics@, choice, i) && after == (Ready {
                            mic: mics@[i],
                            ..self
                        })
                } else {
                    &&& after == self
                    &&& failure matches Some(error) && error.error@ == "Mic now unable to be used"@
                }
            },
            Err(reason) => after == self && failure == Some(Error { error: reason }),
        }
    }

    /// Takes the outcome of the query that followed a pick.
    pub fn select(&mut self, choice: &String, listed: Result<Vec<Microphone>, String>) -> (failure:
        Option<Error>)
        ensures
            old(self).picks(choice@, listed, *final(self), failure),
    {
        match listed {
            Ok(mics) => match find_microphone(&mics, choice) {
                Some(index) => {
                    self.mic = mics[index].duplicate();
                    None
                },
                None => Some(Error { error: "Mic now unable to be used".to_string() }),
            },
            Err(reason) => Some(Error { error: reason }),
        }
    }
}

} // verus!
