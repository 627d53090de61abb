//! The binding machine: edge-triggered recognition of the configured chord,
//! and the learning session that captures a new one.

use crate::input::{Binding, RawSample, BUTTON_L_THUMB, BUTTON_R_THUMB};
use crate::render::{render, render_binding};
use vstd::prelude::*;

verus! {

/// A failure that the headset driver reported: its code and its own words.
#[derive(Debug, Clone)]
pub struct OvrError {
    /// The driver's result code.
    pub code: i32,
    /// The driver's description of the failure.
    pub reason: String,
}

/// A driver failure as contracts see it.
pub struct Failure {
    /// The driver's result code.
    pub code: i32,
    /// The driver's description of the failure.
    pub reason: Seq<char>,
}

impl View for OvrError {
    type V = Failure;

    open spec fn view(&self) -> Failure {
        Failure { code: self.code, reason: self.reason@ }
    }
}

/// What one tick of the machine tells the consumer.
#[derive(Debug, Clone)]
pub enum ControllerEvent {
    /// The chord went from not held to held.
    Pressed,
    /// The chord went from held to not held.
    Released,
    /// The chord that is being learned grew; the text shows it so far.
    BindingUpdate(String),
    /// Learning ended; the text shows the chord that is now monitored.
    BindingSet(String),
}

/// A `ControllerEvent` as contracts see it.
pub enum Signal {
    /// The chord went from not held to held.
    Pressed,
    /// The chord went from held to not held.
    Released,
    /// The chord that is being learned grew.
    BindingUpdate(Seq<char>),
    /// Learning ended.
    BindingSet(Seq<char>),
}

impl View for ControllerEvent {
    type V = Signal;

    open spec fn view(&self) -> Signal {
        match self {
            ControllerEvent::Pressed => Signal::Pressed,
            ControllerEvent::Released => Signal::Released,
            ControllerEvent::BindingUpdate(text) => Signal::BindingUpdate(text@),
            ControllerEvent::BindingSet(text) => Signal::BindingSet(text@),
        }
    }
}

/// The signal of an optional event.
pub open spec fn signal_of(event: Option<ControllerEvent>) -> Option<Signal> {
    match event {
        Some(event) => Some(event@),
        None => None,
    }
}

/// The machine as contracts see it.
pub struct MachineState {
    /// The chord that is monitored, or the chord learned so far.
    pub binding: Binding,
    /// Whether a learning session is under way.
    pub learning: bool,
    /// Whether the chord was held at the last monitoring tick.
    pub pressed: bool,
}

impl MachineState {
    /// A machine never monitors the empty chord.
    pub open spec fn wf(self) -> bool {
        !self.learning ==> !self.binding.is_empty()
    }

    /// The state that a new machine starts in.
    pub open spec fn initial() -> MachineState {
        MachineState {
            binding: Binding { buttons: BUTTON_L_THUMB | BUTTON_R_THUMB, triggers: 0 },
            learning: false,
            pressed: false,
        }
    }

    /// The state after a request to rebind: the chord is cleared and a
    /// learning session begins.
    pub open spec fn rebinding(self) -> MachineState {
        MachineState {
            binding: Binding { buttons: 0, triggers: 0 },
            learning: true,
            pressed: self.pressed,
        }
    }

    /// One tick while monitoring: an edge of the chord predicate flips
    /// `pressed` and is reported, a level is not.
    pub open spec fn monitor(self, sample: RawSample) -> (MachineState, Option<Signal>) {
        let held = self.binding.held_by(sample.buttons, sample.trigger_mask());
        if held && !self.pressed {
            (MachineState { pressed: true, ..self }, Some(Signal::Pressed))
        } else if !held && self.pressed {
            (MachineState { pressed: false, ..self }, Some(Signal::Released))
        } else {
            (self, None)
        }
    }

    /// One tick while learning: the held inputs join the chord. Growth is
    /// reported; a chord that did not grow, is not empty and has none of its
    /// inputs held any more is final.
    pub open spec fn learn(self, sample: RawSample) -> (MachineState, Option<Signal>) {
        let grown = self.binding.absorb(sample.buttons, sample.trigger_mask());
        if grown != self.binding {
            (MachineState { binding: grown, ..self }, Some(Signal::BindingUpdate(render(grown))))
        } else if !grown.is_empty() && grown.released_by(sample.buttons, sample.trigger_mask()) {
            (
                MachineState { binding: grown, learning: false, pressed: self.pressed },
                Some(Signal::BindingSet(render(grown))),
            )
        } else {
            (self, None)
        }
    }

    /// One tick: the next state, and the event of this tick if there is one.
    pub open spec fn step(self, sample: RawSample) -> (MachineState, Option<Signal>) {
        if self.learning {
            self.learn(sample)
        } else {
            self.monitor(sample)
        }
    }
}

/// The binding machine. It owns the chord, the session mode and the
/// activation state, and is driven by one call of `poll_input` per tick.
#[derive(Debug)]
pub struct Ovr {
    button_binding: u32,
    trigger_binding: u8,
    is_setting_binding: bool,
    pressed: bool,
}

impl View for Ovr {
    type V = MachineState;

    closed spec fn view(&self) -> MachineState {
        MachineState {
            binding: Binding { buttons: self.button_binding, triggers: self.trigger_binding },
            learning: self.is_setting_binding,
            pressed: self.pressed,
        }
    }
}

impl Ovr {
    #[verifier::type_invariant]
    spec fn inv(self) -> bool {
        self@.wf()
    }

    /// A machine that monitors the chord of both thumbstick clicks.
    pub fn new() -> (ovr: Ovr)
        ensures
            ovr@ == MachineState::initial(),
            ovr@.wf(),
    {
        assert(BUTTON_L_THUMB | BUTTON_R_THUMB != 0) by (bit_vector);
        Ovr {
            button_binding: BUTTON_L_THUMB | BUTTON_R_THUMB,
            trigger_binding: 0,
            is_setting_binding: false,
            pressed: false,
        }
    }

    /// Mask of the buttons of the chord.
    pub fn button_binding(&self) -> (buttons: u32)
        ensures
            buttons == self@.binding.buttons,
    {
        self.button_binding
    }

    /// Mask of the triggers of the chord.
    pub fn trigger_binding(&self) -> (triggers: u8)
        ensures
            triggers == self@.binding.triggers,
    {
        self.trigger_binding
    }

    /// Whether a learning session is under way. A machine that is not
    /// learning monitors a chord that is not empty.
    pub fn is_setting_binding(&self) -> (learning: bool)
        ensures
            learning == self@.learning,
            self@.wf(),
    {
        proof {
            use_type_invariant(self);
        }
        self.is_setting_binding
    }

    /// Whether the chord was held at the last monitoring tick.
    pub fn is_pressed(&self) -> (pressed: bool)
        ensures
            pressed == self@.pressed,
    {
        self.pressed
    }

    /// Evaluates one tick.
    ///
    /// The machine moves as `MachineState::step` says and hands back the
    /// event of this tick, if there is one.
    pub fn poll_input(&mut self, sample: &RawSample) -> (event: Option<ControllerEvent>)
        ensures
            (final(self)@, signal_of(event)) == old(self)@.step(*sample),
            old(self)@.wf(),
            final(self)@.wf(),
    {
        proof {
            use_type_invariant(&*self);
        }
        let buttons: u32 = sample.buttons;
        let triggers: u8 = sample.trigger_state();
        if self.is_setting_binding {
            let prev_button: u32 = self.button_binding;
            let prev_trigger: u8 = self.trigger_binding;
            assert(prev_button <= (prev_button | buttons)) by (bit_vector);
            assert(prev_trigger <= (prev_trigger | triggers)) by (bit_vector);
            self.button_binding = prev_button | buttons;
            self.trigger_binding = prev_trigger | triggers;
            if prev_button < self.button_binding || prev_trigger < self.trigger_binding {
                Some(ControllerEvent::BindingUpdate(self.binding_to_string()))
            } else {
                let not_empty_bind = self.button_binding != 0 || self.trigger_binding != 0;
                let not_pressing_bind = self.button_binding & buttons == 0 && self.trigger_binding
                    & triggers == 0;
                if not_empty_bind && not_pressing_bind {
                    self.is_setting_binding = false;
                    Some(ControllerEvent::BindingSet(self.binding_to_string()))
                } else {
                    None
                }
            }
        } else {
            let holding_bind = (self.button_binding != 0 || self.trigger_binding != 0) && buttons
                & self.button_binding == self.button_binding && triggers & self.trigger_binding
                == self.trigger_binding;
            if holding_bind {
                if self.pressed {
                    None
                } else {
                    self.pressed = true;
                    Some(ControllerEvent::Pressed)
                }
            } else if self.pressed {
                self.pressed = false;
                Some(ControllerEvent::Released)
            } else {
                None
            }
        }
    }

    /// Begins a learning session: the chord is cleared, and the next ticks
    /// collect a new one.
    pub fn start_setting_binding(&mut self)
        ensures
            final(self)@ == old(self)@.rebinding(),
    {
        self.is_setting_binding = true;
        self.button_binding = 0;
        self.trigger_binding = 0;
    }

    /// The display text of the chord.
    pub fn binding_to_string(&self) -> (output: String)
        ensures
            output@ == render(self@.binding),
    {
        render_binding(Binding { buttons: self.button_binding, triggers: self.trigger_binding })
    }
}

} // verus!
