//! Controller inputs: digital buttons, analog triggers, and the chord algebra
//! that folds both into bitmasks.

use vstd::prelude::*;

verus! {

/// Button mask bit of the `A` face button.
pub const BUTTON_A: u32 = 0x0000_0001;

/// Button mask bit of the `B` face button.
pub const BUTTON_B: u32 = 0x0000_0002;

/// Button mask bit of the right thumbstick click.
pub const BUTTON_R_THUMB: u32 = 0x0000_0004;

/// Button mask bit of the `X` face button.
pub const BUTTON_X: u32 = 0x0000_0100;

/// Button mask bit of the `Y` face button.
pub const BUTTON_Y: u32 = 0x0000_0200;

/// Button mask bit of the left thumbstick click.
pub const BUTTON_L_THUMB: u32 = 0x0000_0400;

/// Button mask bit of the menu button.
pub const BUTTON_MENU: u32 = 0x0010_0000;

/// Trigger mask bit of the left index trigger.
pub const L_INDEX_TRIGGER: u8 = 0x01;

/// Trigger mask bit of the right index trigger.
pub const R_INDEX_TRIGGER: u8 = 0x02;

/// Trigger mask bit of the left hand (grip) trigger.
pub const L_HAND_TRIGGER: u8 = 0x04;

/// Trigger mask bit of the right hand (grip) trigger.
pub const R_HAND_TRIGGER: u8 = 0x08;

/// The activation threshold 0.85 as an IEEE-754 single-precision bit pattern.
pub const TRIGGER_THRESHOLD: u32 = 0x3F59_999A;

/// Positive infinity as an IEEE-754 single-precision bit pattern: the largest
/// pattern with a clear sign bit that is still a number.
pub const LEVEL_INFINITY: u32 = 0x7F80_0000;

/// One snapshot of the controller, taken at a poll tick.
///
/// A trigger level is the IEEE-754 single-precision bit pattern of the analog
/// value that the hardware reported (`f32::to_bits`), so that the sample is
/// made of integers only.
#[derive(Clone, Copy, Debug, PartialEq, Eq, Structural)]
pub struct RawSample {
    /// Mask of the digital buttons that are held.
    pub buttons: u32,
    /// Level of the left index trigger.
    pub left_index: u32,
    /// Level of the right index trigger.
    pub right_index: u32,
    /// Level of the left hand trigger.
    pub left_hand: u32,
    /// Level of the right hand trigger.
    pub right_hand: u32,
}

/// Whether a trigger level lies strictly above the activation threshold.
///
/// Among the patterns with a clear sign bit, numbers are ordered as their
/// patterns are, and every pattern above that of infinity is a NaN. So the
/// level exceeds 0.85 exactly when its pattern lies strictly above that of
/// 0.85 and is not a NaN. A negative level and a NaN never activate.
pub open spec fn is_activated(level: u32) -> bool {
    TRIGGER_THRESHOLD < level <= LEVEL_INFINITY
}

/// The mask that one trigger contributes: its bit once activated, else none.
pub open spec fn trigger_bit(bit: u8, level: u32) -> u8 {
    if is_activated(level) {
        bit
    } else {
        0u8
    }
}

impl RawSample {
    /// The discretized trigger mask of this sample: one bit for each trigger
    /// whose level is above the threshold.
    pub open spec fn trigger_mask(&self) -> u8 {
        trigger_bit(L_INDEX_TRIGGER, self.left_index) | trigger_bit(
            R_INDEX_TRIGGER,
            self.right_index,
        ) | trigger_bit(L_HAND_TRIGGER, self.left_hand) | trigger_bit(
            R_HAND_TRIGGER,
            self.right_hand,
        )
    }

    /// Computes the discretized trigger mask.
    ///
    /// Each trigger's bit is set if and only if that trigger is activated, and
    /// no other bit is ever set.
    pub fn trigger_state(&self) -> (mask: u8)
        ensures
            mask == self.trigger_mask(),
            (mask & L_INDEX_TRIGGER != 0) <==> is_activated(self.left_index),
            (mask & R_INDEX_TRIGGER != 0) <==> is_activated(self.right_index),
            (mask & L_HAND_TRIGGER != 0) <==> is_activated(self.left_hand),
            (mask & R_HAND_TRIGGER != 0) <==> is_activated(self.right_hand),
            mask & 0xF0u8 == 0,
    {
        let a: u8 = discretize(L_INDEX_TRIGGER, self.left_index);
        let b: u8 = discretize(R_INDEX_TRIGGER, self.right_index);
        let c: u8 = discretize(L_HAND_TRIGGER, self.left_hand);
        let d: u8 = discretize(R_HAND_TRIGGER, self.right_hand);
        let mask: u8 = a | b | c | d;
        proof {
            lemma_mask_bits(a, b, c, d);
        }
        mask
    }
}

/// A chord: the buttons and the discretized triggers that must all be held at
/// once to count as one activation.
#[derive(Clone, Copy, Debug, PartialEq, Eq, Structural)]
pub struct Binding {
    /// Mask of the buttons of the chord.
    pub buttons: u32,
    /// Mask of the triggers of the chord.
    pub triggers: u8,
}

impl Binding {
    /// The chord with no input in it.
    pub open spec fn is_empty(self) -> bool {
        self.buttons == 0 && self.triggers == 0
    }

    /// Whether every input of `other` is an input of this chord.
    pub open spec fn includes(self, other: Binding) -> bool {
        self.buttons & other.buttons == other.buttons && self.triggers & other.triggers
            == other.triggers
    }

    /// Whether the held inputs satisfy the chord: the chord is not empty and
    /// each of its inputs is held. Holding more than the chord satisfies it
    /// too; the empty chord is satisfied by nothing.
    pub open spec fn held_by(self, buttons: u32, triggers: u8) -> bool {
        !self.is_empty() && buttons & self.buttons == self.buttons && triggers & self.triggers
            == self.triggers
    }

    /// Whether none of the chord's inputs is among the held inputs.
    pub open spec fn released_by(self, buttons: u32, triggers: u8) -> bool {
        self.buttons & buttons == 0 && self.triggers & triggers == 0
    }

    /// The chord enlarged by the held inputs.
    pub open spec fn absorb(self, buttons: u32, triggers: u8) -> Binding {
        Binding { buttons: self.buttons | buttons, triggers: self.triggers | triggers }
    }
}

/// Computes the mask that one trigger contributes.
pub fn discretize(bit: u8, level: u32) -> (mask: u8)
    ensures
        mask == trigger_bit(bit, level),
{
    if TRIGGER_THRESHOLD < level && level <= LEVEL_INFINITY {
        bit
    } else {
        0
    }
}

/// In a mask put together from the four trigger bits, each bit tells of its
/// own trigger alone.
pub proof fn lemma_mask_bits(a: u8, b: u8, c: u8, d: u8)
    requires
        a == 0 || a == L_INDEX_TRIGGER,
        b == 0 || b == R_INDEX_TRIGGER,
        c == 0 || c == L_HAND_TRIGGER,
        d == 0 || d == R_HAND_TRIGGER,
    ensures
        ((a | b | c | d) & L_INDEX_TRIGGER != 0) <==> a != 0,
        ((a | b | c | d) & R_INDEX_TRIGGER != 0) <==> b != 0,
        ((a | b | c | d) & L_HAND_TRIGGER != 0) <==> c != 0,
        ((a | b | c | d) & R_HAND_TRIGGER != 0) <==> d != 0,
        (a | b | c | d) & 0xF0u8 == 0,
{
    assert((a == 0 || a == 1) && (b == 0 || b == 2) && (c == 0 || c == 4) && (d == 0 || d == 8)
        ==> ((((a | b | c | d) & 1 != 0) <==> a != 0) && (((a | b | c | d) & 2 != 0) <==> b != 0)
        && (((a | b | c | d) & 4 != 0) <==> c != 0) && (((a | b | c | d) & 8 != 0) <==> d != 0)
        && (a | b | c | d) & 0xF0u8 == 0)) by (bit_vector);
}

} // verus!
