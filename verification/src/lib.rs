//! Chord recognition for a VR hand controller that drives a microphone mute
//! switch.
//!
//! The crate holds the decisions of the system and none of its I/O: how a raw
//! controller sample becomes a chord, how the binding machine turns a stream
//! of samples into press, release and rebind events, how the polling bridge
//! reacts to each thing that can happen to it, and how the consumer answers
//! an event. Every function carries a contract that Verus proves; the two
//! calls into std that Verus has no specification for, `String::from_utf8`
//! and `str::contains`, stand behind wrappers whose contracts are taken on
//! trust.

pub mod decimal;
pub mod input;
pub mod microphone;
pub mod ovr;
pub mod poller;
pub mod render;
pub mod screen;
pub mod session;
pub mod trace;
