//! The screen that is shown until the bridge is ready.

use crate::microphone::{is_preferred, microphone_names, preferred_microphone, Microphone};
use crate::screen::error::Error;
use crate::screen::ready::{MicMode, Ready};
use crate::screen::State;
use vstd::prelude::*;

verus! {

/// What can happen on the loading screen.
#[derive(Debug, Clone)]
pub enum Message {
    /// The bridge is ready; the text is the headset's display name.
    Ready(String),
}

/// The main screen as it is first shown, for the given headset and active
/// microphones, with microphone `index` as the current one.
pub open spec fn starts_with(
    ready: Ready,
    headset: String,
    mics: Seq<Microphone>,
    index: int,
) -> bool {
    &&& ready.headset == headset
    &&& ready.mic == mics[index]
    &&& ready.mics@.len() == mics.len()
    &&& forall|j: int| 0 <= j < mics.len() ==> #[trigger] ready.mics@[j] == mics[j].name
    &&& ready.mode == MicMode::MuteAndUnmute
    &&& ready.binding@ == "L Thumb + R Thumb"@
    &&& !ready.is_setting_binding
}

/// Whether `state` is what follows the loading screen, for the given headset
/// and outcome of the query for the active microphones.
///
/// With at least one microphone the main screen follows, on the preferred
/// microphone, in toggle mode, and with the binding of a new machine. With
/// none, or where the query failed, the failure screen follows.
pub open spec fn follows(
    headset: String,
    listed: Result<Vec<Microphone>, String>,
    state: State,
) -> bool {
    match listed {
        Ok(mics) => if mics@.len() > 0 {
            state matches State::Ready(ready) && exists|index: int|
                is_preferred(mics@, index) && starts_with(ready, headset, mics@, index)
        } else {
            state matches State::Error(error) && error.error@ == "No microphones found"@
        },
        Err(reason) => state == State::Error(Error { error: reason }),
    }
}

/// Leaves the loading screen, once the bridge is ready and the active
/// microphones were asked for.
pub fn update(headset: String, listed: Result<Vec<Microphone>, String>) -> (state: State)
    ensures
        follows(headset, listed, state),
{
    match listed {
        Ok(mics) => {
            if mics.len() > 0 {
                let index = preferred_microphone(&mics);
                let ready = Ready {
                    headset,
                    mic: mics[index].duplicate(),
                    mics: microphone_names(&mics),
                    mode: MicMode::MuteAndUnmute,
                    binding: "L Thumb + R Thumb".to_string(),
                    is_setting_binding: false,
                };
                assert(starts_with(ready, headset, mics@, index as int));
                State::Ready(ready)
            } else {
                State::Error(Error { error: "No microphones found".to_string() })
            }
        },
        Err(reason) => State::Error(Error { error: reason }),
    }
}

} // verus!
