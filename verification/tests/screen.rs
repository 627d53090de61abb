use microwave::microphone::{find_microphone, microphone_names, preferred_microphone, Microphone};
use microwave::ovr::{ControllerEvent, OvrError};
use microwave::poller::Event;
use microwave::screen::error::Error;
use microwave::screen::ready::{MicMode, Ready};
use microwave::screen::{error, loading, message_of, ready, Effect, Message, Query, State};

fn mic(id: &str, name: &str, muted: bool) -> Microphone {
    Microphone { id: id.to_string(), name: name.to_string(), muted }
}

fn three_mics() -> Vec<Microphone> {
    vec![
        mic("a", "Webcam", false),
        mic("b", "Headset Microphone (Rift S)", true),
        mic("c", "USB Headset Microphone", false),
    ]
}

fn main_screen(mode: MicMode, muted: bool) -> Ready {
    Ready {
        headset: "Rift".to_string(),
        mic: mic("a", "Webcam", muted),
        mics: vec!["Webcam".to_string(), "Line In".to_string()],
        mode,
        binding: "L Thumb + R Thumb".to_string(),
        is_setting_binding: false,
    }
}

fn show(effect: &Effect) -> String {
    format!("{effect:?}")
}

#[test]
fn headset_microphone_is_preferred() {
    assert_eq!(preferred_microphone(&three_mics()), 1);
    let plain = vec![mic("a", "Webcam", false), mic("b", "Line In", false)];
    assert_eq!(preferred_microphone(&plain), 0);
    let partial = vec![mic("a", "Headset", false), mic("b", "Microphone", false)];
    assert_eq!(preferred_microphone(&partial), 0);
    let last = vec![mic("a", "headset microphone", false), mic("b", "Headset Microphone", false)];
    assert_eq!(preferred_microphone(&last), 1);
}

#[test]
fn microphone_is_found_by_its_whole_name() {
    let mics = three_mics();
    assert_eq!(find_microphone(&mics, &"Webcam".to_string()), Some(0));
    assert_eq!(find_microphone(&mics, &"USB Headset Microphone".to_string()), Some(2));
    assert_eq!(find_microphone(&mics, &"Headset Microphone".to_string()), None);
    assert_eq!(find_microphone(&Vec::new(), &"Webcam".to_string()), None);
    let twice = vec![mic("a", "Mic", false), mic("b", "Mic", true)];
    assert_eq!(find_microphone(&twice, &"Mic".to_string()), Some(0));
}

#[test]
fn names_keep_their_order() {
    assert_eq!(
        microphone_names(&three_mics()),
        vec!["Webcam", "Headset Microphone (Rift S)", "USB Headset Microphone"]
    );
    assert!(microphone_names(&Vec::new()).is_empty());
}

#[test]
fn loading_leads_to_the_main_screen() {
    match loading::update("Oculus Rift S".to_string(), Ok(three_mics())) {
        State::Ready(ready) => {
            assert_eq!(ready.headset, "Oculus Rift S");
            assert_eq!(ready.mic.id, "b");
            assert_eq!(ready.mic.name, "Headset Microphone (Rift S)");
            assert!(ready.mic.muted);
            assert_eq!(ready.mics.len(), 3);
            assert_eq!(ready.mics[2], "USB Headset Microphone");
            assert_eq!(ready.mode, MicMode::MuteAndUnmute);
            assert_eq!(ready.binding, "L Thumb + R Thumb");
            assert!(!ready.is_setting_binding);
        }
        other => panic!("{other:?}"),
    }
}

#[test]
fn loading_without_microphones_fails() {
    match loading::update("Rift".to_string(), Ok(Vec::new())) {
        State::Error(Error { error }) => assert_eq!(error, "No microphones found"),
        other => panic!("{other:?}"),
    }
    match loading::update("Rift".to_string(), Err("access denied".to_string())) {
        State::Error(Error { error }) => assert_eq!(error, "access denied"),
        other => panic!("{other:?}"),
    }
}

#[test]
fn push_to_talk_follows_the_chord() {
    let mut screen = main_screen(MicMode::PushToTalk, true);
    let pressed = screen.update(ready::Message::Controller(ControllerEvent::Pressed));
    assert_eq!(show(&pressed), "SetMute { mute: false, feedback: true }");
    let released = screen.update(ready::Message::Controller(ControllerEvent::Released));
    assert_eq!(show(&released), "SetMute { mute: true, feedback: true }");
    assert!(screen.mic.muted);
}

#[test]
fn toggle_mode_flips_on_press_only() {
    let mut screen = main_screen(MicMode::MuteAndUnmute, false);
    let pressed = screen.update(ready::Message::Controller(ControllerEvent::Pressed));
    assert_eq!(show(&pressed), "SetMute { mute: true, feedback: true }");
    assert!(!screen.mic.muted);
    screen.mute_changed(true);
    assert!(screen.mic.muted);
    let released = screen.update(ready::Message::Controller(ControllerEvent::Released));
    assert_eq!(show(&released), "Nothing");
    let again = screen.update(ready::Message::Controller(ControllerEvent::Pressed));
    assert_eq!(show(&again), "SetMute { mute: false, feedback: true }");
}

#[test]
fn binding_events_update_the_text() {
    let mut screen = main_screen(MicMode::MuteAndUnmute, false);
    let asked = screen.update(ready::Message::SettingControllerBind);
    assert_eq!(show(&asked), "RequestRebind");
    assert!(screen.is_setting_binding);
    let update = ControllerEvent::BindingUpdate("A".to_string());
    assert_eq!(show(&screen.update(ready::Message::Controller(update))), "Nothing");
    assert_eq!(screen.binding, "A");
    assert!(screen.is_setting_binding);
    let set = ControllerEvent::BindingSet("A + B".to_string());
    assert_eq!(show(&screen.update(ready::Message::Controller(set))), "Nothing");
    assert_eq!(screen.binding, "A + B");
    assert!(!screen.is_setting_binding);
}

#[test]
fn mute_button_and_mode_are_silent() {
    let mut screen = main_screen(MicMode::MuteAndUnmute, true);
    assert_eq!(
        show(&screen.update(ready::Message::MuteToggle)),
        "SetMute { mute: false, feedback: false }"
    );
    assert_eq!(
        show(&screen.update(ready::Message::MicMode(MicMode::PushToTalk))),
        "SetMute { mute: true, feedback: false }"
    );
    assert_eq!(screen.mode, MicMode::PushToTalk);
    assert_eq!(
        show(&screen.update(ready::Message::MicMode(MicMode::MuteAndUnmute))),
        "SetMute { mute: false, feedback: false }"
    );
    assert_eq!(screen.mode, MicMode::MuteAndUnmute);
}

#[test]
fn picked_microphone_is_looked_up() {
    let mut screen = main_screen(MicMode::MuteAndUnmute, false);
    let effect = screen.update(ready::Message::MicSelected("USB Headset Microphone".to_string()));
    assert_eq!(show(&effect), "ListMicrophones(Selected(\"USB Headset Microphone\"))");
    assert_eq!(screen.mic.id, "a");
    let failure = screen.select(&"USB Headset Microphone".to_string(), Ok(three_mics()));
    assert!(failure.is_none());
    assert_eq!(screen.mic.id, "c");
    assert_eq!(screen.mic.name, "USB Headset Microphone");
    assert_eq!(screen.mics, vec!["Webcam", "Line In"]);
}

#[test]
fn missing_microphone_is_a_failure() {
    let mut screen = main_screen(MicMode::MuteAndUnmute, false);
    let failure = screen.select(&"Line In".to_string(), Ok(three_mics()));
    assert_eq!(failure.map(|error| error.error), Some("Mic now unable to be used".to_string()));
    assert_eq!(screen.mic.id, "a");
    let failure = screen.select(&"Webcam".to_string(), Err("device lost".to_string()));
    assert_eq!(failure.map(|error| error.error), Some("device lost".to_string()));
    assert_eq!(screen.mic.id, "a");
}

#[test]
fn retry_leads_back_to_loading() {
    let screen = Error { error: "boom".to_string() };
    assert!(matches!(screen.update(error::Message::Retry), State::Loading));
    let (state, effect) = State::Error(screen).update(Message::Error(error::Message::Retry));
    assert!(matches!(state, State::Loading));
    assert_eq!(show(&effect), "Nothing");
}

#[test]
fn bridge_events_become_messages() {
    match message_of(Event::Ready("Rift".to_string())) {
        Message::Loading(loading::Message::Ready(headset)) => assert_eq!(headset, "Rift"),
        other => panic!("{other:?}"),
    }
    match message_of(Event::Controller(ControllerEvent::Pressed)) {
        Message::Ready(ready::Message::Controller(ControllerEvent::Pressed)) => {}
        other => panic!("{other:?}"),
    }
    let error = OvrError { code: 123, reason: "not found".to_string() };
    match message_of(Event::Error(error)) {
        Message::Errored(text) => assert_eq!(text, "OVR Error\nCode 123\nReason not found"),
        other => panic!("{other:?}"),
    }
    let error = OvrError { code: -3001, reason: String::new() };
    match message_of(Event::Error(error)) {
        Message::Errored(text) => assert_eq!(text, "OVR Error\nCode -3001\nReason "),
        other => panic!("{other:?}"),
    }
}

#[test]
fn messages_for_another_screen_are_dropped() {
    let (state, effect) = State::Loading.update(Message::Ready(ready::Message::MuteToggle));
    assert!(matches!(state, State::Loading));
    assert_eq!(show(&effect), "Nothing");
    let (state, effect) = State::Loading.update(Message::Error(error::Message::Retry));
    assert!(matches!(state, State::Loading));
    assert_eq!(show(&effect), "Nothing");
    let shown = State::Ready(main_screen(MicMode::MuteAndUnmute, false));
    let (state, effect) =
        shown.update(Message::Loading(loading::Message::Ready("Quest".to_string())));
    assert!(matches!(state, State::Ready(_)));
    assert_eq!(show(&effect), "Nothing");
    let failed = State::Error(Error { error: "boom".to_string() });
    let (state, effect) = failed.update(Message::Ready(ready::Message::SettingControllerBind));
    assert!(matches!(state, State::Error(_)));
    assert_eq!(show(&effect), "Nothing");
}

#[test]
fn bridge_failure_leads_to_the_failure_screen() {
    let shown = State::Ready(main_screen(MicMode::PushToTalk, false));
    let (state, effect) = shown.update(Message::Errored("OVR Error".to_string()));
    match state {
        State::Error(Error { error }) => assert_eq!(error, "OVR Error"),
        other => panic!("{other:?}"),
    }
    assert_eq!(show(&effect), "Nothing");
}

#[test]
fn startup_asks_for_microphones_and_shows_the_main_screen() {
    let state = State::Loading;
    assert!(state.wants_poller());
    let (state, effect) = state.update(Message::Loading(loading::Message::Ready("Rift".to_string())));
    let query = match effect {
        Effect::ListMicrophones(query) => query,
        other => panic!("{other:?}"),
    };
    assert!(matches!(&query, Query::Startup(headset) if headset == "Rift"));
    let state = state.microphones_listed(query, Ok(three_mics()));
    assert!(state.wants_poller());
    let state = state.mute_changed(false);
    match state {
        State::Ready(ready) => {
            assert_eq!(ready.mic.id, "b");
            assert!(!ready.mic.muted);
        }
        other => panic!("{other:?}"),
    }
}

#[test]
fn pick_of_a_lost_microphone_shows_the_failure() {
    let shown = State::Ready(main_screen(MicMode::MuteAndUnmute, false));
    let (state, effect) = shown.update(Message::Ready(ready::Message::MicSelected("Line In".to_string())));
    let query = match effect {
        Effect::ListMicrophones(query) => query,
        other => panic!("{other:?}"),
    };
    let state = state.microphones_listed(query, Ok(three_mics()));
    assert!(!state.wants_poller());
    match state {
        State::Error(Error { error }) => assert_eq!(error, "Mic now unable to be used"),
        other => panic!("{other:?}"),
    }
}

#[test]
fn outcome_that_was_not_asked_for_changes_nothing() {
    let state = State::Loading.microphones_listed(Query::Selected("Webcam".to_string()), Ok(three_mics()));
    assert!(matches!(state, State::Loading));
    let shown = State::Ready(main_screen(MicMode::MuteAndUnmute, false));
    let state = shown.microphones_listed(Query::Startup("Quest".to_string()), Ok(three_mics()));
    match state {
        State::Ready(ready) => {
            assert_eq!(ready.headset, "Rift");
            assert_eq!(ready.mic.id, "a");
        }
        other => panic!("{other:?}"),
    }
    let state = State::Loading.mute_changed(true);
    assert!(matches!(state, State::Loading));
}
