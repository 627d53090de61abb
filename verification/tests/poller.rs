use microwave::input::{RawSample, BUTTON_A, BUTTON_B, BUTTON_L_THUMB, BUTTON_R_THUMB};
use microwave::ovr::{ControllerEvent, OvrError};
use microwave::poller::{Directive, Event, Message, Occurrence, Phase, Poller, Reaction};

fn held(buttons: u32) -> Occurrence {
    Occurrence::Sampled(RawSample {
        buttons,
        left_index: 0,
        right_index: 0,
        left_hand: 0,
        right_hand: 0,
    })
}

fn show(reaction: Reaction) -> String {
    let event = match reaction.event {
        None => "none".to_string(),
        Some(Event::Ready(headset)) => format!("ready({headset})"),
        Some(Event::Controller(ControllerEvent::Pressed)) => "pressed".to_string(),
        Some(Event::Controller(ControllerEvent::Released)) => "released".to_string(),
        Some(Event::Controller(ControllerEvent::BindingUpdate(text))) => format!("update({text})"),
        Some(Event::Controller(ControllerEvent::BindingSet(text))) => format!("set({text})"),
        Some(Event::Error(error)) => format!("error({}, {})", error.code, error.reason),
    };
    format!("{event} -> {:?}", reaction.next)
}

fn not_found() -> OvrError {
    OvrError { code: 123, reason: "not found".to_string() }
}

#[test]
fn new_bridge_is_to_connect() {
    let poller = Poller::new();
    assert_eq!(poller.phase(), Phase::Connecting);
    assert_eq!(poller.directive(), Directive::Connect);
    assert_eq!(poller.machine().button_binding(), BUTTON_L_THUMB | BUTTON_R_THUMB);
}

#[test]
fn failed_open_is_reported_once_and_ends_the_bridge() {
    let mut poller = Poller::new();
    let mut forwarded = Vec::new();
    let first = poller.handle(Occurrence::OpenFailed(not_found()));
    assert_eq!(first.next, Directive::Exit);
    forwarded.extend(first.event);
    let later = [
        Occurrence::Opened("Rift".to_string()),
        held(BUTTON_L_THUMB | BUTTON_R_THUMB),
        Occurrence::Received(Some(Message::SettingBind)),
        Occurrence::OpenFailed(not_found()),
        Occurrence::SampleFailed(not_found()),
    ];
    for occurrence in later {
        let reaction = poller.handle(occurrence);
        assert_eq!(reaction.next, Directive::Exit);
        forwarded.extend(reaction.event);
    }
    assert_eq!(forwarded.len(), 1);
    match &forwarded[0] {
        Event::Error(error) => {
            assert_eq!(error.code, 123);
            assert_eq!(error.reason, "not found");
        }
        other => panic!("{other:?}"),
    }
    assert_eq!(poller.phase(), Phase::Stopped);
    assert_eq!(poller.directive(), Directive::Exit);
}

#[test]
fn open_session_is_announced_and_polled() {
    let mut poller = Poller::new();
    assert_eq!(show(poller.handle(Occurrence::Opened("Oculus Rift S".to_string()))), "ready(Oculus Rift S) -> Wait");
    assert_eq!(poller.phase(), Phase::Running);
    assert_eq!(poller.directive(), Directive::Wait);
    let both = BUTTON_L_THUMB | BUTTON_R_THUMB;
    assert_eq!(show(poller.handle(held(0))), "none -> Wait");
    assert_eq!(show(poller.handle(held(both))), "pressed -> Wait");
    assert_eq!(show(poller.handle(held(both))), "none -> Wait");
    assert_eq!(show(poller.handle(held(0))), "released -> Wait");
}

#[test]
fn command_starts_learning_without_an_event() {
    let mut poller = Poller::new();
    poller.handle(Occurrence::Opened("Rift".to_string()));
    assert_eq!(show(poller.handle(Occurrence::Received(Some(Message::SettingBind)))), "none -> Wait");
    assert!(poller.machine().is_setting_binding());
    assert_eq!(poller.machine().button_binding(), 0);
    assert_eq!(show(poller.handle(held(BUTTON_A))), "update(A) -> Wait");
    assert_eq!(show(poller.handle(held(BUTTON_A | BUTTON_B))), "update(A + B) -> Wait");
    assert_eq!(show(poller.handle(held(BUTTON_A | BUTTON_B))), "none -> Wait");
    assert_eq!(show(poller.handle(held(0))), "set(A + B) -> Wait");
    assert_eq!(show(poller.handle(held(BUTTON_A | BUTTON_B))), "pressed -> Wait");
}

#[test]
fn closed_command_channel_changes_nothing() {
    let mut poller = Poller::new();
    poller.handle(Occurrence::Opened("Rift".to_string()));
    assert_eq!(show(poller.handle(Occurrence::Received(None))), "none -> Wait");
    assert!(!poller.machine().is_setting_binding());
    assert_eq!(poller.phase(), Phase::Running);
}

#[test]
fn command_before_ready_is_not_acted_on() {
    let mut poller = Poller::new();
    assert_eq!(show(poller.handle(Occurrence::Received(Some(Message::SettingBind)))), "none -> Connect");
    assert_eq!(show(poller.handle(held(BUTTON_L_THUMB | BUTTON_R_THUMB))), "none -> Connect");
    assert!(!poller.machine().is_setting_binding());
    assert!(!poller.machine().is_pressed());
    assert_eq!(poller.phase(), Phase::Connecting);
}

#[test]
fn failed_read_is_fatal_and_releases_the_session() {
    let mut poller = Poller::new();
    poller.handle(Occurrence::Opened("Rift".to_string()));
    let error = OvrError { code: -6000, reason: "display lost".to_string() };
    assert_eq!(show(poller.handle(Occurrence::SampleFailed(error))), "error(-6000, display lost) -> Shutdown");
    assert_eq!(poller.phase(), Phase::Stopped);
    assert_eq!(show(poller.handle(held(BUTTON_L_THUMB | BUTTON_R_THUMB))), "none -> Exit");
    assert_eq!(show(poller.handle(Occurrence::Received(Some(Message::SettingBind)))), "none -> Exit");
}

#[test]
fn second_open_is_ignored_while_running() {
    let mut poller = Poller::new();
    poller.handle(Occurrence::Opened("Rift".to_string()));
    assert_eq!(show(poller.handle(Occurrence::Opened("Quest".to_string()))), "none -> Wait");
    assert_eq!(show(poller.handle(Occurrence::OpenFailed(not_found()))), "none -> Wait");
    assert_eq!(poller.phase(), Phase::Running);
}
