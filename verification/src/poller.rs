//! The polling bridge: what the loop around the device session does about
//! each thing that happens to it.
//!
//! The loop itself waits, reads the hardware and sends over channels, and so
//! stands outside this crate. It reports each occurrence to a `Poller` and
//! does what the reaction says: it forwards the event, if there is one, and
//! follows the directive.

use crate::input::RawSample;
use crate::ovr::{ControllerEvent, Failure, MachineState, Ovr, OvrError, Signal};
use vstd::prelude::*;

verus! {

/// What the consumer can ask of the bridge.
#[derive(Debug, Clone, Copy, PartialEq, Eq, Structural)]
pub enum Message {
    /// Start a learning session.
    SettingBind,
}

/// What the bridge tells the consumer.
#[derive(Debug, Clone)]
pub enum Event {
    /// The session is open; the text is the headset's display name. The
    /// consumer may send commands from now on.
    Ready(String),
    /// An event of the binding machine.
    Controller(ControllerEvent),
    /// The session could not be opened, or a read of it failed.
    Error(OvrError),
}

/// An `Event` as contracts see it.
pub enum EventView {
    /// The session is open.
    Ready(Seq<char>),
    /// An event of the binding machine.
    Controller(Signal),
    /// The session could not be opened, or a read of it failed.
    Error(Failure),
}

impl View for Event {
    type V = EventView;

    open spec fn view(&self) -> EventView {
        match self {
            Event::Ready(headset) => EventView::Ready(headset@),
            Event::Controller(event) => EventView::Controller(event@),
            Event::Error(error) => EventView::Error(error@),
        }
    }
}

/// The view of an optional event.
pub open spec fn event_view(event: Option<Event>) -> Option<EventView> {
    match event {
        Some(event) => Some(event@),
        None => None,
    }
}

/// One thing that happened to the loop.
#[derive(Debug)]
pub enum Occurrence {
    /// The session was opened; the text is the headset's display name.
    Opened(String),
    /// The session could not be opened.
    OpenFailed(OvrError),
    /// The wait for a command ended first: with a command, or with `None`
    /// once no sender is left.
    Received(Option<Message>),
    /// The poll interval ended first, and the session was read.
    Sampled(RawSample),
    /// The poll interval ended first, and the read of the session failed.
    SampleFailed(OvrError),
}

/// An `Occurrence` as contracts see it.
pub enum OccurrenceView {
    /// The session was opened.
    Opened(Seq<char>),
    /// The session could not be opened.
    OpenFailed(Failure),
    /// The wait for a command ended first.
    Received(Option<Message>),
    /// The session was read.
    Sampled(RawSample),
    /// The read of the session failed.
    SampleFailed(Failure),
}

impl View for Occurrence {
    type V = OccurrenceView;

    open spec fn view(&self) -> OccurrenceView {
        match self {
            Occurrence::Opened(headset) => OccurrenceView::Opened(headset@),
            Occurrence::OpenFailed(error) => OccurrenceView::OpenFailed(error@),
            Occurrence::Received(message) => OccurrenceView::Received(*message),
            Occurrence::Sampled(sample) => OccurrenceView::Sampled(*sample),
            Occurrence::SampleFailed(error) => OccurrenceView::SampleFailed(error@),
        }
    }
}

/// What the loop is to do next.
#[derive(Debug, Clone, Copy, PartialEq, Eq, Structural)]
pub enum Directive {
    /// Open the device session and report how it went.
    Connect,
    /// Wait for a command and for the poll interval at once, and report
    /// whichever comes first; when it is the interval, read the session.
    Wait,
    /// Release the device session and end.
    Shutdown,
    /// End; there is no session to release.
    Exit,
}

/// Where the bridge stands.
#[derive(Debug, Clone, Copy, PartialEq, Eq, Structural)]
pub enum Phase {
    /// No session yet.
    Connecting,
    /// The session is open and is polled.
    Running,
    /// The bridge has ended.
    Stopped,
}

/// The bridge as contracts see it.
pub struct BridgeState {
    /// Where the bridge stands.
    pub phase: Phase,
    /// The binding machine that the bridge owns.
    pub machine: MachineState,
}

/// The answer to one occurrence as contracts see it.
pub struct Outcome {
    /// The bridge after the occurrence.
    pub state: BridgeState,
    /// The event to forward to the consumer, if there is one.
    pub event: Option<EventView>,
    /// What the loop is to do next.
    pub next: Directive,
}

impl BridgeState {
    /// The bridge before anything has happened.
    pub open spec fn initial() -> BridgeState {
        BridgeState { phase: Phase::Connecting, machine: MachineState::initial() }
    }

    /// The bridge in another phase, with the same machine.
    pub open spec fn in_phase(self, phase: Phase) -> BridgeState {
        BridgeState { phase, machine: self.machine }
    }

    /// The answer that changes nothing and forwards nothing.
    pub open spec fn ignore(self, next: Directive) -> Outcome {
        Outcome { state: self, event: None, next }
    }

    /// Before the session is open: a successful open starts the polling and
    /// is announced with `Ready`; a failed one is reported once and ends the
    /// bridge. Nothing else can be acted on yet.
    pub open spec fn connect(self, occurrence: OccurrenceView) -> Outcome {
        match occurrence {
            OccurrenceView::Opened(headset) => Outcome {
                state: self.in_phase(Phase::Running),
                event: Some(EventView::Ready(headset)),
                next: Directive::Wait,
            },
            OccurrenceView::OpenFailed(failure) => Outcome {
                state: self.in_phase(Phase::Stopped),
                event: Some(EventView::Error(failure)),
                next: Directive::Exit,
            },
            _ => self.ignore(Directive::Connect),
        }
    }

    /// While the session is open: a command is applied at once, a sample is
    /// evaluated by the machine and its event forwarded, and a failed read
    /// is reported and ends the bridge with the session released.
    pub open spec fn run(self, occurrence: OccurrenceView) -> Outcome {
        match occurrence {
            OccurrenceView::Received(Some(Message::SettingBind)) => Outcome {
                state: BridgeState { phase: Phase::Running, machine: self.machine.rebinding() },
                event: None,
                next: Directive::Wait,
            },
            OccurrenceView::Sampled(sample) => Outcome {
                state: BridgeState { phase: Phase::Running, machine: self.machine.step(sample).0 },
                event: match self.machine.step(sample).1 {
                    Some(signal) => Some(EventView::Controller(signal)),
                    None => None,
                },
                next: Directive::Wait,
            },
            OccurrenceView::SampleFailed(failure) => Outcome {
                state: self.in_phase(Phase::Stopped),
                event: Some(EventView::Error(failure)),
                next: Directive::Shutdown,
            },
            _ => self.ignore(Directive::Wait),
        }
    }

    /// The answer of the bridge to one occurrence.
    pub open spec fn react(self, occurrence: OccurrenceView) -> Outcome {
        match self.phase {
            Phase::Connecting => self.connect(occurrence),
            Phase::Running => self.run(occurrence),
            Phase::Stopped => self.ignore(Directive::Exit),
        }
    }
}

/// The answer to one occurrence: the event to forward, and what to do next.
#[derive(Debug)]
pub struct Reaction {
    /// The event to forward to the consumer, if there is one.
    pub event: Option<Event>,
    /// What the loop is to do next.
    pub next: Directive,
}

/// The bridge. It owns the binding machine and knows whether the session is
/// open.
#[derive(Debug)]
pub struct Poller {
    phase: Phase,
    ovr: Ovr,
}

impl View for Poller {
    type V = BridgeState;

    closed spec fn view(&self) -> BridgeState {
        BridgeState { phase: self.phase, machine: self.ovr@ }
    }
}

impl Poller {
    /// A bridge that has not opened its session yet.
    pub fn new() -> (poller: Poller)
        ensures
            poller@ == BridgeState::initial(),
    {
        Poller { phase: Phase::Connecting, ovr: Ovr::new() }
    }

    /// Where the bridge stands.
    pub fn phase(&self) -> (phase: Phase)
        ensures
            phase == self@.phase,
    {
        self.phase
    }

    /// What the loop is to do now.
    pub fn directive(&self) -> (next: Directive)
        ensures
            next == match self@.phase {
                Phase::Connecting => Directive::Connect,
                Phase::Running => Directive::Wait,
                Phase::Stopped => Directive::Exit,
            },
    {
        match self.phase {
            Phase::Connecting => Directive::Connect,
            Phase::Running => Directive::Wait,
            Phase::Stopped => Directive::Exit,
        }
    }

    /// The binding machine of the bridge.
    pub fn machine(&self) -> (ovr: &Ovr)
        ensures
            ovr@ == self@.machine,
    {
        &self.ovr
    }

    /// Answers one occurrence as `BridgeState::react` says.
    pub fn handle(&mut self, occurrence: Occurrence) -> (reaction: Reaction)
        ensures
            final(self)@ == old(self)@.react(occurrence@).state,
            event_view(reaction.event) == old(self)@.react(occurrence@).event,
            reaction.next == old(self)@.react(occurrence@).next,
    {
        match self.phase {
            Phase::Connecting => match occurrence {
                Occurrence::Opened(headset) => {
                    self.phase = Phase::Running;
                    Reaction { event: Some(Event::Ready(headset)), next: Directive::Wait }
                },
                Occurrence::OpenFailed(error) => {
                    self.phase = Phase::Stopped;
                    Reaction { event: Some(Event::Error(error)), next: Directive::Exit }
                },
                _ => Reaction { event: None, next: Directive::Connect },
            },
            Phase::Running => match occurrence {
                Occurrence::Received(Some(Message::SettingBind)) => {
                    self.ovr.start_setting_binding();
                    Reaction { event: None, next: Directive::Wait }
                },
                Occurrence::Sampled(sample) => {
                    let event = match self.ovr.poll_input(&sample) {
                        Some(event) => Some(Event::Controller(event)),
                        None => None,
                    };
                    Reaction { event, next: Directive::Wait }
                },
                Occurrence::SampleFailed(error) => {
                    self.phase = Phase::Stopped;
                    Reaction { event: Some(Event::Error(error)), next: Directive::Shutdown }
                },
                _ => Reaction { event: None, next: Directive::Wait },
            },
            Phase::Stopped => Reaction { event: None, next: Directive::Exit },
        }
    }
}

/// The bridge after it has answered the occurrences in order.
pub open spec fn bridge_after(s: BridgeState, occurrences: Seq<OccurrenceView>) -> BridgeState
    decreases occurrences.len(),
{
    if occurrences.len() == 0 {
        s
    } else {
        bridge_after(s, occurrences.drop_last()).react(occurrences.last()).state
    }
}

/// The bridge as it meets occurrence `k` of a run.
pub open spec fn bridge_at(s: BridgeState, occurrences: Seq<OccurrenceView>, k: int) -> BridgeState {
    bridge_after(s, occurrences.take(k))
}

/// The answer to occurrence `k` of a run.
pub open spec fn outcome_at(s: BridgeState, occurrences: Seq<OccurrenceView>, k: int) -> Outcome {
    bridge_at(s, occurrences, k).react(occurrences[k])
}

/// How far a bridge has come: it connects, then runs, then has stopped.
pub open spec fn progress(phase: Phase) -> int {
    match phase {
        Phase::Connecting => 0,
        Phase::Running => 1,
        Phase::Stopped => 2,
    }
}

/// The bridge after occurrence `k` is the state of the answer to it.
pub proof fn lemma_bridge_unfolds(s: BridgeState, occurrences: Seq<OccurrenceView>, k: int)
    requires
        0 <= k < occurrences.len(),
    ensures
        bridge_at(s, occurrences, k + 1) == outcome_at(s, occurrences, k).state,
        bridge_at(s, occurrences, 0) == s,
{
    assert(occurrences.take(k + 1).drop_last() =~= occurrences.take(k));
    assert(occurrences.take(k + 1).last() == occurrences[k]);
    assert(occurrences.take(0) =~= Seq::<OccurrenceView>::empty());
}

/// A bridge never goes back: no answer leads to an earlier phase. `Ready` is
/// the event of exactly the step from connecting to running, and an error
/// is the event of exactly the steps into the stopped phase.
pub proof fn law_bridge_moves_forward(s: BridgeState, occurrence: OccurrenceView)
    ensures
        ({
            let outcome = s.react(occurrence);
            &&& progress(s.phase) <= progress(outcome.state.phase)
            &&& outcome.event is Some && outcome.event->0 is Ready <==> s.phase is Connecting
                && outcome.state.phase is Running
            &&& outcome.event is Some && outcome.event->0 is Error <==> !(s.phase is Stopped)
                && outcome.state.phase is Stopped
            &&& outcome.event is Some && outcome.event->0 is Controller ==> s.phase is Running
                && occurrence is Sampled
            &&& outcome.next is Shutdown <==> s.phase is Running && outcome.state.phase is Stopped
            &&& outcome.next is Exit <==> outcome.state.phase is Stopped && !(s.phase is Running)
            &&& outcome.next is Wait <==> outcome.state.phase is Running
            &&& outcome.next is Connect <==> outcome.state.phase is Connecting
        }),
{
}

/// A session that cannot be opened ends the bridge: the failure is forwarded
/// as it came, there is no session to release, and `Ready` is not sent.
pub proof fn law_failed_open_is_reported(failure: Failure)
    ensures
        BridgeState::initial().react(OccurrenceView::OpenFailed(failure)) == (Outcome {
            state: BridgeState::initial().in_phase(Phase::Stopped),
            event: Some(EventView::Error(failure)),
            next: Directive::Exit,
        }),
{
}

/// A stopped bridge stays stopped and forwards nothing, whatever happens.
pub proof fn law_stopped_is_final(s: BridgeState, occurrence: OccurrenceView)
    requires
        s.phase is Stopped,
    ensures
        s.react(occurrence) == s.ignore(Directive::Exit),
{
}

/// A command touches the machine and is never answered with an event; one
/// that comes before the session is open, or after the bridge has stopped,
/// is not acted on.
pub proof fn law_commands_are_silent(s: BridgeState, message: Option<Message>)
    ensures
        ({
            let outcome = s.react(OccurrenceView::Received(message));
            &&& outcome.event is None
            &&& outcome.state.phase == s.phase
            &&& outcome.state.machine == if s.phase is Running && message is Some {
                s.machine.rebinding()
            } else {
                s.machine
            }
        }),
{
}

/// Over a run, the phase of a bridge only moves forward.
proof fn lemma_progress_is_monotonic(
    s: BridgeState,
    occurrences: Seq<OccurrenceView>,
    i: int,
    j: int,
)
    requires
        0 <= i <= j <= occurrences.len(),
    ensures
        progress(bridge_at(s, occurrences, i).phase) <= progress(bridge_at(s, occurrences, j).phase),
    decreases j - i,
{
    if i < j {
        lemma_progress_is_monotonic(s, occurrences, i, j - 1);
        lemma_bridge_unfolds(s, occurrences, j - 1);
        law_bridge_moves_forward(bridge_at(s, occurrences, j - 1), occurrences[j - 1]);
    }
}

/// In every run, nothing is forwarded after an error, and the loop is told
/// to end from then on.
pub proof fn law_error_is_the_last_event(
    s: BridgeState,
    occurrences: Seq<OccurrenceView>,
    i: int,
    j: int,
)
    requires
        0 <= i < j < occurrences.len(),
        outcome_at(s, occurrences, i).event is Some,
        outcome_at(s, occurrences, i).event->0 is Error,
    ensures
        outcome_at(s, occurrences, j).event is None,
        outcome_at(s, occurrences, j).next is Exit,
{
    lemma_bridge_unfolds(s, occurrences, i);
    law_bridge_moves_forward(bridge_at(s, occurrences, i), occurrences[i]);
    lemma_progress_is_monotonic(s, occurrences, i + 1, j);
}

/// In every run, `Ready` is forwarded at most once, and nothing of the
/// machine is forwarded before it.
pub proof fn law_ready_comes_once_and_first(
    s: BridgeState,
    occurrences: Seq<OccurrenceView>,
    i: int,
    j: int,
)
    requires
        0 <= i < j < occurrences.len(),
    ensures
        outcome_at(s, occurrences, i).event is Some && outcome_at(s, occurrences, i).event->0 is Ready
            ==> !(outcome_at(s, occurrences, j).event is Some && outcome_at(
            s,
            occurrences,
            j,
        ).event->0 is Ready),
        outcome_at(s, occurrences, j).event is Some && outcome_at(s, occurrences, j).event->0 is Ready
            ==> outcome_at(s, occurrences, i).event is None,
{
    lemma_bridge_unfolds(s, occurrences, i);
    law_bridge_moves_forward(bridge_at(s, occurrences, i), occurrences[i]);
    law_bridge_moves_forward(bridge_at(s, occurrences, j), occurrences[j]);
    lemma_progress_is_monotonic(s, occurrences, i + 1, j);
}

} // verus!
