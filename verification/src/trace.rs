//! Runs of the binding machine, and what holds of every run.

use crate::input::RawSample;
use crate::ovr::{MachineState, Signal};
use crate::render::render;
use vstd::prelude::*;

verus! {

/// One thing that is handed to the machine: the sample of a tick, or the
/// request to rebind.
pub enum MachineInput {
    /// The sample of one tick.
    Sample(RawSample),
    /// The request to start a learning session.
    StartRebind,
}

/// Whether the sample of a tick satisfies the chord of the state.
pub open spec fn holds_chord(s: MachineState, sample: RawSample) -> bool {
    s.binding.held_by(sample.buttons, sample.trigger_mask())
}

/// The machine's move on one input. A request to rebind yields no event.
pub open spec fn advance(s: MachineState, input: MachineInput) -> (MachineState, Option<Signal>) {
    match input {
        MachineInput::Sample(sample) => s.step(sample),
        MachineInput::StartRebind => (s.rebinding(), None),
    }
}

/// The state that the machine is in after it has taken the inputs in order.
pub open spec fn state_after(s: MachineState, inputs: Seq<MachineInput>) -> MachineState
    decreases inputs.len(),
{
    if inputs.len() == 0 {
        s
    } else {
        advance(state_after(s, inputs.drop_last()), inputs.last()).0
    }
}

/// The state in which the machine meets input `k` of a run.
pub open spec fn state_at(s: MachineState, inputs: Seq<MachineInput>, k: int) -> MachineState {
    state_after(s, inputs.take(k))
}

/// The event that input `k` of a run yields.
pub open spec fn event_at(s: MachineState, inputs: Seq<MachineInput>, k: int) -> Option<Signal> {
    advance(state_at(s, inputs, k), inputs[k]).1
}

/// The state after input `k` is the move from the state before it.
pub proof fn lemma_state_unfolds(s: MachineState, inputs: Seq<MachineInput>, k: int)
    requires
        0 <= k < inputs.len(),
    ensures
        state_at(s, inputs, k + 1) == advance(state_at(s, inputs, k), inputs[k]).0,
        state_at(s, inputs, 0) == s,
{
    assert(inputs.take(k + 1).drop_last() =~= inputs.take(k));
    assert(inputs.take(k + 1).last() == inputs[k]);
    assert(inputs.take(0) =~= Seq::<MachineInput>::empty());
}

/// A well-formed machine stays well formed, whatever it is handed.
pub proof fn law_wf_is_kept(s: MachineState, input: MachineInput)
    requires
        s.wf(),
    ensures
        advance(s, input).0.wf(),
{
}

/// While monitoring, a tick yields `Pressed` when the chord is held and was
/// not, `Released` when it was held and is not, and nothing otherwise; the
/// chord and the mode stay as they are.
pub proof fn law_monitoring_detects_edges(s: MachineState, sample: RawSample)
    requires
        !s.learning,
    ensures
        ({
            let (next, event) = s.step(sample);
            &&& next.binding == s.binding
            &&& !next.learning
            &&& next.pressed == holds_chord(s, sample)
            &&& event == Some(Signal::Pressed) <==> holds_chord(s, sample) && !s.pressed
            &&& event == Some(Signal::Released) <==> !holds_chord(s, sample) && s.pressed
            &&& event is None <==> holds_chord(s, sample) == s.pressed
        }),
{
}

/// An idle, unpressed machine that is handed samples which do not hold the
/// chord, and then one which does, is silent on each of the former and
/// yields `Pressed` on the latter.
pub proof fn law_first_press(s: MachineState, inputs: Seq<MachineInput>, k: int)
    requires
        !s.learning,
        !s.pressed,
        0 <= k < inputs.len(),
        forall|i: int|
            0 <= i < k ==> (#[trigger] inputs[i] matches MachineInput::Sample(sample)
                && !holds_chord(s, sample)),
        inputs[k] matches MachineInput::Sample(sample) && holds_chord(s, sample),
    ensures
        forall|i: int| 0 <= i < k ==> #[trigger] event_at(s, inputs, i) is None,
        event_at(s, inputs, k) == Some(Signal::Pressed),
        forall|i: int| 0 <= i <= k ==> #[trigger] state_at(s, inputs, i) == s,
{
    lemma_silent_prefix(s, inputs, k);
}

/// The induction behind `law_first_press`.
proof fn lemma_silent_prefix(s: MachineState, inputs: Seq<MachineInput>, k: int)
    requires
        !s.learning,
        !s.pressed,
        0 <= k < inputs.len(),
        forall|i: int|
            0 <= i < k ==> (#[trigger] inputs[i] matches MachineInput::Sample(sample)
                && !holds_chord(s, sample)),
    ensures
        forall|i: int| 0 <= i < k ==> #[trigger] event_at(s, inputs, i) is None,
        forall|i: int| 0 <= i <= k ==> #[trigger] state_at(s, inputs, i) == s,
    decreases k,
{
    lemma_state_unfolds(s, inputs, 0);
    if k > 0 {
        lemma_silent_prefix(s, inputs, k - 1);
        lemma_state_unfolds(s, inputs, k - 1);
        assert(state_at(s, inputs, k - 1) == s);
        assert(inputs[k - 1] matches MachineInput::Sample(sample) && !holds_chord(s, sample));
        assert(event_at(s, inputs, k - 1) is None);
        assert(state_at(s, inputs, k) == s);
        assert forall|i: int| 0 <= i < k implies #[trigger] event_at(s, inputs, i) is None by {
            if i < k - 1 {
            }
        }
        assert forall|i: int| 0 <= i <= k implies #[trigger] state_at(s, inputs, i) == s by {
            if i < k {
            }
        }
    }
}

/// The activation state changes only with a `Pressed` or a `Released`:
/// `Pressed` comes from an unpressed machine and leaves it pressed,
/// `Released` comes from a pressed one and leaves it unpressed, and every
/// other move leaves the activation state as it was.
pub proof fn law_events_follow_activation(s: MachineState, input: MachineInput)
    ensures
        ({
            let (next, event) = advance(s, input);
            &&& event == Some(Signal::Pressed) ==> !s.pressed && next.pressed
            &&& event == Some(Signal::Released) ==> s.pressed && !next.pressed
            &&& event != Some(Signal::Pressed) && event != Some(Signal::Released) ==> next.pressed
                == s.pressed
        }),
{
}

/// With no `Released` from input `i` up to input `j`, a machine that is
/// pressed at `i` is pressed at `j`.
proof fn lemma_pressed_persists(s: MachineState, inputs: Seq<MachineInput>, i: int, j: int)
    requires
        0 <= i <= j <= inputs.len(),
        state_at(s, inputs, i).pressed,
        forall|m: int| i <= m < j ==> #[trigger] event_at(s, inputs, m) != Some(Signal::Released),
    ensures
        state_at(s, inputs, j).pressed,
    decreases j - i,
{
    if i < j {
        lemma_pressed_persists(s, inputs, i, j - 1);
        lemma_state_unfolds(s, inputs, j - 1);
        law_events_follow_activation(state_at(s, inputs, j - 1), inputs[j - 1]);
        assert(event_at(s, inputs, j - 1) != Some(Signal::Released));
    }
}

/// With no `Pressed` from input `i` up to input `j`, a machine that is
/// unpressed at `i` is unpressed at `j`.
proof fn lemma_unpressed_persists(s: MachineState, inputs: Seq<MachineInput>, i: int, j: int)
    requires
        0 <= i <= j <= inputs.len(),
        !state_at(s, inputs, i).pressed,
        forall|m: int| i <= m < j ==> #[trigger] event_at(s, inputs, m) != Some(Signal::Pressed),
    ensures
        !state_at(s, inputs, j).pressed,
    decreases j - i,
{
    if i < j {
        lemma_unpressed_persists(s, inputs, i, j - 1);
        lemma_state_unfolds(s, inputs, j - 1);
        law_events_follow_activation(state_at(s, inputs, j - 1), inputs[j - 1]);
        assert(event_at(s, inputs, j - 1) != Some(Signal::Pressed));
    }
}

/// `Pressed` and `Released` alternate: in every run, from any state, between
/// two `Pressed` there is a `Released`, and between two `Released` there is
/// a `Pressed`.
pub proof fn law_press_and_release_alternate(
    s: MachineState,
    inputs: Seq<MachineInput>,
    i: int,
    j: int,
)
    requires
        0 <= i < j < inputs.len(),
    ensures
        event_at(s, inputs, i) == Some(Signal::Pressed) && event_at(s, inputs, j) == Some(
            Signal::Pressed,
        ) ==> exists|m: int| i < m < j && #[trigger] event_at(s, inputs, m) == Some(Signal::Released),
        event_at(s, inputs, i) == Some(Signal::Released) && event_at(s, inputs, j) == Some(
            Signal::Released,
        ) ==> exists|m: int| i < m < j && #[trigger] event_at(s, inputs, m) == Some(Signal::Pressed),
{
    lemma_state_unfolds(s, inputs, i);
    law_events_follow_activation(state_at(s, inputs, i), inputs[i]);
    law_events_follow_activation(state_at(s, inputs, j), inputs[j]);
    if event_at(s, inputs, i) == Some(Signal::Pressed) && event_at(s, inputs, j) == Some(
        Signal::Pressed,
    ) {
        if !(exists|m: int| i < m < j && #[trigger] event_at(s, inputs, m) == Some(Signal::Released)) {
            lemma_pressed_persists(s, inputs, i + 1, j);
            assert(false);
        }
    }
    if event_at(s, inputs, i) == Some(Signal::Released) && event_at(s, inputs, j) == Some(
        Signal::Released,
    ) {
        if !(exists|m: int| i < m < j && #[trigger] event_at(s, inputs, m) == Some(Signal::Pressed)) {
            lemma_unpressed_persists(s, inputs, i + 1, j);
            assert(false);
        }
    }
}

/// While learning, a tick adds the held inputs to the chord and takes none
/// away, and `BindingUpdate` is the event of exactly those ticks on which
/// the chord grew; its text shows the grown chord.
pub proof fn law_learning_accumulates(s: MachineState, sample: RawSample)
    requires
        s.learning,
    ensures
        ({
            let (next, event) = s.step(sample);
            &&& next.binding == s.binding.absorb(sample.buttons, sample.trigger_mask())
            &&& next.binding.includes(s.binding)
            &&& event is Some && event->0 is BindingUpdate <==> next.binding != s.binding
            &&& next.binding != s.binding ==> event == Some(
                Signal::BindingUpdate(render(next.binding)),
            ) && next.learning
        }),
{
    let b = s.binding.buttons;
    let t = s.binding.triggers;
    let x = sample.buttons;
    let y = sample.trigger_mask();
    assert((b | x) & b == b) by (bit_vector);
    assert((t | y) & t == t) by (bit_vector);
}

/// No move but a request to rebind takes an input out of the chord.
pub proof fn law_chord_never_shrinks(s: MachineState, sample: RawSample)
    ensures
        s.step(sample).0.binding.includes(s.binding),
{
    let b = s.binding.buttons;
    let t = s.binding.triggers;
    let x = sample.buttons;
    let y = sample.trigger_mask();
    assert((b | x) & b == b) by (bit_vector);
    assert((t | y) & t == t) by (bit_vector);
    assert(b & b == b) by (bit_vector);
    assert(t & t == t) by (bit_vector);
}

/// Over a stretch of a run that holds samples only, the chord at its end
/// includes the chord at its start.
pub proof fn law_chord_grows_over_samples(
    s: MachineState,
    inputs: Seq<MachineInput>,
    i: int,
    j: int,
)
    requires
        0 <= i <= j <= inputs.len(),
        forall|m: int| i <= m < j ==> #[trigger] inputs[m] is Sample,
    ensures
        state_at(s, inputs, j).binding.includes(state_at(s, inputs, i).binding),
    decreases j - i,
{
    let first = state_at(s, inputs, i).binding;
    if i < j {
        law_chord_grows_over_samples(s, inputs, i, j - 1);
        lemma_state_unfolds(s, inputs, j - 1);
        assert(inputs[j - 1] is Sample);
        law_chord_never_shrinks(state_at(s, inputs, j - 1), inputs[j - 1]->Sample_0);
        let middle = state_at(s, inputs, j - 1).binding;
        let last = state_at(s, inputs, j).binding;
        let (a, b, c) = (first.buttons, middle.buttons, last.buttons);
        let (d, e, f) = (first.triggers, middle.triggers, last.triggers);
        assert(b & a == a && c & b == b ==> c & a == a) by (bit_vector);
        assert(e & d == d && f & e == e ==> f & d == d) by (bit_vector);
    } else {
        let (a, d) = (first.buttons, first.triggers);
        assert(a & a == a) by (bit_vector);
        assert(d & d == d) by (bit_vector);
    }
}

/// `BindingSet` is the event of exactly those moves that end a learning
/// session. It comes only for a chord that is not empty, that this tick did
/// not enlarge, and of which no input is held any more; its text shows that
/// chord, which is monitored from then on.
pub proof fn law_binding_set_ends_learning(s: MachineState, input: MachineInput)
    ensures
        ({
            let (next, event) = advance(s, input);
            &&& event is Some && event->0 is BindingSet <==> s.learning && !next.learning
            &&& s.learning && !next.learning ==> {
                &&& input matches MachineInput::Sample(sample) && next.binding.released_by(
                    sample.buttons,
                    sample.trigger_mask(),
                )
                &&& !next.binding.is_empty()
                &&& next.binding == s.binding
                &&& event == Some(Signal::BindingSet(render(next.binding)))
            }
            &&& !s.learning && next.learning <==> !s.learning && input is StartRebind
        }),
{
}

/// With no request to rebind from input `i` up to input `j`, a machine that
/// is monitoring at `i` is monitoring at `j`.
proof fn lemma_monitoring_persists(s: MachineState, inputs: Seq<MachineInput>, i: int, j: int)
    requires
        0 <= i <= j <= inputs.len(),
        !state_at(s, inputs, i).learning,
        forall|m: int| i <= m < j ==> !(#[trigger] inputs[m] is StartRebind),
    ensures
        !state_at(s, inputs, j).learning,
    decreases j - i,
{
    if i < j {
        lemma_monitoring_persists(s, inputs, i, j - 1);
        lemma_state_unfolds(s, inputs, j - 1);
        assert(!(inputs[j - 1] is StartRebind));
    }
}

/// `BindingSet` comes once for each learning session: between two of them in
/// a run lies a request to rebind.
pub proof fn law_binding_set_once_per_session(
    s: MachineState,
    inputs: Seq<MachineInput>,
    i: int,
    j: int,
)
    requires
        0 <= i < j < inputs.len(),
        event_at(s, inputs, i) is Some && event_at(s, inputs, i)->0 is BindingSet,
        event_at(s, inputs, j) is Some && event_at(s, inputs, j)->0 is BindingSet,
    ensures
        exists|m: int| i < m < j && #[trigger] inputs[m] is StartRebind,
{
    lemma_state_unfolds(s, inputs, i);
    law_binding_set_ends_learning(state_at(s, inputs, i), inputs[i]);
    law_binding_set_ends_learning(state_at(s, inputs, j), inputs[j]);
    if !(exists|m: int| i < m < j && #[trigger] inputs[m] is StartRebind) {
        lemma_monitoring_persists(s, inputs, i + 1, j);
        assert(false);
    }
}

/// A learning session that is handed samples only, none of which holds any
/// input, never ends and never yields an event.
pub proof fn law_learning_waits_for_input(s: MachineState, sample: RawSample)
    requires
        s.learning,
        s.binding.is_empty(),
        sample.buttons == 0,
        sample.trigger_mask() == 0,
    ensures
        s.step(sample) == (s, None::<Signal>),
{
    assert(0u32 | 0u32 == 0u32) by (bit_vector);
    assert(0u8 | 0u8 == 0u8) by (bit_vector);
}

} // verus!
