//! The display text of a chord.

use crate::input::{
    Binding, BUTTON_A, BUTTON_B, BUTTON_L_THUMB, BUTTON_MENU, BUTTON_R_THUMB, BUTTON_X, BUTTON_Y,
    L_HAND_TRIGGER, L_INDEX_TRIGGER, R_HAND_TRIGGER, R_INDEX_TRIGGER,
};
use vstd::prelude::*;
use vstd::string::*;

verus! {

/// The text between two input names.
pub open spec fn separator() -> Seq<char> {
    " + "@
}

/// The list that holds `name` if the input is present, and nothing if not.
#[verifier::opaque]
pub open spec fn named(present: bool, name: Seq<char>) -> Seq<Seq<char>> {
    if present {
        seq![name]
    } else {
        Seq::empty()
    }
}

/// The names of the inputs of a chord, in display order: the triggers first,
/// then the buttons, each group in its fixed order.
pub open spec fn names(binding: Binding) -> Seq<Seq<char>> {
    named(binding.triggers & L_INDEX_TRIGGER != 0, "L Index Trigger"@) + named(
        binding.triggers & R_INDEX_TRIGGER != 0,
        "R Index Trigger"@,
    ) + named(binding.triggers & L_HAND_TRIGGER != 0, "L Hand Trigger"@) + named(
        binding.triggers & R_HAND_TRIGGER != 0,
        "R Hand Trigger"@,
    ) + named(binding.buttons & BUTTON_A != 0, "A"@) + named(binding.buttons & BUTTON_B != 0, "B"@)
        + named(binding.buttons & BUTTON_X != 0, "X"@) + named(
        binding.buttons & BUTTON_Y != 0,
        "Y"@,
    ) + named(binding.buttons & BUTTON_L_THUMB != 0, "L Thumb"@) + named(
        binding.buttons & BUTTON_R_THUMB != 0,
        "R Thumb"@,
    ) + named(binding.buttons & BUTTON_MENU != 0, "Menu"@)
}

/// The parts written one after another with the separator between each two.
pub open spec fn join(parts: Seq<Seq<char>>) -> Seq<char>
    decreases parts.len(),
{
    if parts.len() == 0 {
        Seq::empty()
    } else if parts.len() == 1 {
        parts[0]
    } else {
        join(parts.drop_last()) + separator() + parts.last()
    }
}

/// The display text of a chord: the names of its inputs joined by `" + "`,
/// and the empty text for the empty chord.
pub open spec fn render(binding: Binding) -> Seq<char> {
    join(names(binding))
}

/// Appends one name to a text that holds the join of `parts`, if the input is
/// present.
fn push_name(output: &mut String, present: bool, name: &str, Ghost(parts): Ghost<Seq<Seq<char>>>)
    requires
        old(output)@ == join(parts),
        name@.len() > 0,
        parts.len() == 0 <==> old(output)@.len() == 0,
    ensures
        final(output)@ == join(parts + named(present, name@)),
        (parts + named(present, name@)).len() == 0 <==> final(output)@.len() == 0,
{
    reveal(named);
    if present {
        let ghost longer = parts.push(name@);
        assert(parts + named(present, name@) =~= longer);
        assert(longer.drop_last() =~= parts);
        if output.as_str().is_empty() {
            output.append(name);
            assert(output@ =~= name@);
        } else {
            output.append(" + ");
            output.append(name);
            assert(output@ =~= join(parts) + separator() + name@);
        }
    } else {
        assert(parts + named(present, name@) =~= parts);
    }
}

/// No input name is the empty text.
proof fn lemma_names_are_not_empty()
    ensures
        "L Index Trigger"@.len() > 0,
        "R Index Trigger"@.len() > 0,
        "L Hand Trigger"@.len() > 0,
        "R Hand Trigger"@.len() > 0,
        "A"@.len() > 0,
        "B"@.len() > 0,
        "X"@.len() > 0,
        "Y"@.len() > 0,
        "L Thumb"@.len() > 0,
        "R Thumb"@.len() > 0,
        "Menu"@.len() > 0,
{
    reveal_strlit("L Index Trigger");
    reveal_strlit("R Index Trigger");
    reveal_strlit("L Hand Trigger");
    reveal_strlit("R Hand Trigger");
    reveal_strlit("A");
    reveal_strlit("B");
    reveal_strlit("X");
    reveal_strlit("Y");
    reveal_strlit("L Thumb");
    reveal_strlit("R Thumb");
    reveal_strlit("Menu");
}

/// Renders a chord as its display text.
pub fn render_binding(binding: Binding) -> (output: String)
    ensures
        output@ == render(binding),
{
    let mut output = String::new();
    proof {
        lemma_names_are_not_empty();
    }
    let ghost shown0: Seq<Seq<char>> = Seq::empty();
    push_name(&mut output, binding.triggers & L_INDEX_TRIGGER != 0, "L Index Trigger", Ghost(shown0));
    let ghost shown1 = named(binding.triggers & L_INDEX_TRIGGER != 0, "L Index Trigger"@);
    assert(shown0 + shown1 =~= shown1);
    push_name(&mut output, binding.triggers & R_INDEX_TRIGGER != 0, "R Index Trigger", Ghost(shown1));
    let ghost shown2 = shown1 + named(binding.triggers & R_INDEX_TRIGGER != 0, "R Index Trigger"@);
    push_name(&mut output, binding.triggers & L_HAND_TRIGGER != 0, "L Hand Trigger", Ghost(shown2));
    let ghost shown3 = shown2 + named(binding.triggers & L_HAND_TRIGGER != 0, "L Hand Trigger"@);
    push_name(&mut output, binding.triggers & R_HAND_TRIGGER != 0, "R Hand Trigger", Ghost(shown3));
    let ghost shown4 = shown3 + named(binding.triggers & R_HAND_TRIGGER != 0, "R Hand Trigger"@);
    push_name(&mut output, binding.buttons & BUTTON_A != 0, "A", Ghost(shown4));
    let ghost shown5 = shown4 + named(binding.buttons & BUTTON_A != 0, "A"@);
    push_name(&mut output, binding.buttons & BUTTON_B != 0, "B", Ghost(shown5));
    let ghost shown6 = shown5 + named(binding.buttons & BUTTON_B != 0, "B"@);
    push_name(&mut output, binding.buttons & BUTTON_X != 0, "X", Ghost(shown6));
    let ghost shown7 = shown6 + named(binding.buttons & BUTTON_X != 0, "X"@);
    push_name(&mut output, binding.buttons & BUTTON_Y != 0, "Y", Ghost(shown7));
    let ghost shown8 = shown7 + named(binding.buttons & BUTTON_Y != 0, "Y"@);
    push_name(&mut output, binding.buttons & BUTTON_L_THUMB != 0, "L Thumb", Ghost(shown8));
    let ghost shown9 = shown8 + named(binding.buttons & BUTTON_L_THUMB != 0, "L Thumb"@);
    push_name(&mut output, binding.buttons & BUTTON_R_THUMB != 0, "R Thumb", Ghost(shown9));
    let ghost shown10 = shown9 + named(binding.buttons & BUTTON_R_THUMB != 0, "R Thumb"@);
    push_name(&mut output, binding.buttons & BUTTON_MENU != 0, "Menu", Ghost(shown10));
    output
}

/// Rendering is stable: two texts that both render one chord are the same
/// text.
pub proof fn law_render_is_stable(binding: Binding, first: String, second: String)
    requires
        first@ == render(binding),
        second@ == render(binding),
    ensures
        first@ == second@,
{
}

} // verus!
