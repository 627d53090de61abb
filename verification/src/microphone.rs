//! Microphones as the consumer knows them, and the choice among them.

use vstd::prelude::*;

verus! {

/// One active input device, as the operating system described it.
#[derive(Debug, Clone)]
pub struct Microphone {
    /// The device's identifier.
    pub id: String,
    /// The device's display name.
    pub name: String,
    /// Whether the device is muted.
    pub muted: bool,
}

/// Whether `pattern` stands somewhere in `text`.
pub open spec fn occurs_in(pattern: Seq<char>, text: Seq<char>) -> bool {
    exists|i: int|
        0 <= i && i + pattern.len() <= text.len() && #[trigger] text.subrange(
            i,
            i + pattern.len(),
        ) == pattern
}

/// Whether a microphone is the one of a headset, going by its name.
pub open spec fn is_headset(mic: Microphone) -> bool {
    occurs_in("Headset Microphone"@, mic.name@)
}

/// Whether `index` is the microphone to start with: the first of a headset,
/// and the first of all where none is of a headset.
pub open spec fn is_preferred(mics: Seq<Microphone>, index: int) -> bool {
    &&& 0 <= index < mics.len()
    &&& forall|j: int| 0 <= j < index ==> !is_headset(#[trigger] mics[j])
    &&& is_headset(mics[index]) || (index == 0 && forall|j: int|
        0 <= j < mics.len() ==> !is_headset(#[trigger] mics[j]))
}

/// Whether `index` is the first microphone with the given name.
pub open spec fn is_first_named(mics: Seq<Microphone>, name: Seq<char>, index: int) -> bool {
    &&& 0 <= index < mics.len()
    &&& mics[index].name@ == name
    &&& forall|j: int| 0 <= j < index ==> (#[trigger] mics[j]).name@ != name
}

/// `str::contains` of std with a string as the pattern: whether the pattern
/// matches a part of the text.
#[verifier::external_body]
fn str_contains(text: &str, pattern: &str) -> (found: bool)
    ensures
        found == occurs_in(pattern@, text@),
{
    text.contains(pattern)
}

impl Microphone {
    /// A copy of this microphone.
    pub fn duplicate(&self) -> (copy: Microphone)
        ensures
            copy == *self,
    {
        Microphone { id: self.id.clone(), name: self.name.clone(), muted: self.muted }
    }

    /// Whether the name says that this is the microphone of a headset.
    pub fn is_headset_microphone(&self) -> (found: bool)
        ensures
            found == is_headset(*self),
    {
        str_contains(self.name.as_str(), "Headset Microphone")
    }
}

/// Picks the microphone to start with.
pub fn preferred_microphone(mics: &Vec<Microphone>) -> (index: usize)
    requires
        mics@.len() > 0,
    ensures
        is_preferred(mics@, index as int),
{
    let mut i: usize = 0;
    while i < mics.len()
        invariant
            i <= mics@.len(),
            forall|j: int| 0 <= j < i ==> !is_headset(#[trigger] mics@[j]),
        decreases mics@.len() - i,
    {
        if mics[i].is_headset_microphone() {
            return i;
        }
        i += 1;
    }
    0
}

/// Finds the first microphone with the given name.
pub fn find_microphone(mics: &Vec<Microphone>, name: &String) -> (found: Option<usize>)
    ensures
        match found {
            Some(index) => is_first_named(mics@, name@, index as int),
            None => forall|j: int| 0 <= j < mics@.len() ==> (#[trigger] mics@[j]).name@ != name@,
        },
{
    let mut i: usize = 0;
    while i < mics.len()
        invariant
            i <= mics@.len(),
            forall|j: int| 0 <= j < i ==> (#[trigger] mics@[j]).name@ != name@,
        decreases mics@.len() - i,
    {
        if mics[i].name == *name {
            return Some(i);
        }
        i += 1;
    }
    None
}

/// The display names of the microphones, in their order.
pub fn microphone_names(mics: &Vec<Microphone>) -> (names: Vec<String>)
    ensures
        names@.len() == mics@.len(),
        forall|j: int| 0 <= j < mics@.len() ==> #[trigger] names@[j] == mics@[j].name,
{
    let mut names: Vec<String> = Vec::new();
    let mut i: usize = 0;
    while i < mics.len()
        invariant
            i <= mics@.len(),
            names@.len() == i,
            forall|j: int| 0 <= j < i ==> #[trigger] names@[j] == mics@[j].name,
        decreases mics@.len() - i,
    {
        names.push(mics[i].name.clone());
        i += 1;
    }
    names
}

} // verus!
