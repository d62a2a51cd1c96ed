use vstd::prelude::*;

use crate::app::{App, AppView};
use crate::note::{Note, spec_note_name, spec_octave, spec_pitch_class};
use crate::presets::{InstrumentString, tuning_view};
use crate::text::signed_decimal;

verus! {

/// How a string's button is drawn on the string row.
#[derive(Debug, Clone, Copy, PartialEq, Eq, Structural)]
pub enum ButtonStyle {
    /// The selected string: boxed in green.
    Selected,
    /// The string nearest to the detected pitch, while a pitch is detected.
    Closest,
    /// Any other string.
    Plain,
}

/// The style of button `i` with `selected` chosen and `closest` the string
/// nearest to the pitch; `detecting` says whether a pitch is detected now.
pub open spec fn spec_button_style(i: int, selected: int, closest: Option<usize>, detecting: bool) -> ButtonStyle {
    if i == selected {
        ButtonStyle::Selected
    } else if closest == Some(i as usize) && detecting {
        ButtonStyle::Closest
    } else {
        ButtonStyle::Plain
    }
}

/// The text shown for the selected device: its name, or `No device` when
/// the index is not in the list.
pub open spec fn spec_device_label(s: AppView) -> Seq<char> {
    if s.selected_device < s.devices.len() {
        s.devices[s.selected_device as int]
    } else {
        seq!['N', 'o', ' ', 'd', 'e', 'v', 'i', 'c', 'e']
    }
}

/// A selector row's value: between arrows while the row is active.
pub open spec fn spec_bracketed(value: Seq<char>, active: bool) -> Seq<char> {
    if active {
        seq!['\u{25c0}', ' '] + value + seq![' ', '\u{25b6}']
    } else {
        value
    }
}

pub fn bracketed(value: &str, active: bool) -> (r: String)
    ensures
        r@ == spec_bracketed(value@, active),
{
    proof {
        reveal_strlit("\u{25c0} ");
        reveal_strlit(" \u{25b6}");
    }
    if active {
        let mut s = String::from_str("\u{25c0} ");
        s.append(value);
        s.append(" \u{25b6}");
        s
    } else {
        String::from_str(value)
    }
}

/// The text of a string's button: its label with a space on each side.
pub open spec fn spec_button_text(label: Seq<char>) -> Seq<char> {
    seq![' '] + label + seq![' ']
}

pub fn button_text(label: &str) -> (r: String)
    ensures
        r@ == spec_button_text(label@),
{
    proof {
        reveal_strlit(" ");
    }
    let mut s = String::from_str(" ");
    s.append(label);
    s.append(" ");
    s
}

/// The line naming the string nearest to the pitch, such as
/// `Nearest string: E (E2)`.
pub open spec fn spec_nearest_text(label: Seq<char>, midi: i32) -> Seq<char> {
    seq!['N', 'e', 'a', 'r', 'e', 's', 't', ' ', 's', 't', 'r', 'i', 'n', 'g', ':', ' '] + label
        + seq![' ', '('] + spec_note_name(spec_pitch_class(midi as int)) + signed_decimal(
        spec_octave(midi as int),
    ) + seq![')']
}

impl App {
    /// The text shown for the selected device.
    pub fn device_label(&self) -> (r: String)
        ensures
            r@ == spec_device_label(self@),
    {
        proof {
            reveal_strlit("No device");
        }
        if self.selected_device < self.devices.len() {
            self.devices[self.selected_device].name.clone()
        } else {
            String::from_str("No device")
        }
    }

    /// The style of each string's button, in the order of the strings;
    /// empty in free mode.
    pub fn string_buttons(&self, detecting: bool) -> (r: Vec<ButtonStyle>)
        ensures
            r@.len() == self.mode.string_count(),
            forall|i: int|
                0 <= i < r@.len() ==> #[trigger] r@[i] == spec_button_style(
                    i,
                    self.selected_string as int,
                    self.closest_string_index,
                    detecting,
                ),
    {
        let mut r: Vec<ButtonStyle> = Vec::new();
        if let Some(strings) = self.mode.strings() {
            assert(tuning_view(strings@).len() == strings@.len());
            let n = strings.len();
            let mut i: usize = 0;
            while i < n
                invariant
                    n == strings@.len(),
                    n == self.mode.string_count(),
                    i <= n,
                    r@.len() == i,
                    forall|j: int|
                        0 <= j < i ==> #[trigger] r@[j] == spec_button_style(
                            j,
                            self.selected_string as int,
                            self.closest_string_index,
                            detecting,
                        ),
                decreases n - i,
            {
                let style = if i == self.selected_string {
                    ButtonStyle::Selected
                } else if self.closest_string_index == Some(i) && detecting {
                    ButtonStyle::Closest
                } else {
                    ButtonStyle::Plain
                };
                r.push(style);
                i = i + 1;
            }
        }
        r
    }

    /// The note of the selected string, in instrument modes.
    pub fn target_note(&self) -> (r: Option<Note>)
        ensures
            r is Some <==> (self.mode.tuning() is Some && self.selected_string
                < self.mode.string_count()),
            r matches Some(n) ==> ({
                let midi = self.mode.tuning().unwrap()[self.selected_string as int].1;
                &&& n.midi_number == midi
                &&& n.name@ == spec_note_name(spec_pitch_class(midi as int))
                &&& n.octave == spec_octave(midi as int)
            }),
    {
        match self.mode.strings() {
            None => None,
            Some(strings) => {
                assert(tuning_view(strings@).len() == strings@.len());
                if self.selected_string < strings.len() {
                    let s: InstrumentString = strings[self.selected_string];
                    assert(tuning_view(strings@)[self.selected_string as int] == s.view());
                    Some(Note::from_midi(s.midi))
                } else {
                    None
                }
            },
        }
    }

    /// The line naming the string nearest to the detected pitch, when the
    /// mode has strings and one of them is the nearest.
    pub fn nearest_string_text(&self) -> (r: Option<String>)
        ensures
            r is Some <==> (self.mode.tuning() is Some && self.closest_string_index is Some
                && self.closest_string_index.unwrap() < self.mode.string_count()),
            r matches Some(t) ==> ({
                let i = self.closest_string_index.unwrap() as int;
                let s = self.mode.tuning().unwrap()[i];
                t@ == spec_nearest_text(s.0, s.1)
            }),
    {
        proof {
            reveal_strlit("Nearest string: ");
            reveal_strlit(" (");
            reveal_strlit(")");
        }
        match self.mode.strings() {
            None => None,
            Some(strings) => {
                assert(tuning_view(strings@).len() == strings@.len());
                match self.closest_string_index {
                    None => None,
                    Some(idx) => {
                        if idx < strings.len() {
                            let s: InstrumentString = strings[idx];
                            assert(tuning_view(strings@)[idx as int] == s.view());
                            let note = Note::from_midi(s.midi);
                            let mut t = String::from_str("Nearest string: ");
                            t.append(s.label);
                            t.append(" (");
                            let name = note.display_name();
                            t.append(name.as_str());
                            t.append(")");
                            Some(t)
                        } else {
                            None
                        }
                    },
                }
            },
        }
    }
}

} // verus!

verus! {

/// The device label names the selected device: after switching to any
/// listed device, the label is that device's name.
pub proof fn lemma_device_label_names_selected(s: AppView, i: usize, channels: u16)
    requires
        i < s.devices.len(),
    ensures
        spec_device_label(s.selected(i, channels)) == s.devices[i as int],
        s.selected_device < s.devices.len() ==> spec_device_label(s) == s.devices[s.selected_device as int],
{
}

} // verus!
