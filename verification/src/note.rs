use vstd::prelude::*;

use crate::text::{push_signed_decimal, signed_decimal};

verus! {

/// The name of the pitch class `index` (0 = C, ..., 11 = B), sharps for the
/// black keys.
pub open spec fn spec_note_name(index: int) -> Seq<char> {
    if index == 0 {
        seq!['C']
    } else if index == 1 {
        seq!['C', '#']
    } else if index == 2 {
        seq!['D']
    } else if index == 3 {
        seq!['D', '#']
    } else if index == 4 {
        seq!['E']
    } else if index == 5 {
        seq!['F']
    } else if index == 6 {
        seq!['F', '#']
    } else if index == 7 {
        seq!['G']
    } else if index == 8 {
        seq!['G', '#']
    } else if index == 9 {
        seq!['A']
    } else if index == 10 {
        seq!['A', '#']
    } else {
        seq!['B']
    }
}

/// Integer division that rounds toward zero, as Rust's `/` does.
pub open spec fn div_toward_zero(a: int, b: int) -> int
    recommends
        b > 0,
{
    if a >= 0 {
        a / b
    } else {
        -((-a) / b)
    }
}

/// The pitch class of a MIDI note: 0 for C up to 11 for B, also for
/// negative note numbers.
pub open spec fn spec_pitch_class(midi: int) -> int {
    midi % 12
}

/// The octave of a MIDI note in scientific pitch notation: the MIDI
/// number divided by 12 (rounded toward zero), minus one, so that note 60
/// is C4.
pub open spec fn spec_octave(midi: int) -> int {
    div_toward_zero(midi, 12) - 1
}

/// The name of a pitch class.
pub fn note_name(index: usize) -> (r: &'static str)
    requires
        index < 12,
    ensures
        r@ == spec_note_name(index as int),
{
    proof {
        reveal_strlit("C");
        reveal_strlit("C#");
        reveal_strlit("D");
        reveal_strlit("D#");
        reveal_strlit("E");
        reveal_strlit("F");
        reveal_strlit("F#");
        reveal_strlit("G");
        reveal_strlit("G#");
        reveal_strlit("A");
        reveal_strlit("A#");
        reveal_strlit("B");
    }
    if index == 0 {
        "C"
    } else if index == 1 {
        "C#"
    } else if index == 2 {
        "D"
    } else if index == 3 {
        "D#"
    } else if index == 4 {
        "E"
    } else if index == 5 {
        "F"
    } else if index == 6 {
        "F#"
    } else if index == 7 {
        "G"
    } else if index == 8 {
        "G#"
    } else if index == 9 {
        "A"
    } else if index == 10 {
        "A#"
    } else {
        "B"
    }
}

/// The pitch class of a MIDI note, `((midi % 12) + 12) % 12`.
pub fn pitch_class(midi: i32) -> (r: usize)
    ensures
        r == spec_pitch_class(midi as int),
        r < 12,
{
    let m: i64 = midi as i64 + 2147483652i64;  // 12 * 178956971, which makes it non-negative
    assert(m == midi + 12 * 178956971);
    assert((midi + 12 * 178956971) % 12 == midi % 12) by {
        vstd::arithmetic::div_mod::lemma_mod_multiples_vanish(178956971, midi as int, 12);
    }
    (m % 12) as usize
}

/// The octave number of a MIDI note.
pub fn octave(midi: i32) -> (r: i32)
    ensures
        r == spec_octave(midi as int),
{
    if midi >= 0 {
        midi / 12 - 1
    } else {
        let q: i32 = (-(midi as i64) / 12) as i32;
        -q - 1
    }
}

/// A named note: its pitch-class name, octave and MIDI number.
#[derive(Debug, Clone)]
pub struct Note {
    pub name: String,
    pub octave: i32,
    pub midi_number: i32,
}

impl Note {
    /// The note of a MIDI number, named after its pitch class and octave.
    pub fn from_midi(midi: i32) -> (r: Note)
        ensures
            r.name@ == spec_note_name(spec_pitch_class(midi as int)),
            r.octave == spec_octave(midi as int),
            r.midi_number == midi,
    {
        let index = pitch_class(midi);
        let name = String::from_str(note_name(index));
        Note { name, octave: octave(midi), midi_number: midi }
    }

    /// The name followed by the octave, such as `C#4` or `B-1`.
    pub open spec fn spec_display_name(&self) -> Seq<char> {
        self.name@ + signed_decimal(self.octave as int)
    }

    pub fn display_name(&self) -> (r: String)
        ensures
            r@ == self.spec_display_name(),
    {
        let mut s = self.name.clone();
        push_signed_decimal(&mut s, self.octave as i64);
        s
    }
}

/// A note's octave and pitch class give back its MIDI number, for every
/// note number from 0 up (below 0 the octave is rounded toward zero, so
/// the numbering does not go back).
pub proof fn lemma_note_numbering(midi: int)
    requires
        midi >= 0,
    ensures
        0 <= spec_pitch_class(midi) < 12,
        12 * (spec_octave(midi) + 1) + spec_pitch_class(midi) == midi,
{
    vstd::arithmetic::div_mod::lemma_fundamental_div_mod(midi, 12);
}

/// Marker type for the search of the note nearest to a frequency. The
/// search works on floating point and is not part of this library; it names
/// the note it finds with `Note::from_midi`.
pub struct NoteDetection;

} // verus!
