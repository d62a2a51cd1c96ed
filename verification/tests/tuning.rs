use tuner::note::{note_name, octave, pitch_class, Note};
use tuner::presets::{closest_string_index, guitar_strings, mandolin_strings, DISTANCE_KEY_LIMIT};

#[test]
fn mandolin_standard_tuning() {
    let s = mandolin_strings();
    let got: Vec<(&str, i32)> = s.iter().map(|x| (x.label, x.midi)).collect();
    assert_eq!(got, vec![("G", 55), ("D", 62), ("A", 69), ("E", 76)]);
}

#[test]
fn guitar_standard_tuning() {
    let s = guitar_strings();
    let got: Vec<(&str, i32)> = s.iter().map(|x| (x.label, x.midi)).collect();
    assert_eq!(
        got,
        vec![("E", 40), ("A", 45), ("D", 50), ("G", 55), ("B", 59), ("E", 64)]
    );
}

#[test]
fn presets_ordered_low_to_high() {
    for strings in [mandolin_strings(), guitar_strings()] {
        for w in strings.windows(2) {
            assert!(w[0].midi < w[1].midi);
        }
    }
}

#[test]
fn pitch_class_and_octave() {
    assert_eq!(pitch_class(69), 9);
    assert_eq!(octave(69), 4);
    assert_eq!(pitch_class(60), 0);
    assert_eq!(octave(60), 4);
    assert_eq!(pitch_class(59), 11);
    assert_eq!(octave(59), 3);
    assert_eq!(pitch_class(0), 0);
    assert_eq!(octave(0), -1);
    // negative note numbers: the class wraps, the octave division rounds toward zero
    assert_eq!(pitch_class(-1), 11);
    assert_eq!(octave(-1), -1);
    assert_eq!(pitch_class(-13), 11);
    assert_eq!(octave(-13), -2);
    assert_eq!(pitch_class(i32::MIN), ((i32::MIN % 12 + 12) % 12) as usize);
    assert_eq!(octave(i32::MIN), i32::MIN / 12 - 1);
    assert_eq!(pitch_class(i32::MAX), 7);
}

#[test]
fn note_names_use_sharps() {
    let names: Vec<&str> = (0..12).map(note_name).collect();
    assert_eq!(
        names,
        vec!["C", "C#", "D", "D#", "E", "F", "F#", "G", "G#", "A", "A#", "B"]
    );
}

#[test]
fn note_from_midi_and_display() {
    let a4 = Note::from_midi(69);
    assert_eq!(a4.name, "A");
    assert_eq!(a4.octave, 4);
    assert_eq!(a4.midi_number, 69);
    assert_eq!(a4.display_name(), "A4");
    assert_eq!(Note::from_midi(61).display_name(), "C#4");
    assert_eq!(Note::from_midi(40).display_name(), "E2");
    assert_eq!(Note::from_midi(11).display_name(), "B-1");
    assert_eq!(Note::from_midi(-13).display_name(), "B-2");
    assert_eq!(Note::from_midi(127).display_name(), "G9");
    assert_eq!(Note::from_midi(130).display_name(), "A#9");
    assert_eq!(Note::from_midi(1200).display_name(), "C99");
}

#[test]
fn closest_string_first_smallest_key() {
    assert_eq!(closest_string_index(&vec![]), None);
    assert_eq!(closest_string_index(&vec![30, 10, 20]), Some(1));
    // ties go to the first string
    assert_eq!(closest_string_index(&vec![5, 3, 3, 9]), Some(1));
    // keys at or above the limit never win
    assert_eq!(
        closest_string_index(&vec![DISTANCE_KEY_LIMIT, u64::MAX]),
        None
    );
    assert_eq!(
        closest_string_index(&vec![u64::MAX, DISTANCE_KEY_LIMIT - 1]),
        Some(1)
    );
}

#[test]
fn distance_keys_order_as_distances() {
    // the keys are the bit patterns of the absolute cents offsets
    let distances = [12.5f64, 3.25, 3.5, 0.0];
    let keys: Vec<u64> = distances.iter().map(|d| d.abs().to_bits()).collect();
    assert_eq!(closest_string_index(&keys), Some(3));
    assert_eq!(f64::MAX.to_bits(), DISTANCE_KEY_LIMIT);
    let keys: Vec<u64> = [f64::INFINITY, f64::NAN, 7.0f64]
        .iter()
        .map(|d| d.abs().to_bits())
        .collect();
    assert_eq!(closest_string_index(&keys), Some(2));
}

#[test]
fn octave_and_class_give_back_the_note() {
    for midi in 0..200 {
        assert_eq!(12 * (octave(midi) + 1) + pitch_class(midi) as i32, midi);
    }
    // below zero the octave rounds toward zero, so the numbering does not return
    assert_ne!(12 * (octave(-1) + 1) + pitch_class(-1) as i32, -1);
}
