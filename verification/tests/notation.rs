use chord_collaborator::chord::Chord;
use chord_collaborator::notation::{
    chord_to_string, note_val_to_symbol, pitch_class_symbol, print_progression,
};

#[test]
fn the_twelve_pitch_classes() {
    let names = ["C", "C#", "D", "Eb", "E", "F", "F#", "G", "Ab", "A", "Bb", "B"];
    for pitch_class in 0u8..12 {
        assert_eq!(pitch_class_symbol(&pitch_class), names[pitch_class as usize]);
    }
}

#[test]
fn no_name_outside_the_twelve() {
    assert_eq!(pitch_class_symbol(&12), "");
    assert_eq!(pitch_class_symbol(&13), "");
    assert_eq!(pitch_class_symbol(&255), "");
}

#[test]
fn middle_c_is_c4() {
    assert_eq!(note_val_to_symbol(&60), "C4");
}

#[test]
fn concert_pitch_is_a4() {
    assert_eq!(note_val_to_symbol(&69), "A4");
}

#[test]
fn the_lowest_note_is_in_octave_minus_one() {
    assert_eq!(note_val_to_symbol(&0), "C-1");
    assert_eq!(note_val_to_symbol(&11), "B-1");
}

#[test]
fn a_sharp_keeps_its_octave() {
    assert_eq!(note_val_to_symbol(&61), "C#4");
}

#[test]
fn octave_zero_begins_at_note_twelve() {
    assert_eq!(note_val_to_symbol(&12), "C0");
    assert_eq!(note_val_to_symbol(&23), "B0");
    assert_eq!(note_val_to_symbol(&24), "C1");
}

#[test]
fn the_highest_pitch_is_g9() {
    assert_eq!(note_val_to_symbol(&127), "G9");
}

#[test]
fn octaves_of_two_digits() {
    assert_eq!(note_val_to_symbol(&132), "C10");
    assert_eq!(note_val_to_symbol(&255), "Eb20");
}

#[test]
fn every_note_is_its_pitch_class_and_its_octave() {
    for note in 0u8..=255 {
        let pitch_class = note % 12;
        let octave = i32::from(note / 12) - 1;
        let expected = format!("{}{}", pitch_class_symbol(&pitch_class), octave);
        assert_eq!(note_val_to_symbol(&note), expected);
    }
}

#[test]
fn a_chord_in_brackets() {
    let chord = Chord::new(48, 52, 55, 60).unwrap();
    assert_eq!(chord_to_string(&chord), "[C3 E3 G3 C4]");
}

#[test]
fn a_chord_with_flats_and_sharps() {
    let chord = Chord::new(42, 51, 58, 68).unwrap();
    assert_eq!(chord_to_string(&chord), "[F#2 Eb3 Bb3 Ab4]");
}

#[test]
fn the_lowest_chord() {
    let chord = Chord::new(0, 0, 0, 0).unwrap();
    assert_eq!(chord_to_string(&chord), "[C-1 C-1 C-1 C-1]");
}

#[test]
fn an_empty_progression_shows_nothing() {
    assert_eq!(print_progression(&Vec::new()), "");
}

#[test]
fn a_progression_shows_a_line_for_each_chord() {
    let progression = vec![
        Chord::new(48, 52, 55, 60).unwrap(),
        Chord::new(43, 55, 59, 62).unwrap(),
        Chord::new(48, 52, 55, 60).unwrap(),
    ];
    assert_eq!(
        print_progression(&progression),
        "[C3 E3 G3 C4]\n[G2 G3 B3 D4]\n[C3 E3 G3 C4]\n"
    );
}
