use chord_collaborator::chord::{Chord, PITCH_MAX, TENOR_SPAN, UPPER_SPAN};

#[test]
fn a_well_voiced_chord_keeps_its_voices() {
    let chord = Chord::new(48, 52, 55, 60).unwrap();
    assert_eq!(chord.bass(), 48);
    assert_eq!(chord.tenor(), 52);
    assert_eq!(chord.alto(), 55);
    assert_eq!(chord.soprano(), 60);
}

#[test]
fn the_limits_of_a_chord() {
    assert_eq!(PITCH_MAX, 127);
    assert_eq!(TENOR_SPAN, 24);
    assert_eq!(UPPER_SPAN, 12);
}

#[test]
fn voices_may_share_a_pitch() {
    let chord = Chord::new(50, 50, 50, 50).unwrap();
    assert_eq!(chord.bass(), chord.soprano());
    assert!(Chord::new(0, 0, 0, 0).is_some());
    assert!(Chord::new(127, 127, 127, 127).is_some());
}

#[test]
fn a_voice_below_the_voice_before_it_is_no_chord() {
    assert_eq!(Chord::new(49, 48, 55, 60), None);
    assert_eq!(Chord::new(48, 56, 55, 60), None);
    assert_eq!(Chord::new(48, 52, 61, 60), None);
}

#[test]
fn the_widest_chord() {
    let chord = Chord::new(40, 64, 76, 88).unwrap();
    assert_eq!(chord.tenor() - chord.bass(), 24);
    assert_eq!(chord.alto() - chord.tenor(), 12);
    assert_eq!(chord.soprano() - chord.alto(), 12);
}

#[test]
fn a_voice_too_far_above_the_voice_before_it_is_no_chord() {
    assert_eq!(Chord::new(40, 65, 70, 75), None);
    assert_eq!(Chord::new(40, 50, 63, 70), None);
    assert_eq!(Chord::new(40, 50, 60, 73), None);
}

#[test]
fn a_pitch_above_the_highest_is_no_chord() {
    assert!(Chord::new(110, 120, 125, 127).is_some());
    assert_eq!(Chord::new(110, 120, 125, 128), None);
    assert_eq!(Chord::new(200, 210, 220, 230), None);
    assert_eq!(Chord::new(255, 255, 255, 255), None);
}

#[test]
fn chords_compare_by_their_voices() {
    assert_eq!(Chord::new(48, 52, 55, 60), Chord::new(48, 52, 55, 60));
    assert_ne!(Chord::new(48, 52, 55, 60), Chord::new(48, 52, 55, 61));
    let chord = Chord::new(48, 52, 55, 60).unwrap();
    let copy = chord;
    assert_eq!(chord, copy);
}
