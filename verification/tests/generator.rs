use chord_collaborator::chord::{Chord, TENOR_SPAN, UPPER_SPAN};
use chord_collaborator::generator::{
    generate_chord, voice_ceiling, ALTO_CEILING, BASS_CEILING, BASS_FLOOR, SOPRANO_CEILING,
    TENOR_CEILING,
};
use chord_collaborator::source::{RangeSource, SeededSource, ThreadSource};

fn in_choral_range(chord: &Chord) -> bool {
    let (bass, tenor, alto, soprano) =
        (chord.bass(), chord.tenor(), chord.alto(), chord.soprano());
    40 <= bass
        && bass <= 64
        && bass <= tenor
        && tenor <= 68
        && tenor <= bass + 24
        && tenor <= alto
        && alto <= 73
        && alto <= tenor + 12
        && alto <= soprano
        && soprano <= 79
        && soprano <= alto + 12
}

fn run(seed: u64, length: usize) -> Vec<Chord> {
    let mut source = SeededSource::from_seed(seed);
    let mut chords = Vec::new();
    for _ in 0..length {
        chords.push(generate_chord(&mut source));
    }
    chords
}

#[test]
fn the_registers() {
    assert_eq!(BASS_FLOOR, 40);
    assert_eq!(BASS_CEILING, 64);
    assert_eq!(TENOR_CEILING, 68);
    assert_eq!(ALTO_CEILING, 73);
    assert_eq!(SOPRANO_CEILING, 79);
}

#[test]
fn the_span_limits_a_low_voice() {
    assert_eq!(voice_ceiling(40, TENOR_SPAN, TENOR_CEILING), 64);
    assert_eq!(voice_ceiling(43, TENOR_SPAN, TENOR_CEILING), 67);
    assert_eq!(voice_ceiling(40, UPPER_SPAN, ALTO_CEILING), 52);
    assert_eq!(voice_ceiling(60, UPPER_SPAN, ALTO_CEILING), 72);
    assert_eq!(voice_ceiling(40, UPPER_SPAN, SOPRANO_CEILING), 52);
    assert_eq!(voice_ceiling(66, UPPER_SPAN, SOPRANO_CEILING), 78);
}

#[test]
fn the_register_limits_a_high_voice() {
    assert_eq!(voice_ceiling(44, TENOR_SPAN, TENOR_CEILING), 68);
    assert_eq!(voice_ceiling(64, TENOR_SPAN, TENOR_CEILING), 68);
    assert_eq!(voice_ceiling(61, UPPER_SPAN, ALTO_CEILING), 73);
    assert_eq!(voice_ceiling(68, UPPER_SPAN, ALTO_CEILING), 73);
    assert_eq!(voice_ceiling(67, UPPER_SPAN, SOPRANO_CEILING), 79);
    assert_eq!(voice_ceiling(73, UPPER_SPAN, SOPRANO_CEILING), 79);
}

#[test]
fn no_ceiling_wraps_around() {
    assert_eq!(voice_ceiling(250, 24, 255), 255);
    assert_eq!(voice_ceiling(255, 255, 255), 255);
    assert_eq!(voice_ceiling(255, 255, 0), 0);
    assert_eq!(voice_ceiling(0, 0, 68), 0);
}

#[test]
fn voices_never_cross() {
    for seed in 0..50 {
        for chord in run(seed, 100) {
            assert!(chord.bass() <= chord.tenor());
            assert!(chord.tenor() <= chord.alto());
            assert!(chord.alto() <= chord.soprano());
        }
    }
}

#[test]
fn every_voice_stays_in_its_range() {
    for seed in 0..50 {
        for chord in run(seed, 100) {
            assert!(in_choral_range(&chord), "{:?}", chord);
        }
    }
}

#[test]
fn a_generated_chord_is_well_voiced() {
    for chord in run(7, 200) {
        let again = Chord::new(chord.bass(), chord.tenor(), chord.alto(), chord.soprano());
        assert_eq!(again, Some(chord));
    }
}

#[test]
fn the_same_seed_gives_the_same_chords() {
    for seed in [0, 1, 42, u64::MAX] {
        assert_eq!(run(seed, 64), run(seed, 64));
    }
}

#[test]
fn a_run_goes_on_where_it_stopped() {
    let whole = run(42, 20);
    let mut source = SeededSource::from_seed(42);
    for expected in whole {
        assert_eq!(generate_chord(&mut source), expected);
    }
}

#[test]
fn seeds_differ() {
    assert_ne!(run(1, 64), run(2, 64));
}

#[test]
fn the_draws_vary() {
    let chords = run(3, 200);
    assert!(chords.iter().any(|chord| chord.bass() != BASS_FLOOR));
    assert!(chords.iter().any(|chord| chord.tenor() != chord.bass()));
    assert!(chords.iter().any(|chord| chord.alto() != chord.tenor()));
    assert!(chords.iter().any(|chord| chord.soprano() != chord.alto()));
    assert!(chords.iter().any(|chord| *chord != chords[0]));
}

#[test]
fn every_bass_is_drawn_sooner_or_later() {
    let chords = run(11, 5000);
    for bass in BASS_FLOOR..=BASS_CEILING {
        assert!(chords.iter().any(|chord| chord.bass() == bass), "{}", bass);
    }
}

#[test]
fn a_draw_stays_in_its_range() {
    let mut seeded = SeededSource::from_seed(5);
    let mut thread = ThreadSource::new();
    for low in [0u8, 40, 200, 255] {
        for high in [low, low.saturating_add(1), 255] {
            for _ in 0..50 {
                let value = seeded.draw(low, high);
                assert!(low <= value && value <= high);
                let value = thread.draw(low, high);
                assert!(low <= value && value <= high);
            }
        }
    }
}

#[test]
fn a_seeded_source_draws_different_values() {
    let mut source = SeededSource::from_seed(9);
    let values: Vec<u8> = (0..100).map(|_| source.draw(10, 250)).collect();
    assert!(values.iter().any(|value| *value != 10));
    assert!(values.iter().any(|value| *value != values[0]));
}

#[test]
fn the_thread_source_draws_different_values() {
    let mut source = ThreadSource::new();
    let values: Vec<u8> = (0..200).map(|_| source.draw(10, 250)).collect();
    assert!(values.iter().any(|value| *value != 10));
    assert!(values.iter().any(|value| *value != values[0]));
}

#[test]
fn the_thread_source_makes_chords_in_range() {
    let mut source = ThreadSource::new();
    for _ in 0..1000 {
        let chord = generate_chord(&mut source);
        assert!(in_choral_range(&chord), "{:?}", chord);
    }
}
