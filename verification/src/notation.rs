//! Names of pitches, and chords and progressions written out as text.

use crate::chord::{Chord, Voicing};
use vstd::prelude::*;

verus! {

/// The name of a pitch class: the twelve pitch classes from C upwards are
/// numbered from 0 to 11, and no other number has a name.
pub open spec fn pitch_class_name(pitch_class: int) -> Seq<char> {
    if pitch_class == 0 {
        seq!['C']
    } else if pitch_class == 1 {
        seq!['C', '#']
    } else if pitch_class == 2 {
        seq!['D']
    } else if pitch_class == 3 {
        seq!['E', 'b']
    } else if pitch_class == 4 {
        seq!['E']
    } else if pitch_class == 5 {
        seq!['F']
    } else if pitch_class == 6 {
        seq!['F', '#']
    } else if pitch_class == 7 {
        seq!['G']
    } else if pitch_class == 8 {
        seq!['A', 'b']
    } else if pitch_class == 9 {
        seq!['A']
    } else if pitch_class == 10 {
        seq!['B', 'b']
    } else if pitch_class == 11 {
        seq!['B']
    } else {
        Seq::empty()
    }
}

/// The character that stands for a digit.
pub open spec fn digit_char(digit: nat) -> char {
    if digit == 0 {
        '0'
    } else if digit == 1 {
        '1'
    } else if digit == 2 {
        '2'
    } else if digit == 3 {
        '3'
    } else if digit == 4 {
        '4'
    } else if digit == 5 {
        '5'
    } else if digit == 6 {
        '6'
    } else if digit == 7 {
        '7'
    } else if digit == 8 {
        '8'
    } else {
        '9'
    }
}

/// A natural number in decimal digits, the most significant first and with no
/// leading zero.
pub open spec fn digits(n: nat) -> Seq<char>
    decreases n,
{
    if n < 10 {
        seq![digit_char(n)]
    } else {
        digits(n / 10).push(digit_char(n % 10))
    }
}

/// An integer in decimal digits, with a minus sign in front if it is negative.
pub open spec fn decimal(i: int) -> Seq<char> {
    if i < 0 {
        seq!['-'] + digits((-i) as nat)
    } else {
        digits(i as nat)
    }
}

/// The pitch class of a note: its place among the twelve semitones of its
/// octave.
pub open spec fn pitch_class_of(note: int) -> int {
    note % 12
}

/// The octave of a note. Octave 0 begins at note 12, so the lowest notes lie
/// in octave -1.
pub open spec fn octave_of(note: int) -> int {
    (note - pitch_class_of(note)) / 12 - 1
}

/// The name of a note: the name of its pitch class, then the number of its
/// octave.
pub open spec fn note_name(note: int) -> Seq<char> {
    pitch_class_name(pitch_class_of(note)) + decimal(octave_of(note))
}

/// A chord as text: the names of its four voices from the bass upwards,
/// a blank between each two, in square brackets.
pub open spec fn chord_text(voices: Voicing) -> Seq<char> {
    seq!['['] + note_name(voices.bass) + seq![' '] + note_name(voices.tenor) + seq![' ']
        + note_name(voices.alto) + seq![' '] + note_name(voices.soprano) + seq![']']
}

/// A progression as text: one line for each chord, in order, each closed by a
/// line feed.
pub open spec fn progression_text(progression: Seq<Chord>) -> Seq<char>
    decreases progression.len(),
{
    if progression.len() == 0 {
        Seq::empty()
    } else {
        progression_text(progression.drop_last()) + chord_text(progression.last()@) + seq!['\n']
    }
}

/// The name of a pitch class, and the empty text for a number that is none.
pub fn pitch_class_symbol(pitch_class: &u8) -> (symbol: &str)
    ensures
        symbol@ == pitch_class_name(*pitch_class as int),
{
    proof {
        reveal_strlit("C");
        reveal_strlit("C#");
        reveal_strlit("D");
        reveal_strlit("Eb");
        reveal_strlit("E");
        reveal_strlit("F");
        reveal_strlit("F#");
        reveal_strlit("G");
        reveal_strlit("Ab");
        reveal_strlit("A");
        reveal_strlit("Bb");
        reveal_strlit("B");
        reveal_strlit("");
    }
    match *pitch_class {
        0 => "C",
        1 => "C#",
        2 => "D",
        3 => "Eb",
        4 => "E",
        5 => "F",
        6 => "F#",
        7 => "G",
        8 => "Ab",
        9 => "A",
        10 => "Bb",
        11 => "B",
        _ => "",
    }
}

/// The text of one digit.
fn digit_symbol(digit: u8) -> (symbol: &'static str)
    requires
        digit < 10,
    ensures
        symbol@ == seq![digit_char(digit as nat)],
{
    proof {
        reveal_strlit("0");
        reveal_strlit("1");
        reveal_strlit("2");
        reveal_strlit("3");
        reveal_strlit("4");
        reveal_strlit("5");
        reveal_strlit("6");
        reveal_strlit("7");
        reveal_strlit("8");
        reveal_strlit("9");
    }
    match digit {
        0 => "0",
        1 => "1",
        2 => "2",
        3 => "3",
        4 => "4",
        5 => "5",
        6 => "6",
        7 => "7",
        8 => "8",
        _ => "9",
    }
}

/// Writes a natural number behind the text.
fn append_digits(text: &mut String, n: u32)
    ensures
        final(text)@ == old(text)@ + digits(n as nat),
    decreases n,
{
    if n >= 10 {
        append_digits(text, n / 10);
    }
    let last: u8 = (n % 10) as u8;
    text.append(digit_symbol(last));
}

/// Writes an integer behind the text.
fn append_decimal(text: &mut String, i: i32)
    ensures
        final(text)@ == old(text)@ + decimal(i as int),
{
    if i < 0 {
        proof {
            reveal_strlit("-");
        }
        text.append("-");
        let size: i64 = -(i as i64);
        append_digits(text, size as u32);
    } else {
        append_digits(text, i as u32);
    }
}

/// The name of a note, such as `C4` for note 60 and `C-1` for note 0.
pub fn note_val_to_symbol(note: &u8) -> (text: String)
    ensures
        text@ == note_name(*note as int),
{
    let pitch_class: u8 = *note % 12;
    let symbol = pitch_class_symbol(&pitch_class);
    let octave: i32 = ((*note - pitch_class) / 12) as i32 - 1;
    let mut text = String::new();
    text.append(symbol);
    append_decimal(&mut text, octave);
    text
}

/// The chord as text, such as `[C3 E3 G3 C4]`.
pub fn chord_to_string(chord: &Chord) -> (text: String)
    ensures
        text@ == chord_text(chord@),
{
    proof {
        reveal_strlit("[");
        reveal_strlit(" ");
        reveal_strlit("]");
    }
    let bass = note_val_to_symbol(&chord.bass());
    let tenor = note_val_to_symbol(&chord.tenor());
    let alto = note_val_to_symbol(&chord.alto());
    let soprano = note_val_to_symbol(&chord.soprano());
    let mut text = String::new();
    text.append("[");
    text.append(bass.as_str());
    text.append(" ");
    text.append(tenor.as_str());
    text.append(" ");
    text.append(alto.as_str());
    text.append(" ");
    text.append(soprano.as_str());
    text.append("]");
    text
}

/// The text that shows a progression: the line of each chord, in order.
pub fn print_progression(prog: &Vec<Chord>) -> (text: String)
    ensures
        text@ == progression_text(prog@),
{
    proof {
        reveal_strlit("\n");
    }
    let mut text = String::new();
    let mut done: usize = 0;
    while done < prog.len()
        invariant
            done <= prog.len(),
            text@ == progression_text(prog@.take(done as int)),
            "\n"@ == seq!['\n'],
        decreases prog.len() - done,
    {
        let line = chord_to_string(&prog[done]);
        text.append(line.as_str());
        text.append("\n");
        proof {
            let shown = prog@.take(done + 1);
            assert(shown.drop_last() == prog@.take(done as int));
            assert(shown.last() == prog@[done as int]);
        }
        done = done + 1;
    }
    proof {
        assert(prog@.take(done as int) == prog@);
    }
    text
}

} // verus!
