//! The chord: four pitches, lowest voice first.

use vstd::prelude::*;

verus! {

/// The highest pitch there is. Pitches are note numbers from 0 up to this one,
/// a semitone apart.
pub const PITCH_MAX: u8 = 127;

/// The widest gap, in semitones, between bass and tenor.
pub const TENOR_SPAN: u8 = 24;

/// The widest gap, in semitones, between tenor and alto and between alto and
/// soprano.
pub const UPPER_SPAN: u8 = 12;

/// Four pitches, named by the voices that sing them. This is what a chord is
/// to the contracts.
pub struct Voicing {
    pub bass: int,
    pub tenor: int,
    pub alto: int,
    pub soprano: int,
}

/// Whether four pitches make a chord: each is a pitch, no voice lies below the
/// one before it (two voices may share a pitch), and no voice lies further
/// above the one before it than its span allows.
pub open spec fn well_voiced(voices: Voicing) -> bool {
    &&& 0 <= voices.bass <= voices.tenor <= voices.alto <= voices.soprano <= PITCH_MAX
    &&& voices.tenor - voices.bass <= TENOR_SPAN
    &&& voices.alto - voices.tenor <= UPPER_SPAN
    &&& voices.soprano - voices.alto <= UPPER_SPAN
}

/// Four voices sounding together. A chord is well voiced from the moment it
/// is made, and nothing changes it afterwards.
#[derive(Clone, Copy, Debug, PartialEq, Eq, Structural)]
pub struct Chord {
    bass: u8,
    tenor: u8,
    alto: u8,
    soprano: u8,
}

impl View for Chord {
    type V = Voicing;

    closed spec fn view(&self) -> Voicing {
        Voicing {
            bass: self.bass as int,
            tenor: self.tenor as int,
            alto: self.alto as int,
            soprano: self.soprano as int,
        }
    }
}

impl Chord {
    #[verifier::type_invariant]
    spec fn voiced(self) -> bool {
        well_voiced(self@)
    }

    /// The chord of the four pitches, if they are well voiced.
    pub fn new(bass: u8, tenor: u8, alto: u8, soprano: u8) -> (made: Option<Chord>)
        ensures
            made is Some <==> well_voiced(
                (Voicing {
                    bass: bass as int,
                    tenor: tenor as int,
                    alto: alto as int,
                    soprano: soprano as int,
                }),
            ),
            made matches Some(chord) ==> chord@ == (Voicing {
                bass: bass as int,
                tenor: tenor as int,
                alto: alto as int,
                soprano: soprano as int,
            }),
    {
        if bass <= tenor && tenor <= alto && alto <= soprano && soprano <= PITCH_MAX
            && tenor - bass <= TENOR_SPAN && alto - tenor <= UPPER_SPAN
            && soprano - alto <= UPPER_SPAN {
            Some(Chord { bass, tenor, alto, soprano })
        } else {
            None
        }
    }

    /// The lowest voice.
    pub fn bass(&self) -> (pitch: u8)
        ensures
            pitch == self@.bass,
    {
        self.bass
    }

    /// The second voice from below.
    pub fn tenor(&self) -> (pitch: u8)
        ensures
            pitch == self@.tenor,
    {
        self.tenor
    }

    /// The third voice from below.
    pub fn alto(&self) -> (pitch: u8)
        ensures
            pitch == self@.alto,
    {
        self.alto
    }

    /// The highest voice.
    pub fn soprano(&self) -> (pitch: u8)
        ensures
            pitch == self@.soprano,
    {
        self.soprano
    }
}

/// Two chords with the same four voices are one chord.
pub proof fn lemma_same_voices_same_chord(a: Chord, b: Chord)
    requires
        a@ == b@,
    ensures
        a == b,
{
}

} // verus!
