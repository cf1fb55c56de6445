//! The chord generator: four draws from the bass upwards, each inside the
//! range that the voice below leaves open.

use crate::chord::{
    lemma_same_voices_same_chord, well_voiced, Chord, Voicing, TENOR_SPAN, UPPER_SPAN,
};
use crate::source::{Draw, RangeSource};
use vstd::prelude::*;

verus! {

/// The lowest pitch of the bass.
pub const BASS_FLOOR: u8 = 40;

/// The highest pitch of the bass.
pub const BASS_CEILING: u8 = 64;

/// The highest pitch of the tenor.
pub const TENOR_CEILING: u8 = 68;

/// The highest pitch of the alto.
pub const ALTO_CEILING: u8 = 73;

/// The highest pitch of the soprano.
pub const SOPRANO_CEILING: u8 = 79;

/// The highest pitch open to a voice: `span` semitones above the voice below
/// it, but never above the ceiling of its own register.
pub open spec fn highest_above(below: int, span: int, ceiling: int) -> int {
    if below + span < ceiling {
        below + span
    } else {
        ceiling
    }
}

/// The highest pitch open to the tenor above a bass.
pub open spec fn highest_tenor(bass: int) -> int {
    highest_above(bass, TENOR_SPAN as int, TENOR_CEILING as int)
}

/// The highest pitch open to the alto above a tenor.
pub open spec fn highest_alto(tenor: int) -> int {
    highest_above(tenor, UPPER_SPAN as int, ALTO_CEILING as int)
}

/// The highest pitch open to the soprano above an alto.
pub open spec fn highest_soprano(alto: int) -> int {
    highest_above(alto, UPPER_SPAN as int, SOPRANO_CEILING as int)
}

/// Whether four voices lie in the choral ranges: the bass in its register,
/// and each voice above it no lower than the voice below and no higher than
/// that voice leaves open.
pub open spec fn choral(voices: Voicing) -> bool {
    &&& BASS_FLOOR <= voices.bass <= BASS_CEILING
    &&& voices.bass <= voices.tenor <= highest_tenor(voices.bass)
    &&& voices.tenor <= voices.alto <= highest_alto(voices.tenor)
    &&& voices.alto <= voices.soprano <= highest_soprano(voices.alto)
}

/// The four requests that make a chord, in the order in which they are made:
/// each asks for a pitch between the voice below and the highest pitch that
/// this voice leaves open, and is served with the pitch of the voice.
pub open spec fn requests_for(voices: Voicing) -> Seq<Draw> {
    seq![
        Draw { low: BASS_FLOOR as int, high: BASS_CEILING as int, value: voices.bass },
        Draw { low: voices.bass, high: highest_tenor(voices.bass), value: voices.tenor },
        Draw { low: voices.tenor, high: highest_alto(voices.tenor), value: voices.alto },
        Draw { low: voices.alto, high: highest_soprano(voices.alto), value: voices.soprano },
    ]
}

/// The requests that a run of chords takes, chord after chord.
pub open spec fn requests_for_all(chords: Seq<Chord>) -> Seq<Draw>
    decreases chords.len(),
{
    if chords.len() == 0 {
        Seq::empty()
    } else {
        requests_for_all(chords.drop_last()) + requests_for(chords.last()@)
    }
}

/// The values that a run of requests was served with.
pub open spec fn values_of(log: Seq<Draw>) -> Seq<int> {
    Seq::new(log.len(), |i: int| log[i].value)
}

/// Whether a run of requests is what a source gives that is fixed from the
/// start: one whose every value is decided by the requests that it has served
/// before and by the bounds that it is asked for, as `answer` says.
pub open spec fn follows(answer: spec_fn(Seq<Draw>, int, int) -> int, log: Seq<Draw>) -> bool {
    forall|k: int|
        0 <= k < log.len() ==> (#[trigger] log[k]).value == answer(
            log.take(k),
            log[k].low,
            log[k].high,
        )
}

/// The highest pitch open to a voice above the voice at `below`.
pub fn voice_ceiling(below: u8, span: u8, ceiling: u8) -> (top: u8)
    ensures
        top == highest_above(below as int, span as int, ceiling as int),
{
    let reach: u16 = below as u16 + span as u16;
    if reach < ceiling as u16 {
        reach as u8
    } else {
        ceiling
    }
}

/// A chord in the choral ranges, drawn voice by voice from the bass upwards.
/// It takes four requests to the source and no more, and the chord is made of
/// what they were served with.
pub fn generate_chord<S: RangeSource>(source: &mut S) -> (chord: Chord)
    ensures
        chord@.bass <= chord@.tenor <= chord@.alto <= chord@.soprano,
        choral(chord@),
        well_voiced(chord@),
        final(source).served() == old(source).served() + requests_for(chord@),
{
    let bass = source.draw(BASS_FLOOR, BASS_CEILING);
    let tenor = source.draw(bass, voice_ceiling(bass, TENOR_SPAN, TENOR_CEILING));
    let alto = source.draw(tenor, voice_ceiling(tenor, UPPER_SPAN, ALTO_CEILING));
    let soprano = source.draw(alto, voice_ceiling(alto, UPPER_SPAN, SOPRANO_CEILING));
    let chord = Chord::new(bass, tenor, alto, soprano).unwrap();
    chord
}

/// No range that the generator asks for is empty: whatever was drawn for the
/// voices below, the lowest pitch open to a voice is not above the highest.
pub proof fn lemma_no_range_is_empty(bass: int, tenor: int, alto: int)
    requires
        BASS_FLOOR <= bass <= BASS_CEILING,
        bass <= tenor <= highest_tenor(bass),
        tenor <= alto <= highest_alto(tenor),
    ensures
        BASS_FLOOR <= BASS_CEILING,
        bass <= highest_tenor(bass),
        tenor <= highest_alto(tenor),
        alto <= highest_soprano(alto),
{
}

/// Voices in the choral ranges are well voiced, and none is above the ceiling
/// of its register.
pub proof fn lemma_choral_is_well_voiced(voices: Voicing)
    requires
        choral(voices),
    ensures
        well_voiced(voices),
        voices.tenor <= TENOR_CEILING,
        voices.alto <= ALTO_CEILING,
        voices.soprano <= SOPRANO_CEILING,
{
}

/// A run of chords takes four requests for each chord.
pub proof fn lemma_four_requests_each(chords: Seq<Chord>)
    ensures
        requests_for_all(chords).len() == 4 * chords.len(),
    decreases chords.len(),
{
    if chords.len() > 0 {
        lemma_four_requests_each(chords.drop_last());
    }
}

/// The chords depend on nothing but the values drawn: two runs whose sources
/// hand out the same values, one after the other, make the same chords.
pub proof fn lemma_same_draws_same_chords(first: Seq<Chord>, second: Seq<Chord>)
    requires
        values_of(requests_for_all(first)) == values_of(requests_for_all(second)),
    ensures
        first == second,
    decreases first.len(),
{
    lemma_four_requests_each(first);
    lemma_four_requests_each(second);
    let one = requests_for_all(first);
    let other = requests_for_all(second);
    assert(values_of(one).len() == values_of(other).len());
    assert(first.len() == second.len());
    if first.len() > 0 {
        let head_one = first.drop_last();
        let head_other = second.drop_last();
        lemma_four_requests_each(head_one);
        lemma_four_requests_each(head_other);
        let n = requests_for_all(head_one).len() as int;
        assert forall|k: int| 0 <= k < 4 implies requests_for(first.last()@)[k].value
            == requests_for(second.last()@)[k].value by {
            assert(one[n + k] == requests_for(first.last()@)[k]);
            assert(other[n + k] == requests_for(second.last()@)[k]);
            assert(values_of(one)[n + k] == values_of(other)[n + k]);
        }
        assert(requests_for(first.last()@)[0].value == requests_for(second.last()@)[0].value);
        assert(requests_for(first.last()@)[1].value == requests_for(second.last()@)[1].value);
        assert(requests_for(first.last()@)[2].value == requests_for(second.last()@)[2].value);
        assert(requests_for(first.last()@)[3].value == requests_for(second.last()@)[3].value);
        lemma_same_voices_same_chord(first.last(), second.last());
        assert(values_of(requests_for_all(head_one)) =~= values_of(requests_for_all(head_other)))
            by {
            assert forall|k: int| 0 <= k < n implies values_of(requests_for_all(head_one))[k]
                == values_of(requests_for_all(head_other))[k] by {
                assert(one[k] == requests_for_all(head_one)[k]);
                assert(other[k] == requests_for_all(head_other)[k]);
                assert(values_of(one)[k] == values_of(other)[k]);
            }
        }
        lemma_same_draws_same_chords(head_one, head_other);
        assert(first =~= head_one.push(first.last()));
        assert(second =~= head_other.push(second.last()));
    }
}

/// A run of requests that follows a fixed source does so from its beginning.
proof fn lemma_follows_from_the_start(
    answer: spec_fn(Seq<Draw>, int, int) -> int,
    log: Seq<Draw>,
    more: Seq<Draw>,
)
    requires
        follows(answer, log + more),
    ensures
        follows(answer, log),
{
    let whole = log + more;
    assert forall|k: int| 0 <= k < log.len() implies (#[trigger] log[k]).value == answer(
        log.take(k),
        log[k].low,
        log[k].high,
    ) by {
        assert(whole[k] == log[k]);
        assert(whole.take(k) =~= log.take(k));
    }
}

/// Two chords that a fixed source makes after the same requests are one chord.
proof fn lemma_fixed_source_fixed_chord(
    answer: spec_fn(Seq<Draw>, int, int) -> int,
    before: Seq<Draw>,
    one: Chord,
    other: Chord,
)
    requires
        follows(answer, before + requests_for(one@)),
        follows(answer, before + requests_for(other@)),
    ensures
        one == other,
{
    let n = before.len() as int;
    let first = before + requests_for(one@);
    let second = before + requests_for(other@);
    assert(first[n] == requests_for(one@)[0] && second[n] == requests_for(other@)[0]);
    assert(first.take(n) =~= second.take(n));
    assert(one@.bass == other@.bass);
    assert(first[n + 1] == requests_for(one@)[1] && second[n + 1] == requests_for(other@)[1]);
    assert(first.take(n + 1) =~= second.take(n + 1));
    assert(one@.tenor == other@.tenor);
    assert(first[n + 2] == requests_for(one@)[2] && second[n + 2] == requests_for(other@)[2]);
    assert(first.take(n + 2) =~= second.take(n + 2));
    assert(one@.alto == other@.alto);
    assert(first[n + 3] == requests_for(one@)[3] && second[n + 3] == requests_for(other@)[3]);
    assert(first.take(n + 3) =~= second.take(n + 3));
    assert(one@.soprano == other@.soprano);
    lemma_same_voices_same_chord(one, other);
}

/// Runs repeat: with a source that is fixed from the start, two runs of the
/// same length make the same chords, one after the other.
pub proof fn lemma_fixed_source_fixed_chords(
    answer: spec_fn(Seq<Draw>, int, int) -> int,
    first: Seq<Chord>,
    second: Seq<Chord>,
)
    requires
        first.len() == second.len(),
        follows(answer, requests_for_all(first)),
        follows(answer, requests_for_all(second)),
    ensures
        first == second,
    decreases first.len(),
{
    if first.len() == 0 {
        assert(first =~= second);
    } else {
        let head_one = first.drop_last();
        let head_other = second.drop_last();
        lemma_follows_from_the_start(
            answer,
            requests_for_all(head_one),
            requests_for(first.last()@),
        );
        lemma_follows_from_the_start(
            answer,
            requests_for_all(head_other),
            requests_for(second.last()@),
        );
        lemma_fixed_source_fixed_chords(answer, head_one, head_other);
        lemma_fixed_source_fixed_chord(
            answer,
            requests_for_all(head_one),
            first.last(),
            second.last(),
        );
        assert(first =~= head_one.push(first.last()));
        assert(second =~= head_other.push(second.last()));
    }
}

} // verus!
