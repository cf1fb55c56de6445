//! The interactive session: what each answer of the player means, and what it
//! does to the progression.

use crate::answer::{trim, trimmed};
use crate::chord::Chord;
use vstd::prelude::*;

verus! {

/// What the player wants done with the chord on offer.
#[derive(Clone, Copy, Debug, PartialEq, Eq, Structural)]
pub enum Choice {
    /// Put the chord at the end of the progression.
    Add,
    /// Stop: the progression is complete.
    Finish,
    /// Leave this chord out and offer another.
    Another,
}

/// One round of the session: the chord on offer and what the player chose.
pub struct Turn {
    pub offered: Chord,
    pub choice: Choice,
}

/// Whether an answer, white space aside, is the word that starts the session.
pub open spec fn is_start(line: Seq<char>) -> bool {
    trimmed(line) == seq!['y', 'e', 's']
}

/// What an answer means, white space aside: `2` ends the session, `1` takes
/// the chord, and anything else asks for another chord.
pub open spec fn choice_of(line: Seq<char>) -> Choice {
    if trimmed(line) == seq!['2'] {
        Choice::Finish
    } else if trimmed(line) == seq!['1'] {
        Choice::Add
    } else {
        Choice::Another
    }
}

/// The progression after one choice: longer by the chord on offer if the
/// player took it, and as it was otherwise.
pub open spec fn after_choice(progression: Seq<Chord>, offered: Chord, choice: Choice) -> Seq<
    Chord,
> {
    if choice == Choice::Add {
        progression.push(offered)
    } else {
        progression
    }
}

/// The progression after a run of turns that starts from `progression`. The
/// session ends with the first choice to finish, and later turns do nothing.
pub open spec fn after_turns(progression: Seq<Chord>, turns: Seq<Turn>) -> Seq<Chord>
    decreases turns.len(),
{
    if turns.len() == 0 || turns.first().choice == Choice::Finish {
        progression
    } else {
        after_turns(
            after_choice(progression, turns.first().offered, turns.first().choice),
            turns.drop_first(),
        )
    }
}

/// The chords that the player took in a run of turns, in order, up to the
/// first choice to finish.
pub open spec fn taken(turns: Seq<Turn>) -> Seq<Chord>
    decreases turns.len(),
{
    if turns.len() == 0 || turns.first().choice == Choice::Finish {
        Seq::empty()
    } else if turns.first().choice == Choice::Add {
        seq![turns.first().offered] + taken(turns.drop_first())
    } else {
        taken(turns.drop_first())
    }
}

/// How often the player chose to add a chord in a run of turns, up to the
/// first choice to finish.
pub open spec fn additions(turns: Seq<Turn>) -> nat
    decreases turns.len(),
{
    if turns.len() == 0 || turns.first().choice == Choice::Finish {
        0
    } else if turns.first().choice == Choice::Add {
        1 + additions(turns.drop_first())
    } else {
        additions(turns.drop_first())
    }
}

/// Whether the player asked to start the session.
pub fn wants_to_start(line: &str) -> (start: bool)
    ensures
        start == is_start(line@),
{
    let answer = trim(line);
    let start = answer.len() == 3 && answer[0] == 'y' && answer[1] == 'e' && answer[2] == 's';
    proof {
        if start {
            assert(answer@ =~= seq!['y', 'e', 's']);
        }
    }
    start
}

/// What the player chose.
pub fn parse_choice(line: &str) -> (choice: Choice)
    ensures
        choice == choice_of(line@),
{
    let answer = trim(line);
    if answer.len() == 1 && answer[0] == '2' {
        proof {
            assert(answer@ =~= seq!['2']);
        }
        Choice::Finish
    } else if answer.len() == 1 && answer[0] == '1' {
        proof {
            assert(answer@ =~= seq!['1']);
        }
        Choice::Add
    } else {
        Choice::Another
    }
}

/// The progression with the chord at its end.
pub fn add_to_progression(progression: Vec<Chord>, chord: &Chord) -> (longer: Vec<Chord>)
    ensures
        longer@ == progression@.push(*chord),
{
    let mut progression = progression;
    progression.push(*chord);
    progression
}

/// The progression after the player has chosen what to do with the chord on
/// offer.
pub fn apply_choice(progression: Vec<Chord>, offered: &Chord, choice: Choice) -> (next: Vec<
    Chord,
>)
    ensures
        next@ == after_choice(progression@, *offered, choice),
{
    match choice {
        Choice::Add => add_to_progression(progression, offered),
        _ => progression,
    }
}

/// What one answer of the player leads to.
#[derive(Debug)]
pub struct Outcome {
    /// The progression from here on.
    pub progression: Vec<Chord>,
    /// Whether the session is over. While it is not, another chord is due.
    pub finished: bool,
}

/// The next state of the session, from the progression so far, the chord on
/// offer and the line that the player typed.
pub fn respond(progression: Vec<Chord>, offered: &Chord, line: &str) -> (outcome: Outcome)
    ensures
        outcome.progression@ == after_choice(progression@, *offered, choice_of(line@)),
        outcome.finished == (choice_of(line@) == Choice::Finish),
{
    let choice = parse_choice(line);
    let finished = match choice {
        Choice::Finish => true,
        _ => false,
    };
    Outcome { progression: apply_choice(progression, offered, choice), finished }
}

/// A session adds to the progression the chords that the player took, in the
/// order in which they were taken, and nothing else.
pub proof fn lemma_session_keeps_what_was_taken(progression: Seq<Chord>, turns: Seq<Turn>)
    ensures
        after_turns(progression, turns) == progression + taken(turns),
    decreases turns.len(),
{
    if turns.len() == 0 || turns.first().choice == Choice::Finish {
        assert(after_turns(progression, turns) =~= progression + taken(turns));
    } else {
        let head = turns.first();
        let next = after_choice(progression, head.offered, head.choice);
        lemma_session_keeps_what_was_taken(next, turns.drop_first());
        assert(after_turns(progression, turns) =~= progression + taken(turns));
    }
}

/// The player took as many chords as there were choices to add one.
pub proof fn lemma_taken_counts_additions(turns: Seq<Turn>)
    ensures
        taken(turns).len() == additions(turns),
    decreases turns.len(),
{
    if !(turns.len() == 0 || turns.first().choice == Choice::Finish) {
        lemma_taken_counts_additions(turns.drop_first());
    }
}

/// A session that starts with no chords ends with as many as the player chose
/// to add, however many were on offer.
pub proof fn lemma_session_length(turns: Seq<Turn>)
    ensures
        after_turns(Seq::empty(), turns).len() == additions(turns),
{
    lemma_session_keeps_what_was_taken(Seq::empty(), turns);
    lemma_taken_counts_additions(turns);
}

} // verus!
