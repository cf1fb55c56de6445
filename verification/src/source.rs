//! Where the random pitches come from.

use rand::rngs::{StdRng, ThreadRng};
use rand::{Rng, SeedableRng};
use vstd::prelude::*;

verus! {

/// One request that a source has served: the bounds that were asked for, and
/// the value that it handed out.
pub struct Draw {
    pub low: int,
    pub high: int,
    pub value: int,
}

/// A provider of random integers in a range.
pub trait RangeSource {
    /// Every request served so far, the oldest first.
    spec fn served(&self) -> Seq<Draw>;

    /// A value between `low` and `high`, both included.
    fn draw(&mut self, low: u8, high: u8) -> (value: u8)
        requires
            low <= high,
        ensures
            low <= value <= high,
            final(self).served() == old(self).served().push(
                (Draw { low: low as int, high: high as int, value: value as int }),
            ),
    ;
}

#[verifier::external_type_specification]
#[verifier::external_body]
pub struct ExThreadRng(rand::rngs::ThreadRng);

#[verifier::external_type_specification]
#[verifier::external_body]
pub struct ExStdRng(rand::rngs::StdRng);

/// `rand::thread_rng`: a handle on the generator of the current thread, which
/// the system seeds. Nothing is claimed of it.
#[verifier::external_body]
fn thread_generator() -> ThreadRng {
    rand::thread_rng()
}

/// `rand::SeedableRng::seed_from_u64` of `rand::rngs::StdRng`: a generator
/// made from a seed. Nothing is claimed of it.
#[verifier::external_body]
fn seeded_generator(seed: u64) -> StdRng {
    StdRng::seed_from_u64(seed)
}

/// `rand::Rng::gen_range` of `rand::rngs::ThreadRng`, on an inclusive range of
/// `u8`. The range must not be empty; the value lies in it.
#[verifier::external_body]
fn thread_draw(generator: &mut ThreadRng, low: u8, high: u8) -> (value: u8)
    requires
        low <= high,
    ensures
        low <= value <= high,
{
    generator.gen_range(low..=high)
}

/// `rand::Rng::gen_range` of `rand::rngs::StdRng`, on an inclusive range of
/// `u8`. The range must not be empty; the value lies in it.
#[verifier::external_body]
fn seeded_draw(generator: &mut StdRng, low: u8, high: u8) -> (value: u8)
    requires
        low <= high,
    ensures
        low <= value <= high,
{
    generator.gen_range(low..=high)
}

/// The source that the system seeds: no two runs of the program need agree.
pub struct ThreadSource {
    generator: ThreadRng,
    served: Ghost<Seq<Draw>>,
}

impl ThreadSource {
    /// A source that has served nothing yet.
    pub fn new() -> (source: ThreadSource)
        ensures
            source.served() == Seq::<Draw>::empty(),
    {
        ThreadSource { generator: thread_generator(), served: Ghost(Seq::empty()) }
    }
}

impl RangeSource for ThreadSource {
    closed spec fn served(&self) -> Seq<Draw> {
        self.served@
    }

    fn draw(&mut self, low: u8, high: u8) -> (value: u8) {
        let value = thread_draw(&mut self.generator, low, high);
        proof {
            self.served@ = self.served@.push(
                Draw { low: low as int, high: high as int, value: value as int },
            );
        }
        value
    }
}

/// The source made from a seed, for runs that can be repeated.
pub struct SeededSource {
    generator: StdRng,
    served: Ghost<Seq<Draw>>,
}

impl SeededSource {
    /// A source that has served nothing yet.
    pub fn from_seed(seed: u64) -> (source: SeededSource)
        ensures
            source.served() == Seq::<Draw>::empty(),
    {
        SeededSource { generator: seeded_generator(seed), served: Ghost(Seq::empty()) }
    }
}

impl RangeSource for SeededSource {
    closed spec fn served(&self) -> Seq<Draw> {
        self.served@
    }

    fn draw(&mut self, low: u8, high: u8) -> (value: u8) {
        let value = seeded_draw(&mut self.generator, low, high);
        proof {
            self.served@ = self.served@.push(
                Draw { low: low as int, high: high as int, value: value as int },
            );
        }
        value
    }
}

} // verus!
