//! The clock of the tone synthesizer. It counts samples, so that the time of
//! a sample is exact: the count divided by the sample rate.

use vstd::prelude::*;

verus! {

/// Samples in a second. The audio device has to run at this rate.
pub const SAMPLE_RATE: u32 = 44_100;

/// The time that has passed in a stream of samples. It starts at nothing,
/// moves on by one sample at a time, and is never set back.
#[derive(Debug)]
pub struct SampleClock {
    elapsed: u64,
}

impl View for SampleClock {
    /// The samples that have passed.
    type V = nat;

    closed spec fn view(&self) -> nat {
        self.elapsed as nat
    }
}

impl SampleClock {
    /// A clock at the start of its stream.
    pub fn new() -> (clock: SampleClock)
        ensures
            clock@ == 0,
    {
        SampleClock { elapsed: 0 }
    }

    /// The samples that have passed.
    pub fn elapsed_samples(&self) -> (count: u64)
        ensures
            count == self@,
    {
        self.elapsed
    }

    /// Moves the clock on by one sample and gives the new count, which is the
    /// time of the sample to play next. No two samples share a time.
    pub fn tick(&mut self) -> (now: u64)
        requires
            old(self)@ < u64::MAX,
        ensures
            final(self)@ == old(self)@ + 1,
            now == final(self)@,
    {
        self.elapsed = self.elapsed + 1;
        self.elapsed
    }
}

} // verus!
