//! The pseudo-random generator behind the synthetic source.
//!
//! The numbers come from `oorandom`'s 32-bit generator. Its state is two
//! plain numbers, which the library keeps in a [`Generator`]; for each draw
//! the outside generator is set up from them, asked once, and read back.
//! What it returns is not computed here: it is named, as a function of the
//! state before the draw, so that equal states give equal draws.
//!
//! The second number of the state, the increment, is odd in every
//! generator made from a seed, and no draw changes it. A draw from a range
//! asks for an odd increment: the outside generator draws again and again
//! until a number fits, and it is the odd increment that takes it through
//! all its states, so that one fits in the end.

use vstd::prelude::*;

verus! {

/// The state in which `oorandom::Rand32::new` leaves a generator made from
/// `seed`, as the pair that `oorandom::Rand32::state` returns.
pub uninterp spec fn seeded_state(seed: u64) -> (u64, u64);

/// What `oorandom::Rand32::rand_u32` returns for a generator in the state
/// `(state, inc)`, and the first number of the state in which it leaves the
/// generator.
pub uninterp spec fn drawn_u32(state: u64, inc: u64) -> (u32, u64);

/// What `oorandom::Rand32::rand_range` returns for a generator in the state
/// `(state, inc)` and the range from `start` up to, not including, `end`,
/// and the first number of the state in which it leaves the generator.
pub uninterp spec fn drawn_in_range(state: u64, inc: u64, start: u32, end: u32) -> (u32, u64);

/// State of the generator: the two numbers that `oorandom::Rand32::state`
/// returns and `oorandom::Rand32::from_state` takes.
#[derive(Clone, Copy, Debug, PartialEq, Eq, Structural)]
pub struct Generator {
    pub state: u64,
    pub inc: u64,
}

impl Generator {
    /// Whether the generator can draw from a range: its increment is odd.
    pub open spec fn wf(self) -> bool {
        self.inc % 2 == 1
    }

    /// The generator made from `seed`.
    pub open spec fn spec_new(seed: u64) -> Generator {
        Generator { state: seeded_state(seed).0, inc: seeded_state(seed).1 }
    }

    /// The next number, and the generator after it was drawn: the increment
    /// stays.
    pub open spec fn spec_u32(self) -> (u32, Generator) {
        let (word, state) = drawn_u32(self.state, self.inc);
        (word, Generator { state, inc: self.inc })
    }

    /// The next number from `start` up to, not including, `end`, and the
    /// generator after it was drawn: the increment stays.
    pub open spec fn spec_range(self, start: u32, end: u32) -> (u32, Generator) {
        let (number, state) = drawn_in_range(self.state, self.inc, start, end);
        (number, Generator { state, inc: self.inc })
    }
}

/// Calls `oorandom::Rand32::new` and reads the state back with
/// `oorandom::Rand32::state`. Claims that the state is the one named by
/// [`seeded_state`], since the outside function computes it from the seed
/// alone, and that the increment is odd: the outside function sets its
/// lowest bit, and nothing changes it after.
#[verifier::external_body]
pub(crate) fn seeded(seed: u64) -> (generator: Generator)
    ensures
        (generator.state, generator.inc) == seeded_state(seed),
        generator.inc % 2 == 1,
{
    let (state, inc) = oorandom::Rand32::new(seed).state();
    Generator { state, inc }
}

/// Calls `oorandom::Rand32::rand_u32` on a generator set up from
/// `generator` by `oorandom::Rand32::from_state`, and reads the state back.
/// Claims that the number and the new state are those named by
/// [`drawn_u32`], since the outside function computes both from the state
/// alone, and that the increment stays: the outside function only reads it.
#[verifier::external_body]
pub(crate) fn rand_u32(generator: &mut Generator) -> (word: u32)
    ensures
        (word, final(generator).state) == drawn_u32(old(generator).state, old(generator).inc),
        final(generator).inc == old(generator).inc,
{
    let mut prng = oorandom::Rand32::from_state((generator.state, generator.inc));
    let word = prng.rand_u32();
    (generator.state, generator.inc) = prng.state();
    word
}

/// Calls `oorandom::Rand32::rand_range` with the range `start..end` on a
/// generator set up from `generator` by `oorandom::Rand32::from_state`, and
/// reads the state back. Claims that the number and the new state are those
/// named by [`drawn_in_range`]; that the number lies in the range, as the
/// outside function's last line shows: the high half of a product with
/// `end - start`, plus `start`; and that the increment stays, which the
/// outside function only reads.
///
/// The outside function asks for a range that is not empty. It draws until
/// a number fits, so it is called only with an odd increment, with which
/// the generator goes through every state; with an even one it may draw the
/// same numbers for ever.
#[verifier::external_body]
pub(crate) fn rand_range(generator: &mut Generator, start: u32, end: u32) -> (number: u32)
    requires
        start < end,
        old(generator).inc % 2 == 1,
    ensures
        (number, final(generator).state) == drawn_in_range(
            old(generator).state,
            old(generator).inc,
            start,
            end,
        ),
        final(generator).inc == old(generator).inc,
        start <= number < end,
{
    let mut prng = oorandom::Rand32::from_state((generator.state, generator.inc));
    let number = prng.rand_range(start..end);
    (generator.state, generator.inc) = prng.state();
    number
}

} // verus!
