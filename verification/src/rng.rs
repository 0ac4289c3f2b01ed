//! The deterministic random stream that varies increase placement: rand's
//! `StdRng`, seeded once per computation run from a fixed constant and
//! consumed strictly in row-pair order. The wrapper records the seed and the
//! bounds of the draws already taken, so every draw is pinned to a named
//! function of them and reproducibility is provable.

use vstd::prelude::*;
use rand::Rng;
use rand::SeedableRng;

verus! {

/// rand's standard generator, declared so a value of it can live in a field;
/// its inside stays opaque to verification.
#[verifier::external_type_specification]
#[verifier::external_body]
pub struct ExStdRng(rand::rngs::StdRng);

/// The value rand's `gen_range(0..bound)` returns from a `StdRng` built by
/// `seed_from_u64(seed)` after it has already served draws with the listed
/// bounds, in order. In this crate version `StdRng` is the ChaCha12 cipher
/// and `seed_from_u64` expands the seed with a fixed integer recurrence:
/// both are pure functions of their inputs, the same in every process and on
/// every machine, which is what makes a pattern reproducible across runs.
pub uninterp spec fn std_draw(seed: u64, past: Seq<u32>, bound: u32) -> u32;

/// A deterministically seeded random stream: the generator together with the
/// seed it was built from and the record of bounds already drawn, which pin
/// every future draw.
pub struct SeededRng {
    rng: rand::rngs::StdRng,
    seed: u64,
    drawn: Vec<u32>,
}

impl SeededRng {
    /// The seed this stream was built from.
    pub closed spec fn spec_seed(self) -> u64 {
        self.seed
    }

    /// The bounds of the draws taken so far, in order.
    pub closed spec fn spec_drawn(self) -> Seq<u32> {
        self.drawn@
    }

    /// Relies on rand's `StdRng::seed_from_u64`: builds the generator
    /// deterministically from the 64-bit seed; no draws are taken yet.
    #[verifier::external_body]
    pub fn new(seed: u64) -> (r: SeededRng)
        ensures
            r.spec_seed() == seed,
            r.spec_drawn() == Seq::<u32>::empty(),
    {
        SeededRng { rng: rand::rngs::StdRng::seed_from_u64(seed), seed, drawn: Vec::new() }
    }

    /// Relies on rand's `Rng::gen_range` over `0..bound`: the range is not
    /// empty, so the call cannot panic, and the result is below `bound` and
    /// determined by the seed and the draws taken before this one.
    #[verifier::external_body]
    pub fn draw(&mut self, bound: u32) -> (r: u32)
        requires
            bound >= 1,
        ensures
            r < bound,
            r == std_draw(old(self).spec_seed(), old(self).spec_drawn(), bound),
            final(self).spec_seed() == old(self).spec_seed(),
            final(self).spec_drawn() == old(self).spec_drawn().push(bound),
    {
        self.drawn.push(bound);
        self.rng.gen_range(0..bound)
    }
}

} // verus!
