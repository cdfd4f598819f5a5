//! The deterministic random stream that places teapot instances.
//!
//! The stream is rand's `StdRng` seeded from a fixed `u64`, drawn from only
//! through [`SceneRng::gen_i64`]. For one seed and one history of draw
//! bounds the stream yields one sequence of values, named here by the
//! uninterpreted function [`rng_draw`]; deterministic placement is stated
//! and proved in terms of that name.

use vstd::prelude::*;

verus! {

#[verifier::external_type_specification]
#[verifier::external_body]
pub struct ExStdRng(rand::rngs::StdRng);

/// The value rand's `StdRng` (seeded with `seed` via `seed_from_u64`)
/// returns for the last of the `gen_range` draws whose `(low, high)` bounds
/// are listed in `draws`. The generator is a deterministic function of its
/// seed and of the bounds of every draw made so far, so this is a function
/// of the two arguments alone.
pub uninterp spec fn rng_draw(seed: u64, draws: Seq<(i64, i64)>) -> i64;

/// A seeded random stream together with the ghost history of its draws.
pub struct SceneRng {
    inner: rand::rngs::StdRng,
    seed: Ghost<u64>,
    draws: Ghost<Seq<(i64, i64)>>,
}

impl SceneRng {
    /// The seed this stream was built from.
    pub closed spec fn seed(&self) -> u64 {
        self.seed@
    }

    /// The `(low, high)` bounds of every draw made so far, oldest first.
    pub closed spec fn draws(&self) -> Seq<(i64, i64)> {
        self.draws@
    }

    /// Relies on rand's `SeedableRng::seed_from_u64` for `StdRng`: builds
    /// the generator deterministically from the seed, and never panics.
    #[verifier::external_body]
    pub(crate) fn from_seed(seed: u64) -> (r: SceneRng)
        ensures
            r.seed() == seed,
            r.draws() == Seq::<(i64, i64)>::empty(),
    {
        SceneRng {
            inner: <rand::rngs::StdRng as rand::SeedableRng>::seed_from_u64(seed),
            seed: Ghost(seed),
            draws: Ghost(Seq::empty()),
        }
    }

    /// Relies on rand's `Rng::gen_range(low..high)`: returns a value in
    /// `[low, high)`, panicking only on an empty range, and — `StdRng`
    /// being a deterministic generator — returns, for one seed and one
    /// history of draw bounds, always the same value, named `rng_draw`.
    #[verifier::external_body]
    pub(crate) fn gen_i64(&mut self, low: i64, high: i64) -> (r: i64)
        requires
            low < high,
        ensures
            final(self).seed() == old(self).seed(),
            final(self).draws() == old(self).draws().push((low, high)),
            r == rng_draw(old(self).seed(), old(self).draws().push((low, high))),
            low <= r < high,
    {
        rand::Rng::gen_range(&mut self.inner, low..high)
    }
}

} // verus!
