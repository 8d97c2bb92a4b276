//! Random choice, through the `rand` and `rand_xoshiro` crates.
//!
//! Randomness enters the core in two places: which player an assault
//! dive targets, and the attack scheduler's cadence jitter.  Nothing is
//! promised of a drawn value beyond its range, and every decision made
//! on it is taken by verified code that holds for any value in range.

use vstd::prelude::*;
use rand::{Rng, SeedableRng};

verus! {

#[verifier::external_type_specification]
#[verifier::external_body]
pub struct ExXoshiro128Plus(rand_xoshiro::Xoshiro128Plus);

/// The core's random source: a xoshiro generator seeded once.
pub struct GameRng {
    /// The wrapped generator.
    pub inner: rand_xoshiro::Xoshiro128Plus,
}

/// Relies on rand::thread_rng and rand_core::SeedableRng::from_seed:
/// seeds a fresh xoshiro generator from the thread-local generator.
#[verifier::external_body]
fn fresh_xoshiro() -> rand_xoshiro::Xoshiro128Plus {
    rand_xoshiro::Xoshiro128Plus::from_seed(rand::thread_rng().gen())
}

/// Relies on rand_core::SeedableRng::seed_from_u64: derives a generator
/// deterministically from one word.
#[verifier::external_body]
fn xoshiro_from_u64(seed: u64) -> rand_xoshiro::Xoshiro128Plus {
    rand_xoshiro::Xoshiro128Plus::seed_from_u64(seed)
}

/// Relies on rand::Rng::gen_range: returns a value in `[0, n)`; it
/// panics only when the range is empty, which the precondition rules
/// out.
#[verifier::external_body]
fn xoshiro_index(rng: &mut rand_xoshiro::Xoshiro128Plus, n: usize) -> (r: usize)
    requires
        n >= 1,
    ensures
        r < n,
{
    rng.gen_range(0, n)
}

impl GameRng {
    /// Builds a generator seeded from the machine's entropy.
    pub fn new() -> GameRng {
        GameRng { inner: fresh_xoshiro() }
    }

    /// Builds a generator from a fixed seed (deterministic runs).
    pub fn with_seed(seed: u64) -> GameRng {
        GameRng { inner: xoshiro_from_u64(seed) }
    }

    /// Draws an index in `[0, n)`.
    pub fn gen_index(&mut self, n: usize) -> (r: usize)
        requires
            n >= 1,
        ensures
            r < n,
    {
        xoshiro_index(&mut self.inner, n)
    }
}

} // verus!
