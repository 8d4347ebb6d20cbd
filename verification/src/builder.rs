//! The seeded builder of hashers.

use vstd::prelude::*;
use rand::rngs::ThreadRng;
use rand::Rng;
use crate::hasher::Murmur3;
use crate::model::Stream;

verus! {

/// A builder of [`Murmur3`] hashers that all start from one seed.
///
/// A table that hashes its keys through one builder sees equal keys hash
/// alike for as long as it lives, while another builder, with another
/// seed, gives the same keys other hashes.
pub struct BuildMurmur {
    seed: u32,
}

impl View for BuildMurmur {
    type V = u32;

    /// The seed that every hasher of this builder starts from.
    closed spec fn view(&self) -> u32 {
        self.seed
    }
}

/// `rand::rngs::ThreadRng`, the handle to the random number generator of
/// the current thread. Nothing inside it is visible here.
#[verifier::external_type_specification]
#[verifier::external_body]
pub struct ExThreadRng(ThreadRng);

/// Calls `rand::thread_rng`, which hands out the generator of the current
/// thread.
///
/// Nothing is claimed of the handle. On its first use in a thread the
/// generator is seeded from the operating system, and `rand` panics if the
/// system yields no entropy.
#[verifier::external_body]
fn thread_generator() -> ThreadRng {
    rand::thread_rng()
}

/// Calls `Rng::gen` on the generator for a `u32`.
///
/// Nothing is claimed of the value: every `u32` may come back, and two
/// calls need not agree.
#[verifier::external_body]
fn draw_seed(rng: &mut ThreadRng) -> u32 {
    rng.gen()
}

impl BuildMurmur {
    /// A builder with a seed drawn at random from the generator of the
    /// current thread.
    ///
    /// Which seed it gets is not determined: two builders made this way
    /// are meant to differ. The call panics only where `rand` finds no
    /// entropy to seed the thread's generator with.
    pub fn new() -> BuildMurmur {
        let mut rng: ThreadRng = thread_generator();
        BuildMurmur::with_seed(draw_seed(&mut rng))
    }

    /// A builder with the given seed.
    pub fn with_seed(seed: u32) -> (b: BuildMurmur)
        ensures
            b@ == seed,
    {
        BuildMurmur { seed }
    }

    /// The seed of this builder.
    pub fn seed(&self) -> (seed: u32)
        ensures
            seed == self@,
    {
        self.seed
    }
}

impl core::hash::BuildHasher for BuildMurmur {
    type Hasher = Murmur3;

    /// A fresh hasher that starts from this builder's seed.
    fn build_hasher(&self) -> (h: Murmur3)
        ensures
            h@ == Stream::fresh(self@),
    {
        Murmur3::new(self.seed)
    }
}

} // verus!
