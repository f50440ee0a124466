//! Random seed material for candidate keys.

use vstd::prelude::*;
use rand::rngs::StdRng;
use rand::RngCore;
use rand::SeedableRng;

verus! {

/// `rand::rngs::StdRng`, opaque.
#[verifier::external_type_specification]
#[verifier::external_body]
pub struct ExStdRng(StdRng);

/// `rand::Error`, opaque.
#[verifier::external_type_specification]
#[verifier::external_body]
pub struct ExRandError(rand::Error);

/// The generator could not be seeded.
#[derive(Debug, Clone, Copy, PartialEq, Eq)]
pub struct EntropyError {}

/// A private stream of random seeds. Each worker owns one; nothing is
/// shared between two sources.
pub struct EntropySource {
    generator: StdRng,
}

/// `StdRng::from_rng` on `rand::thread_rng()`: a fresh generator seeded from
/// the calling thread's generator. The only error of `from_rng` is the one
/// that `try_fill_bytes` of the generator it reads from gives, and that of
/// the thread's generator gives none: it goes to `BlockRng::try_fill_bytes`,
/// which fills the buffer and returns `Ok(())`. So the outcome is `Ok`.
/// Nothing is claimed of the generator that comes back.
#[verifier::external_body]
fn seeded_generator() -> (r: Result<StdRng, rand::Error>)
    ensures
        r is Ok,
{
    StdRng::from_rng(rand::thread_rng())
}

/// `StdRng::from_seed`: a generator whose output is determined by the seed.
/// Nothing is claimed of it.
#[verifier::external_body]
fn generator_from_seed(seed: [u8; 32]) -> StdRng {
    StdRng::from_seed(seed)
}

/// `RngCore::fill_bytes` of `StdRng` on a buffer of thirty-two bytes: the
/// buffer comes back filled with the generator's next output. Nothing is
/// claimed of the bytes.
#[verifier::external_body]
fn next_seed(generator: &mut StdRng) -> [u8; 32] {
    let mut seed = [0u8; 32];
    generator.fill_bytes(&mut seed);
    seed
}

/// `RngCore::fill_bytes` of `rand::thread_rng()` on a buffer of thirty-two
/// bytes. Nothing is claimed of the bytes.
#[verifier::external_body]
pub(crate) fn thread_seed() -> [u8; 32] {
    let mut seed = [0u8; 32];
    rand::thread_rng().fill_bytes(&mut seed);
    seed
}

impl EntropySource {
    /// A source seeded from the calling thread's generator. Seeding from
    /// that generator does not fail.
    pub fn new() -> (r: Result<EntropySource, EntropyError>)
        ensures
            r is Ok,
    {
        match seeded_generator() {
            Ok(generator) => Ok(EntropySource { generator }),
            Err(_) => Err(EntropyError {}),
        }
    }

    /// A source whose stream is determined by `seed`, for searches that can
    /// be repeated.
    pub fn from_seed(seed: [u8; 32]) -> EntropySource {
        EntropySource { generator: generator_from_seed(seed) }
    }

    /// The next thirty-two bytes of the stream. Every value is possible.
    pub fn draw(&mut self) -> [u8; 32] {
        next_seed(&mut self.generator)
    }
}

} // verus!
