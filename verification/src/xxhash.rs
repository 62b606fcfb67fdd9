//! The classic 32-bit and 64-bit xxHash algorithms: one-shot and streaming.
use crate::backend::{
    xxh32_oneshot, xxh32_state_clone, xxh32_state_digest, xxh32_state_input, xxh32_state_new,
    xxh32_state_seed, xxh32_state_update, xxh32_value, xxh64_oneshot, xxh64_state_clone,
    xxh64_state_digest, xxh64_state_input, xxh64_state_new, xxh64_state_seed,
    xxh64_state_update, xxh64_value,
};
use vstd::prelude::*;
use vstd::slice::slice_subrange;
use xxhash_rust::xxh32::Xxh32;
use xxhash_rust::xxh64::Xxh64;

verus! {

/// The most bytes that [`XXH32::write`] hands to the streaming state in one
/// step. The state counts the length of a step in 32 bits.
pub const XXH32_PIECE: usize = 0x100_0000;

/// A streaming XXH32 hasher.
///
/// It is modelled by the seed it was made with and the bytes written so far;
/// `finish` yields the one-shot digest of exactly those.
pub struct XXH32 {
    state: Xxh32,
}

impl XXH32 {
    /// The seed this hasher was made with.
    pub closed spec fn seed(&self) -> u32 {
        xxh32_state_seed(self.state)
    }

    /// All bytes written so far, in order.
    pub closed spec fn absorbed(&self) -> Seq<u8> {
        xxh32_state_input(self.state)
    }

    /// The digest that `finish` returns in this state.
    pub open spec fn digest(&self) -> u32 {
        xxh32_value(self.seed(), self.absorbed())
    }

    /// One-shot hashing with seed 0.
    pub fn hash(bytes: &[u8]) -> (digest: u32)
        ensures
            digest == xxh32_value(0, bytes@),
    {
        XXH32::hash_with_seed(0, bytes)
    }

    /// One-shot hashing with a seed.
    pub fn hash_with_seed(seed: u32, bytes: &[u8]) -> (digest: u32)
        ensures
            digest == xxh32_value(seed, bytes@),
    {
        xxh32_oneshot(seed, bytes)
    }

    /// A streaming hasher with seed 0 that has been fed nothing.
    pub fn new() -> (hasher: XXH32)
        ensures
            hasher.seed() == 0,
            hasher.absorbed() == Seq::<u8>::empty(),
    {
        XXH32::with_seed(0)
    }

    /// A streaming hasher with the given seed that has been fed nothing.
    pub fn with_seed(seed: u32) -> (hasher: XXH32)
        ensures
            hasher.seed() == seed,
            hasher.absorbed() == Seq::<u8>::empty(),
    {
        XXH32 { state: xxh32_state_new(seed) }
    }

    /// Appends `bytes` to the input. A slice longer than
    /// [`XXH32_PIECE`] is handed to the streaming state piece by piece.
    pub fn write(&mut self, bytes: &[u8])
        ensures
            final(self).seed() == old(self).seed(),
            final(self).absorbed() == old(self).absorbed() + bytes@,
    {
        let ghost before = self.absorbed();
        let mut done: usize = 0;
        while bytes.len() - done > XXH32_PIECE
            invariant
                done <= bytes.len(),
                self.seed() == old(self).seed(),
                self.absorbed() == before + bytes@.subrange(0, done as int),
            decreases bytes.len() - done,
        {
            let piece = slice_subrange(bytes, done, done + XXH32_PIECE);
            xxh32_state_update(&mut self.state, piece);
            assert(bytes@.subrange(0, done as int) + piece@ =~= bytes@.subrange(
                0,
                done + XXH32_PIECE,
            ));
            done += XXH32_PIECE;
        }
        let rest = slice_subrange(bytes, done, bytes.len());
        xxh32_state_update(&mut self.state, rest);
        assert(bytes@.subrange(0, done as int) + rest@ =~= bytes@);
    }

    /// The digest of everything written so far; the hasher is left as it was
    /// and may be written to again.
    pub fn finish(&self) -> (digest: u32)
        ensures
            digest == self.digest(),
    {
        xxh32_state_digest(&self.state)
    }
}

impl Clone for XXH32 {
    fn clone(&self) -> (copy: Self)
        ensures
            copy.seed() == self.seed(),
            copy.absorbed() == self.absorbed(),
    {
        XXH32 { state: xxh32_state_clone(&self.state) }
    }
}

impl Default for XXH32 {
    fn default() -> (hasher: Self)
        ensures
            hasher.seed() == 0,
            hasher.absorbed() == Seq::<u8>::empty(),
    {
        XXH32::new()
    }
}

/// A streaming XXH64 hasher, modelled like [`XXH32`].
pub struct XXH64 {
    state: Xxh64,
}

impl XXH64 {
    /// The seed this hasher was made with.
    pub closed spec fn seed(&self) -> u64 {
        xxh64_state_seed(self.state)
    }

    /// All bytes written so far, in order.
    pub closed spec fn absorbed(&self) -> Seq<u8> {
        xxh64_state_input(self.state)
    }

    /// The digest that `finish` returns in this state.
    pub open spec fn digest(&self) -> u64 {
        xxh64_value(self.seed(), self.absorbed())
    }

    /// One-shot hashing with seed 0.
    pub fn hash(bytes: &[u8]) -> (digest: u64)
        ensures
            digest == xxh64_value(0, bytes@),
    {
        XXH64::hash_with_seed(0, bytes)
    }

    /// One-shot hashing with a seed.
    pub fn hash_with_seed(seed: u64, bytes: &[u8]) -> (digest: u64)
        ensures
            digest == xxh64_value(seed, bytes@),
    {
        xxh64_oneshot(seed, bytes)
    }

    /// A streaming hasher with seed 0 that has been fed nothing.
    pub fn new() -> (hasher: XXH64)
        ensures
            hasher.seed() == 0,
            hasher.absorbed() == Seq::<u8>::empty(),
    {
        XXH64::with_seed(0)
    }

    /// A streaming hasher with the given seed that has been fed nothing.
    pub fn with_seed(seed: u64) -> (hasher: XXH64)
        ensures
            hasher.seed() == seed,
            hasher.absorbed() == Seq::<u8>::empty(),
    {
        XXH64 { state: xxh64_state_new(seed) }
    }

    /// Appends `bytes` to the input.
    pub fn write(&mut self, bytes: &[u8])
        ensures
            final(self).seed() == old(self).seed(),
            final(self).absorbed() == old(self).absorbed() + bytes@,
    {
        xxh64_state_update(&mut self.state, bytes)
    }

    /// The digest of everything written so far; the hasher is left as it was
    /// and may be written to again.
    pub fn finish(&self) -> (digest: u64)
        ensures
            digest == self.digest(),
    {
        xxh64_state_digest(&self.state)
    }
}

impl Clone for XXH64 {
    fn clone(&self) -> (copy: Self)
        ensures
            copy.seed() == self.seed(),
            copy.absorbed() == self.absorbed(),
    {
        XXH64 { state: xxh64_state_clone(&self.state) }
    }
}

impl Default for XXH64 {
    fn default() -> (hasher: Self)
        ensures
            hasher.seed() == 0,
            hasher.absorbed() == Seq::<u8>::empty(),
    {
        XXH64::new()
    }
}

impl std::hash::Hasher for XXH64 {
    fn write(&mut self, bytes: &[u8])
        ensures
            final(self).seed() == old(self).seed(),
            final(self).absorbed() == old(self).absorbed() + bytes@,
    {
        xxh64_state_update(&mut self.state, bytes)
    }

    fn finish(&self) -> (digest: u64)
        ensures
            digest == self.digest(),
    {
        xxh64_state_digest(&self.state)
    }
}

} // verus!
