//! Hasher factories with a random seed or secret, for hash tables that must
//! not be predictable from outside.
use crate::bytes::{le_u32, le_u64, u32_from_le, u64_from_le};
use crate::entropy::{random_outcome, EntropyPool};
use crate::error::EntropyError;
use crate::primitive::Keying;
use crate::xxh3::{XXH3_128, XXH3_64};
use crate::xxhash::{XXH32, XXH64};
use vstd::prelude::*;

verus! {

/// A factory of [`XXH32`] hashers that all start from one random seed.
#[derive(Debug)]
pub struct RandomStateXXH32 {
    pub seed: u32,
}

impl RandomStateXXH32 {
    /// A factory whose seed comes from the operating system's random source,
    /// or the report that the source failed.
    pub fn new() -> (result: Result<RandomStateXXH32, EntropyError>) {
        let mut bytes = [0u8; 4];
        let outcome = getrandom::getrandom(&mut bytes);
        match random_outcome(outcome, bytes) {
            Ok(bytes) => Ok(RandomStateXXH32::from_random_bytes(bytes)),
            Err(error) => Err(error),
        }
    }

    /// The factory whose seed is made of four given bytes, least significant
    /// first.
    pub fn from_random_bytes(bytes: [u8; 4]) -> (state: RandomStateXXH32)
        ensures
            state.seed == le_u32(bytes@),
    {
        RandomStateXXH32 { seed: u32_from_le(&bytes) }
    }

    /// A fresh hasher under the factory's seed.
    pub fn build_hasher(&self) -> (hasher: XXH32)
        ensures
            hasher.seed() == self.seed,
            hasher.absorbed() == Seq::<u8>::empty(),
    {
        XXH32::with_seed(self.seed)
    }
}

impl Clone for RandomStateXXH32 {
    fn clone(&self) -> (copy: Self)
        ensures
            copy == *self,
    {
        RandomStateXXH32 { seed: self.seed }
    }
}

/// A factory of [`XXH64`] hashers that all start from one random seed.
#[derive(Debug)]
pub struct RandomStateXXH64 {
    pub seed: u64,
}

impl RandomStateXXH64 {
    /// A factory whose seed comes from the operating system's random source,
    /// or the report that the source failed.
    pub fn new() -> (result: Result<RandomStateXXH64, EntropyError>) {
        let mut bytes = [0u8; 8];
        let outcome = getrandom::getrandom(&mut bytes);
        match random_outcome(outcome, bytes) {
            Ok(bytes) => Ok(RandomStateXXH64::from_random_bytes(bytes)),
            Err(error) => Err(error),
        }
    }

    /// The factory whose seed is made of eight given bytes, least
    /// significant first.
    pub fn from_random_bytes(bytes: [u8; 8]) -> (state: RandomStateXXH64)
        ensures
            state.seed == le_u64(bytes@),
    {
        RandomStateXXH64 { seed: u64_from_le(&bytes) }
    }
}

impl Clone for RandomStateXXH64 {
    fn clone(&self) -> (copy: Self)
        ensures
            copy == *self,
    {
        RandomStateXXH64 { seed: self.seed }
    }
}

impl std::hash::BuildHasher for RandomStateXXH64 {
    type Hasher = XXH64;

    /// A fresh hasher under the factory's seed.
    fn build_hasher(&self) -> (hasher: XXH64)
        ensures
            hasher.seed() == self.seed,
            hasher.absorbed() == Seq::<u8>::empty(),
    {
        XXH64::with_seed(self.seed)
    }
}

/// A factory of 64-bit XXH3 hashers that are all keyed by one random pool.
#[derive(Debug)]
pub struct RandomStateXXH3_64 {
    pub pool: EntropyPool,
}

impl RandomStateXXH3_64 {
    /// A factory whose pool comes from the operating system's random source,
    /// or the report that the source failed.
    pub fn new() -> (result: Result<RandomStateXXH3_64, EntropyError>) {
        match EntropyPool::randomize() {
            Ok(pool) => Ok(RandomStateXXH3_64::from_pool(pool)),
            Err(error) => Err(error),
        }
    }

    /// The factory that keys every hasher by the given pool.
    pub fn from_pool(pool: EntropyPool) -> (state: RandomStateXXH3_64)
        ensures
            state.pool == pool,
    {
        RandomStateXXH3_64 { pool }
    }
}

impl Clone for RandomStateXXH3_64 {
    fn clone(&self) -> (copy: Self)
        ensures
            copy.pool@ == self.pool@,
    {
        RandomStateXXH3_64 { pool: self.pool.clone() }
    }
}

impl std::hash::BuildHasher for RandomStateXXH3_64 {
    type Hasher = XXH3_64<'static>;

    /// A fresh hasher keyed by a copy of the factory's pool.
    fn build_hasher(&self) -> (hasher: XXH3_64<'static>)
        ensures
            hasher.keying() == Keying::Keyed(self.pool@),
            hasher.absorbed() == Seq::<u8>::empty(),
    {
        XXH3_64::with_entropy(&self.pool)
    }
}

/// A factory of 128-bit XXH3 hashers that are all keyed by one random pool.
#[derive(Debug)]
pub struct RandomStateXXH3_128 {
    pub pool: EntropyPool,
}

impl RandomStateXXH3_128 {
    /// A factory whose pool comes from the operating system's random source,
    /// or the report that the source failed.
    pub fn new() -> (result: Result<RandomStateXXH3_128, EntropyError>) {
        match EntropyPool::randomize() {
            Ok(pool) => Ok(RandomStateXXH3_128::from_pool(pool)),
            Err(error) => Err(error),
        }
    }

    /// The factory that keys every hasher by the given pool.
    pub fn from_pool(pool: EntropyPool) -> (state: RandomStateXXH3_128)
        ensures
            state.pool == pool,
    {
        RandomStateXXH3_128 { pool }
    }

    /// A fresh hasher keyed by a copy of the factory's pool.
    pub fn build_hasher(&self) -> (hasher: XXH3_128<'static>)
        ensures
            hasher.keying() == Keying::Keyed(self.pool@),
            hasher.absorbed() == Seq::<u8>::empty(),
    {
        XXH3_128::with_entropy(&self.pool)
    }
}

impl Clone for RandomStateXXH3_128 {
    fn clone(&self) -> (copy: Self)
        ensures
            copy.pool@ == self.pool@,
    {
        RandomStateXXH3_128 { pool: self.pool.clone() }
    }
}

} // verus!
