//! The XXH3 family: 64-bit and 128-bit digests, plain, seeded or keyed by a
//! secret, one-shot and streaming.
use crate::backend::{
    xxh3_128_keyed_value, xxh3_128_oneshot, xxh3_128_oneshot_keyed, xxh3_128_oneshot_seeded,
    xxh3_128_seeded_value, xxh3_128_value, xxh3_64_keyed_value, xxh3_64_oneshot,
    xxh3_64_oneshot_keyed, xxh3_64_oneshot_seeded, xxh3_64_seeded_value, xxh3_64_value,
    xxh3_state_clone, xxh3_state_digest128, xxh3_state_digest64, xxh3_state_input,
    xxh3_state_keyed, xxh3_state_new, xxh3_state_secret, xxh3_state_seed, xxh3_state_seeded,
    xxh3_state_update,
};
use crate::entropy::{EntropyPool, ENTROPY_POOL_SIZE, MIN_SECRET_SIZE};
use crate::error::HashError;
use crate::primitive::{HashPrimitive, Keying};
use crate::secret::SecretRef;
use vstd::prelude::*;
use xxhash_rust::xxh3::Xxh3;

verus! {

/// The 64-bit XXH3 digest of `data` under `keying`.
pub open spec fn xxh3_64_digest(keying: Keying, data: Seq<u8>) -> u64 {
    match keying {
        Keying::Unkeyed => xxh3_64_value(data),
        Keying::Seeded(seed) => xxh3_64_seeded_value(seed, data),
        Keying::Keyed(secret) => xxh3_64_keyed_value(secret, data),
    }
}

/// The 128-bit XXH3 digest of `data` under `keying`.
pub open spec fn xxh3_128_digest(keying: Keying, data: Seq<u8>) -> u128 {
    match keying {
        Keying::Unkeyed => xxh3_128_value(data),
        Keying::Seeded(seed) => xxh3_128_seeded_value(seed, data),
        Keying::Keyed(secret) => xxh3_128_keyed_value(secret, data),
    }
}

/// The streaming state behind both digest widths.
///
/// The streaming code of the backend takes a secret of exactly
/// [`ENTROPY_POOL_SIZE`] bytes. A borrowed secret of another length is kept
/// beside the bytes written, and the digest is taken in one call when it is
/// asked for.
pub(crate) enum Xxh3Core<'a> {
    Native(Xxh3),
    Deferred { secret: SecretRef<'a>, data: Vec<u8> },
}

impl<'a> Xxh3Core<'a> {
    pub(crate) open spec fn keying(&self) -> Keying {
        match self {
            Xxh3Core::Native(state) => match xxh3_state_secret(*state) {
                Some(secret) => Keying::Keyed(secret),
                None => match xxh3_state_seed(*state) {
                    Some(seed) => Keying::Seeded(seed),
                    None => Keying::Unkeyed,
                },
            },
            Xxh3Core::Deferred { secret, .. } => Keying::Keyed(secret@),
        }
    }

    pub(crate) open spec fn absorbed(&self) -> Seq<u8> {
        match self {
            Xxh3Core::Native(state) => xxh3_state_input(*state),
            Xxh3Core::Deferred { data, .. } => data@,
        }
    }

    pub(crate) fn new() -> (core: Xxh3Core<'static>)
        ensures
            core.keying() == Keying::Unkeyed,
            core.absorbed() == Seq::<u8>::empty(),
    {
        Xxh3Core::Native(xxh3_state_new())
    }

    pub(crate) fn with_seed(seed: u64) -> (core: Xxh3Core<'static>)
        ensures
            core.keying() == Keying::Seeded(seed),
            core.absorbed() == Seq::<u8>::empty(),
    {
        Xxh3Core::Native(xxh3_state_seeded(seed))
    }

    pub(crate) fn with_pool(pool: &EntropyPool) -> (core: Xxh3Core<'static>)
        ensures
            core.keying() == Keying::Keyed(pool@),
            core.absorbed() == Seq::<u8>::empty(),
    {
        Xxh3Core::Native(xxh3_state_keyed(&pool.entropy))
    }

    pub(crate) fn with_secret(secret: SecretRef<'a>) -> (core: Xxh3Core<'a>)
        ensures
            core.keying() == Keying::Keyed(secret@),
            core.absorbed() == Seq::<u8>::empty(),
    {
        let bytes = secret.as_bytes();
        if bytes.len() == ENTROPY_POOL_SIZE {
            let mut copy = [0u8; 192];
            let mut i: usize = 0;
            while i < 192
                invariant
                    i <= 192,
                    bytes@.len() == 192,
                    forall|j: int| 0 <= j < i ==> copy@[j] == bytes@[j],
                decreases 192 - i,
            {
                copy[i] = bytes[i];
                i += 1;
            }
            assert(copy@ =~= bytes@);
            Xxh3Core::Native(xxh3_state_keyed(&copy))
        } else {
            Xxh3Core::Deferred { secret, data: Vec::new() }
        }
    }

    pub(crate) fn write(&mut self, bytes: &[u8])
        ensures
            final(self).keying() == old(self).keying(),
            final(self).absorbed() == old(self).absorbed() + bytes@,
    {
        match self {
            Xxh3Core::Native(state) => xxh3_state_update(state, bytes),
            Xxh3Core::Deferred { data, .. } => data.extend_from_slice(bytes),
        }
    }

    pub(crate) fn digest64(&self) -> (digest: u64)
        ensures
            digest == xxh3_64_digest(self.keying(), self.absorbed()),
    {
        match self {
            Xxh3Core::Native(state) => xxh3_state_digest64(state),
            Xxh3Core::Deferred { secret, data } => xxh3_64_oneshot_keyed(
                secret.as_bytes(),
                data.as_slice(),
            ),
        }
    }

    pub(crate) fn digest128(&self) -> (digest: u128)
        ensures
            digest == xxh3_128_digest(self.keying(), self.absorbed()),
    {
        match self {
            Xxh3Core::Native(state) => xxh3_state_digest128(state),
            Xxh3Core::Deferred { secret, data } => xxh3_128_oneshot_keyed(
                secret.as_bytes(),
                data.as_slice(),
            ),
        }
    }

    pub(crate) fn fork(&self) -> (copy: Xxh3Core<'a>)
        ensures
            copy.keying() == self.keying(),
            copy.absorbed() == self.absorbed(),
    {
        match self {
            Xxh3Core::Native(state) => Xxh3Core::Native(xxh3_state_clone(state)),
            Xxh3Core::Deferred { secret, data } => Xxh3Core::Deferred {
                secret: *secret,
                data: data.clone(),
            },
        }
    }
}

/// A streaming 64-bit XXH3 hasher.
///
/// It is modelled by its [`keying`](Self::keying) and the bytes written so
/// far; `finish` yields the one-shot digest of exactly those.
pub struct XXH3_64<'a> {
    core: Xxh3Core<'a>,
}

impl<'a> XXH3_64<'a> {
    /// How this hasher was keyed when it was made.
    pub open spec fn keying(&self) -> Keying {
        HashPrimitive::keying(self)
    }

    /// All bytes written so far, in order.
    pub open spec fn absorbed(&self) -> Seq<u8> {
        HashPrimitive::absorbed(self)
    }

    /// The digest that `finish` returns in this state.
    pub open spec fn digest(&self) -> u64 {
        xxh3_64_digest(self.keying(), self.absorbed())
    }

    /// One-shot hashing.
    pub fn hash(bytes: &[u8]) -> (digest: u64)
        ensures
            digest == xxh3_64_digest(Keying::Unkeyed, bytes@),
    {
        xxh3_64_oneshot(bytes)
    }

    /// One-shot hashing under a secret of any length from
    /// [`MIN_SECRET_SIZE`] up. A shorter secret is refused before anything
    /// is hashed.
    pub fn hash_with_entropy_buffer(entropy: &[u8], bytes: &[u8]) -> (result: Result<
        u64,
        HashError,
    >)
        ensures
            entropy@.len() >= MIN_SECRET_SIZE ==> result == Ok::<u64, HashError>(
                xxh3_64_digest(Keying::Keyed(entropy@), bytes@),
            ),
            entropy@.len() < MIN_SECRET_SIZE ==> result == Err::<u64, HashError>(
                HashError::InvalidSecretLength,
            ),
    {
        if entropy.len() < MIN_SECRET_SIZE {
            return Err(HashError::InvalidSecretLength);
        }
        Ok(xxh3_64_oneshot_keyed(entropy, bytes))
    }

    /// One-shot hashing under an entropy pool.
    pub fn hash_with_entropy(entropy: &EntropyPool, bytes: &[u8]) -> (digest: u64)
        ensures
            digest == xxh3_64_digest(Keying::Keyed(entropy@), bytes@),
    {
        xxh3_64_oneshot_keyed(entropy.entropy.as_slice(), bytes)
    }

    /// One-shot hashing under a seed.
    pub fn hash_with_seed(seed: u64, bytes: &[u8]) -> (digest: u64)
        ensures
            digest == xxh3_64_digest(Keying::Seeded(seed), bytes@),
    {
        xxh3_64_oneshot_seeded(seed, bytes)
    }

    /// A streaming hasher without seed or secret that has been fed nothing.
    pub fn new() -> (hasher: XXH3_64<'static>)
        ensures
            hasher.keying() == Keying::Unkeyed,
            hasher.absorbed() == Seq::<u8>::empty(),
    {
        XXH3_64 { core: Xxh3Core::new() }
    }

    /// A streaming hasher under a borrowed secret of any length from
    /// [`MIN_SECRET_SIZE`] up, fed nothing. A shorter secret is refused.
    ///
    /// With a secret of [`ENTROPY_POOL_SIZE`] bytes the input is digested as
    /// it is written. With a secret of another length the hasher keeps what
    /// is written and digests it when `finish` is called, so it needs memory
    /// for the whole input.
    pub fn with_entropy_buffer(entropy: &'a [u8]) -> (result: Result<XXH3_64<'a>, HashError>)
        ensures
            entropy@.len() >= MIN_SECRET_SIZE ==> (result matches Ok(hasher)
                && hasher.keying() == Keying::Keyed(entropy@)
                && hasher.absorbed() == Seq::<u8>::empty()),
            entropy@.len() < MIN_SECRET_SIZE ==> (result matches Err(error)
                && error == HashError::InvalidSecretLength),
    {
        match SecretRef::new(entropy) {
            Ok(secret) => Ok(XXH3_64 { core: Xxh3Core::with_secret(secret) }),
            Err(error) => Err(error),
        }
    }

    /// A streaming hasher under a copy of the pool's bytes, fed nothing.
    pub fn with_entropy(entropy: &EntropyPool) -> (hasher: XXH3_64<'static>)
        ensures
            hasher.keying() == Keying::Keyed(entropy@),
            hasher.absorbed() == Seq::<u8>::empty(),
    {
        XXH3_64 { core: Xxh3Core::with_pool(entropy) }
    }

    /// A streaming hasher under a seed, fed nothing.
    pub fn with_seed(seed: u64) -> (hasher: XXH3_64<'static>)
        ensures
            hasher.keying() == Keying::Seeded(seed),
            hasher.absorbed() == Seq::<u8>::empty(),
    {
        XXH3_64 { core: Xxh3Core::with_seed(seed) }
    }

    /// Appends `bytes` to the input.
    pub fn write(&mut self, bytes: &[u8])
        ensures
            final(self).keying() == old(self).keying(),
            final(self).absorbed() == old(self).absorbed() + bytes@,
    {
        self.core.write(bytes)
    }

    /// The digest of everything written so far; the hasher is left as it was
    /// and may be written to again.
    pub fn finish(&self) -> (digest: u64)
        ensures
            digest == self.digest(),
    {
        self.core.digest64()
    }
}

impl<'a> Clone for XXH3_64<'a> {
    fn clone(&self) -> (copy: Self)
        ensures
            copy.keying() == self.keying(),
            copy.absorbed() == self.absorbed(),
    {
        XXH3_64 { core: self.core.fork() }
    }
}

impl Default for XXH3_64<'_> {
    fn default() -> (hasher: Self)
        ensures
            hasher.keying() == Keying::Unkeyed,
            hasher.absorbed() == Seq::<u8>::empty(),
    {
        XXH3_64::new()
    }
}

impl<'a> HashPrimitive<'a> for XXH3_64<'a> {
    type Digest = u64;

    open spec fn digest_of(keying: Keying, data: Seq<u8>) -> u64 {
        xxh3_64_digest(keying, data)
    }

    closed spec fn keying(&self) -> Keying {
        self.core.keying()
    }

    closed spec fn absorbed(&self) -> Seq<u8> {
        self.core.absorbed()
    }

    fn hash(data: &[u8]) -> (digest: u64) {
        xxh3_64_oneshot(data)
    }

    fn hash_with_seed(seed: u64, data: &[u8]) -> (digest: u64) {
        xxh3_64_oneshot_seeded(seed, data)
    }

    fn hash_with_secret(secret: SecretRef<'_>, data: &[u8]) -> (digest: u64) {
        xxh3_64_oneshot_keyed(secret.as_bytes(), data)
    }

    fn new() -> (fresh: Self) {
        XXH3_64 { core: Xxh3Core::new() }
    }

    fn with_seed(seed: u64) -> (fresh: Self) {
        XXH3_64 { core: Xxh3Core::with_seed(seed) }
    }

    fn with_secret(secret: SecretRef<'a>) -> (fresh: Self) {
        XXH3_64 { core: Xxh3Core::with_secret(secret) }
    }

    fn with_secret_copy(pool: &EntropyPool) -> (fresh: Self) {
        XXH3_64 { core: Xxh3Core::with_pool(pool) }
    }

    fn write(&mut self, data: &[u8]) {
        self.core.write(data)
    }

    fn finish(&self) -> (digest: u64) {
        self.core.digest64()
    }

    fn fork(&self) -> (copy: Self) {
        XXH3_64 { core: self.core.fork() }
    }
}

impl std::hash::Hasher for XXH3_64<'_> {
    fn write(&mut self, bytes: &[u8])
        ensures
            final(self).keying() == old(self).keying(),
            final(self).absorbed() == old(self).absorbed() + bytes@,
    {
        self.core.write(bytes)
    }

    fn finish(&self) -> (digest: u64)
        ensures
            digest == self.digest(),
    {
        self.core.digest64()
    }
}

/// A streaming 128-bit XXH3 hasher.
///
/// It is modelled by its [`keying`](Self::keying) and the bytes written so
/// far; `finish` yields the one-shot digest of exactly those.
pub struct XXH3_128<'a> {
    core: Xxh3Core<'a>,
}

impl<'a> XXH3_128<'a> {
    /// How this hasher was keyed when it was made.
    pub open spec fn keying(&self) -> Keying {
        HashPrimitive::keying(self)
    }

    /// All bytes written so far, in order.
    pub open spec fn absorbed(&self) -> Seq<u8> {
        HashPrimitive::absorbed(self)
    }

    /// The digest that `finish` returns in this state.
    pub open spec fn digest(&self) -> u128 {
        xxh3_128_digest(self.keying(), self.absorbed())
    }

    /// One-shot hashing.
    pub fn hash(bytes: &[u8]) -> (digest: u128)
        ensures
            digest == xxh3_128_digest(Keying::Unkeyed, bytes@),
    {
        xxh3_128_oneshot(bytes)
    }

    /// One-shot hashing under a secret of any length from
    /// [`MIN_SECRET_SIZE`] up. A shorter secret is refused before anything
    /// is hashed.
    pub fn hash_with_entropy_buffer(entropy: &[u8], bytes: &[u8]) -> (result: Result<
        u128,
        HashError,
    >)
        ensures
            entropy@.len() >= MIN_SECRET_SIZE ==> result == Ok::<u128, HashError>(
                xxh3_128_digest(Keying::Keyed(entropy@), bytes@),
            ),
            entropy@.len() < MIN_SECRET_SIZE ==> result == Err::<u128, HashError>(
                HashError::InvalidSecretLength,
            ),
    {
        if entropy.len() < MIN_SECRET_SIZE {
            return Err(HashError::InvalidSecretLength);
        }
        Ok(xxh3_128_oneshot_keyed(entropy, bytes))
    }

    /// One-shot hashing under an entropy pool.
    pub fn hash_with_entropy(entropy: &EntropyPool, bytes: &[u8]) -> (digest: u128)
        ensures
            digest == xxh3_128_digest(Keying::Keyed(entropy@), bytes@),
    {
        xxh3_128_oneshot_keyed(entropy.entropy.as_slice(), bytes)
    }

    /// One-shot hashing under a seed.
    pub fn hash_with_seed(seed: u64, bytes: &[u8]) -> (digest: u128)
        ensures
            digest == xxh3_128_digest(Keying::Seeded(seed), bytes@),
    {
        xxh3_128_oneshot_seeded(seed, bytes)
    }

    /// A streaming hasher without seed or secret that has been fed nothing.
    pub fn new() -> (hasher: XXH3_128<'static>)
        ensures
            hasher.keying() == Keying::Unkeyed,
            hasher.absorbed() == Seq::<u8>::empty(),
    {
        XXH3_128 { core: Xxh3Core::new() }
    }

    /// A streaming hasher under a borrowed secret of any length from
    /// [`MIN_SECRET_SIZE`] up, fed nothing. A shorter secret is refused.
    ///
    /// With a secret of [`ENTROPY_POOL_SIZE`] bytes the input is digested as
    /// it is written. With a secret of another length the hasher keeps what
    /// is written and digests it when `finish` is called, so it needs memory
    /// for the whole input.
    pub fn with_entropy_buffer(entropy: &'a [u8]) -> (result: Result<XXH3_128<'a>, HashError>)
        ensures
            entropy@.len() >= MIN_SECRET_SIZE ==> (result matches Ok(hasher)
                && hasher.keying() == Keying::Keyed(entropy@)
                && hasher.absorbed() == Seq::<u8>::empty()),
            entropy@.len() < MIN_SECRET_SIZE ==> (result matches Err(error)
                && error == HashError::InvalidSecretLength),
    {
        match SecretRef::new(entropy) {
            Ok(secret) => Ok(XXH3_128 { core: Xxh3Core::with_secret(secret) }),
            Err(error) => Err(error),
        }
    }

    /// A streaming hasher under a copy of the pool's bytes, fed nothing.
    pub fn with_entropy(entropy: &EntropyPool) -> (hasher: XXH3_128<'static>)
        ensures
            hasher.keying() == Keying::Keyed(entropy@),
            hasher.absorbed() == Seq::<u8>::empty(),
    {
        XXH3_128 { core: Xxh3Core::with_pool(entropy) }
    }

    /// A streaming hasher under a seed, fed nothing.
    pub fn with_seed(seed: u64) -> (hasher: XXH3_128<'static>)
        ensures
            hasher.keying() == Keying::Seeded(seed),
            hasher.absorbed() == Seq::<u8>::empty(),
    {
        XXH3_128 { core: Xxh3Core::with_seed(seed) }
    }

    /// Appends `bytes` to the input.
    pub fn write(&mut self, bytes: &[u8])
        ensures
            final(self).keying() == old(self).keying(),
            final(self).absorbed() == old(self).absorbed() + bytes@,
    {
        self.core.write(bytes)
    }

    /// The digest of everything written so far; the hasher is left as it was
    /// and may be written to again.
    pub fn finish(&self) -> (digest: u128)
        ensures
            digest == self.digest(),
    {
        self.core.digest128()
    }
}

impl<'a> Clone for XXH3_128<'a> {
    fn clone(&self) -> (copy: Self)
        ensures
            copy.keying() == self.keying(),
            copy.absorbed() == self.absorbed(),
    {
        XXH3_128 { core: self.core.fork() }
    }
}

impl Default for XXH3_128<'_> {
    fn default() -> (hasher: Self)
        ensures
            hasher.keying() == Keying::Unkeyed,
            hasher.absorbed() == Seq::<u8>::empty(),
    {
        XXH3_128::new()
    }
}

impl<'a> HashPrimitive<'a> for XXH3_128<'a> {
    type Digest = u128;

    open spec fn digest_of(keying: Keying, data: Seq<u8>) -> u128 {
        xxh3_128_digest(keying, data)
    }

    closed spec fn keying(&self) -> Keying {
        self.core.keying()
    }

    closed spec fn absorbed(&self) -> Seq<u8> {
        self.core.absorbed()
    }

    fn hash(data: &[u8]) -> (digest: u128) {
        xxh3_128_oneshot(data)
    }

    fn hash_with_seed(seed: u64, data: &[u8]) -> (digest: u128) {
        xxh3_128_oneshot_seeded(seed, data)
    }

    fn hash_with_secret(secret: SecretRef<'_>, data: &[u8]) -> (digest: u128) {
        xxh3_128_oneshot_keyed(secret.as_bytes(), data)
    }

    fn new() -> (fresh: Self) {
        XXH3_128 { core: Xxh3Core::new() }
    }

    fn with_seed(seed: u64) -> (fresh: Self) {
        XXH3_128 { core: Xxh3Core::with_seed(seed) }
    }

    fn with_secret(secret: SecretRef<'a>) -> (fresh: Self) {
        XXH3_128 { core: Xxh3Core::with_secret(secret) }
    }

    fn with_secret_copy(pool: &EntropyPool) -> (fresh: Self) {
        XXH3_128 { core: Xxh3Core::with_pool(pool) }
    }

    fn write(&mut self, data: &[u8]) {
        self.core.write(data)
    }

    fn finish(&self) -> (digest: u128) {
        self.core.digest128()
    }

    fn fork(&self) -> (copy: Self) {
        XXH3_128 { core: self.core.fork() }
    }
}

} // verus!
