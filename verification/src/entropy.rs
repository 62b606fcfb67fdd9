//! Entropy pools: the fixed-size secrets that key the XXH3 family.
use crate::backend::{
    shake128_192, shake128_squeeze_192, xxh3_derive_seed_secret, xxh3_seed_secret,
};
use crate::bytes::{be_bytes_u128, le_u64, u128_to_be, u64_from_le};
use crate::error::EntropyError;
use crate::primitive::Keying;
use crate::xxh3::{xxh3_128_digest, XXH3_128};
use vstd::prelude::*;

verus! {

/// Number of bytes in an [`EntropyPool`].
pub const ENTROPY_POOL_SIZE: usize = 192;

/// The least number of bytes a secret must have to key a hash.
pub const MIN_SECRET_SIZE: usize = 136;

/// A secret of exactly [`ENTROPY_POOL_SIZE`] bytes.
///
/// A pool is never changed after it was made. Two pools are equal when their
/// bytes are.
#[derive(Debug)]
pub struct EntropyPool {
    pub entropy: [u8; ENTROPY_POOL_SIZE],
}

impl View for EntropyPool {
    type V = Seq<u8>;

    /// The pool's bytes.
    open spec fn view(&self) -> Seq<u8> {
        self.entropy@
    }
}

impl PartialEq for EntropyPool {
    fn eq(&self, other: &Self) -> (equal: bool) {
        let mut i: usize = 0;
        while i < 192
            invariant
                i <= 192,
                forall|j: int| 0 <= j < i ==> self.entropy[j] == other.entropy[j],
            decreases 192 - i,
        {
            if self.entropy[i] != other.entropy[i] {
                return false;
            }
            i += 1;
        }
        assert(self.entropy@ =~= other.entropy@);
        true
    }
}

impl vstd::std_specs::cmp::PartialEqSpecImpl for EntropyPool {
    open spec fn obeys_eq_spec() -> bool {
        true
    }

    open spec fn eq_spec(&self, other: &Self) -> bool {
        self@ == other@
    }
}

impl Eq for EntropyPool {}

impl Clone for EntropyPool {
    fn clone(&self) -> (copy: Self)
        ensures
            copy@ == self@,
    {
        EntropyPool { entropy: self.entropy }
    }
}

/// Byte `index` of the key repeated without end.
pub open spec fn key_cycle(key: Seq<u8>, index: int) -> u8 {
    key[index % (key.len() as int)]
}

/// The `n`-th 64-bit word of the key repeated without end, read least
/// significant byte first.
pub open spec fn key_word(key: Seq<u8>, n: int) -> u64 {
    le_u64(Seq::new(8, |j: int| key_cycle(key, 8 * n + j)))
}

/// The first sixteen bytes of a stretched key: the 128-bit digest of the
/// whole key under seed 0.
pub open spec fn key_scrambler(key: Seq<u8>) -> Seq<u8> {
    be_bytes_u128(xxh3_128_digest(Keying::Seeded(0), key))
}

/// Segment `n` of a stretched key, sixteen bytes. Segment 0 is the
/// scrambler; segment `n` is the 128-bit digest of the scrambler under the
/// seed made of the key's `n`-th word plus `n`.
pub open spec fn key_segment(key: Seq<u8>, n: int) -> Seq<u8> {
    if n == 0 {
        key_scrambler(key)
    } else {
        be_bytes_u128(
            xxh3_128_digest(
                Keying::Seeded(key_word(key, n).wrapping_add(n as u64)),
                key_scrambler(key),
            ),
        )
    }
}

/// The pool that a key is stretched to: twelve segments of sixteen bytes.
/// The empty key gives the pool of seed 0.
pub open spec fn stretched_key(key: Seq<u8>) -> Seq<u8> {
    if key.len() == 0 {
        xxh3_seed_secret(0)
    } else {
        Seq::new(192, |i: int| key_segment(key, i / 16)[i % 16])
    }
}

/// The `n`-th 64-bit word of the key repeated without end.
fn read_key_word(key: &[u8], n: usize) -> (word: u64)
    requires
        key@.len() > 0,
        n < 12,
    ensures
        word == key_word(key@, n as int),
{
    let len = key.len();
    let mut at: usize = (8 * n) % len;
    let mut bytes: [u8; 8] = [0u8; 8];
    let mut j: usize = 0;
    while j < 8
        invariant
            j <= 8,
            len == key@.len(),
            len > 0,
            n < 12,
            at < len,
            at == (8 * n + j) % (len as int),
            forall|k: int| 0 <= k < j ==> bytes@[k] == key_cycle(key@, 8 * n + k),
        decreases 8 - j,
    {
        bytes[j] = key[at];
        proof {
            lemma_cycle_step(8 * n + j, len as int);
        }
        at = if at + 1 == len { 0 } else { at + 1 };
        j += 1;
    }
    assert(bytes@ =~= Seq::new(8, |k: int| key_cycle(key@, 8 * n + k)));
    u64_from_le(&bytes)
}

/// Stepping along a cycle: the position after `index` is the next one, or
/// the first where the cycle closes.
proof fn lemma_cycle_step(index: int, len: int)
    requires
        0 <= index,
        0 < len,
    ensures
        (index + 1) % len == if index % len + 1 == len {
            0
        } else {
            index % len + 1
        },
{
    vstd::arithmetic::div_mod::lemma_fundamental_div_mod(index, len);
    vstd::arithmetic::div_mod::lemma_mod_bound(index, len);
    let q = index / len;
    let r = index % len;
    if r + 1 == len {
        assert(index + 1 == (q + 1) * len + 0) by (nonlinear_arith)
            requires
                index == len * q + r,
                r + 1 == len,
        ;
        vstd::arithmetic::div_mod::lemma_fundamental_div_mod_converse(index + 1, len, q + 1, 0);
    } else {
        assert(index + 1 == q * len + (r + 1)) by (nonlinear_arith)
            requires
                index == len * q + r,
        ;
        vstd::arithmetic::div_mod::lemma_fundamental_div_mod_converse(index + 1, len, q, r + 1);
    }
}

/// Pools with the same bytes are the same pool.
pub proof fn lemma_pools_equal_by_bytes(first: EntropyPool, second: EntropyPool)
    requires
        first@ == second@,
    ensures
        first == second,
{
    assert(first.entropy =~= second.entropy);
}

/// Deterministic derivation from a seed: two pools derived from the same
/// seed are byte for byte the same.
pub proof fn lemma_seed_derivation_is_deterministic(
    first: EntropyPool,
    second: EntropyPool,
    seed: u64,
)
    requires
        first@ == xxh3_seed_secret(seed),
        second@ == xxh3_seed_secret(seed),
    ensures
        first == second,
{
    lemma_pools_equal_by_bytes(first, second);
}

/// Deterministic derivation from a key: two pools stretched from the same
/// key are byte for byte the same, and so are two pools squeezed from the
/// same key.
pub proof fn lemma_key_derivation_is_deterministic(
    first: EntropyPool,
    second: EntropyPool,
    key: Seq<u8>,
)
    requires
        (first@ == stretched_key(key) && second@ == stretched_key(key)) || (first@
            == shake128_192(key) && second@ == shake128_192(key)),
    ensures
        first == second,
{
    lemma_pools_equal_by_bytes(first, second);
}

/// What a request to the operating system's random source came to: the
/// buffer it filled, or the report that it failed.
pub fn random_outcome<const N: usize>(
    outcome: Result<(), getrandom::Error>,
    buffer: [u8; N],
) -> (result: Result<[u8; N], EntropyError>)
    ensures
        outcome is Ok ==> result == Ok::<[u8; N], EntropyError>(buffer),
        outcome is Err ==> result == Err::<[u8; N], EntropyError>(
            EntropyError::SourceUnavailable,
        ),
{
    match outcome {
        Ok(()) => Ok(buffer),
        Err(_) => Err(EntropyError::SourceUnavailable),
    }
}

impl EntropyPool {
    /// A pool of bytes from the operating system's random source, or the
    /// report that the source failed. Which bytes come is not determined by
    /// anything in the program.
    pub fn randomize() -> (result: Result<EntropyPool, EntropyError>) {
        let mut entropy = [0u8; 192];
        let outcome = getrandom::getrandom(&mut entropy);
        match random_outcome(outcome, entropy) {
            Ok(entropy) => Ok(EntropyPool::from_random_bytes(entropy)),
            Err(error) => Err(error),
        }
    }

    /// The pool that holds exactly the given bytes, such as the random
    /// source delivered.
    pub fn from_random_bytes(bytes: [u8; ENTROPY_POOL_SIZE]) -> (pool: EntropyPool)
        ensures
            pool.entropy == bytes,
    {
        EntropyPool { entropy: bytes }
    }

    /// The pool that the XXH3 family derives from a 64-bit seed. Equal seeds
    /// give equal pools.
    pub fn with_seed(seed: u64) -> (pool: EntropyPool)
        ensures
            pool@ == xxh3_seed_secret(seed),
    {
        EntropyPool { entropy: xxh3_derive_seed_secret(seed) }
    }

    /// The pool that a key of any length is stretched to by 128-bit XXH3
    /// digests. Equal keys give equal pools.
    pub fn with_key(key: &[u8]) -> (pool: EntropyPool)
        ensures
            pool@ == stretched_key(key@),
    {
        if key.len() == 0 {
            return EntropyPool::with_seed(0);
        }
        let scrambler = u128_to_be(XXH3_128::hash_with_seed(0, key));
        let mut entropy = [0u8; 192];
        let mut i: usize = 0;
        while i < 16
            invariant
                i <= 16,
                forall|k: int| 0 <= k < i ==> entropy@[k] == scrambler@[k],
            decreases 16 - i,
        {
            entropy[i] = scrambler[i];
            i += 1;
        }
        let mut n: usize = 1;
        while n < 12
            invariant
                1 <= n <= 12,
                key@.len() > 0,
                scrambler@ == key_scrambler(key@),
                forall|k: int| 0 <= k < 16 * n ==> entropy@[k] == key_segment(key@, k / 16)[k % 16],
            decreases 12 - n,
        {
            let seed = read_key_word(key, n).wrapping_add(n as u64);
            let segment = u128_to_be(XXH3_128::hash_with_seed(seed, scrambler.as_slice()));
            assert(segment@ == key_segment(key@, n as int));
            let mut j: usize = 0;
            while j < 16
                invariant
                    j <= 16,
                    1 <= n < 12,
                    segment@ == key_segment(key@, n as int),
                    forall|k: int|
                        0 <= k < 16 * n ==> entropy@[k] == key_segment(key@, k / 16)[k % 16],
                    forall|k: int| 0 <= k < j ==> entropy@[16 * n + k] == segment@[k],
                decreases 16 - j,
            {
                entropy[16 * n + j] = segment[j];
                j += 1;
            }
            assert forall|k: int| 0 <= k < 16 * (n + 1) implies entropy@[k] == key_segment(
                key@,
                k / 16,
            )[k % 16] by {
                if k >= 16 * n {
                    assert(k / 16 == n && k % 16 == k - 16 * n);
                    assert(entropy@[16 * n + (k - 16 * n)] == segment@[k - 16 * n]);
                }
            }
            n += 1;
        }
        assert(entropy@ =~= stretched_key(key@));
        EntropyPool { entropy }
    }

    /// The pool made of the first 192 bytes of SHAKE128's output for the
    /// key. Equal keys give equal pools.
    pub fn with_key_xof(key: &[u8]) -> (pool: EntropyPool)
        ensures
            pool@ == shake128_192(key@),
    {
        EntropyPool { entropy: shake128_squeeze_192(key) }
    }
}

} // verus!
