//! Everything the library takes on trust from outside crates.
//!
//! From `xxhash-rust` come the digests. Each digest function of that crate is
//! given a name in the logic, and each streaming state is described by what
//! it was made with and the bytes fed to it so far. From `sha3` comes the
//! SHAKE128 output stream, and from `getrandom` the operating system's random
//! bytes. None of the contracts below is proved; they restate what the
//! crates' sources show.
use std::sync::Arc;
use vstd::prelude::*;
use xxhash_rust::xxh3::Xxh3;
use xxhash_rust::xxh32::Xxh32;
use xxhash_rust::xxh64::Xxh64;

verus! {

/// The streaming state of the 32-bit algorithm; opaque to the verifier.
#[verifier::external_type_specification]
#[verifier::external_body]
pub struct ExXxh32(Xxh32);

/// The streaming state of the 64-bit algorithm; opaque to the verifier.
#[verifier::external_type_specification]
#[verifier::external_body]
pub struct ExXxh64(Xxh64);

/// The XXH32 digest of `data` under `seed`: what `xxh32::xxh32` returns.
pub uninterp spec fn xxh32_value(seed: u32, data: Seq<u8>) -> u32;

/// The seed a 32-bit streaming state was made with.
pub uninterp spec fn xxh32_state_seed(state: Xxh32) -> u32;

/// The bytes fed to a 32-bit streaming state so far, in order.
pub uninterp spec fn xxh32_state_input(state: Xxh32) -> Seq<u8>;

/// The XXH64 digest of `data` under `seed`: what `xxh64::xxh64` returns.
pub uninterp spec fn xxh64_value(seed: u64, data: Seq<u8>) -> u64;

/// The seed a 64-bit streaming state was made with.
pub uninterp spec fn xxh64_state_seed(state: Xxh64) -> u64;

/// The bytes fed to a 64-bit streaming state so far, in order.
pub uninterp spec fn xxh64_state_input(state: Xxh64) -> Seq<u8>;

/// Calls `xxhash_rust::xxh32::xxh32`, a pure function of seed and input; its
/// result is the value named [`xxh32_value`].
#[verifier::external_body]
pub(crate) fn xxh32_oneshot(seed: u32, data: &[u8]) -> (digest: u32)
    ensures
        digest == xxh32_value(seed, data@),
{
    xxhash_rust::xxh32::xxh32(data, seed)
}

/// Calls `Xxh32::new`: a fresh state for `seed` that has been fed nothing.
#[verifier::external_body]
pub(crate) fn xxh32_state_new(seed: u32) -> (state: Xxh32)
    ensures
        xxh32_state_seed(state) == seed,
        xxh32_state_input(state) == Seq::<u8>::empty(),
{
    Xxh32::new(seed)
}

/// Calls `Xxh32::update`: the state keeps its seed and has been fed `data`
/// after what it had been fed before. The outside function takes the length
/// of `data` as a 32-bit number before it compares it with the room left in
/// its 16-byte buffer, so it is only called with slices whose length, with
/// up to 15 buffered bytes added, stays below 2^32.
#[verifier::external_body]
pub(crate) fn xxh32_state_update(state: &mut Xxh32, data: &[u8])
    requires
        data@.len() < 0xFFFF_FFF0,
    ensures
        xxh32_state_seed(*final(state)) == xxh32_state_seed(*old(state)),
        xxh32_state_input(*final(state)) == xxh32_state_input(*old(state)) + data@,
{
    state.update(data)
}

/// Calls `Xxh32::digest`, which leaves the state untouched and returns the
/// digest that the one-shot function gives for the same seed and the bytes
/// fed so far.
#[verifier::external_body]
pub(crate) fn xxh32_state_digest(state: &Xxh32) -> (digest: u32)
    ensures
        digest == xxh32_value(xxh32_state_seed(*state), xxh32_state_input(*state)),
{
    state.digest()
}

/// Calls `Xxh32::clone` (derived): the copy has the same seed and input.
#[verifier::external_body]
pub(crate) fn xxh32_state_clone(state: &Xxh32) -> (copy: Xxh32)
    ensures
        xxh32_state_seed(copy) == xxh32_state_seed(*state),
        xxh32_state_input(copy) == xxh32_state_input(*state),
{
    state.clone()
}

/// Calls `xxhash_rust::xxh64::xxh64`, a pure function of seed and input; its
/// result is the value named [`xxh64_value`].
#[verifier::external_body]
pub(crate) fn xxh64_oneshot(seed: u64, data: &[u8]) -> (digest: u64)
    ensures
        digest == xxh64_value(seed, data@),
{
    xxhash_rust::xxh64::xxh64(data, seed)
}

/// Calls `Xxh64::new`: a fresh state for `seed` that has been fed nothing.
#[verifier::external_body]
pub(crate) fn xxh64_state_new(seed: u64) -> (state: Xxh64)
    ensures
        xxh64_state_seed(state) == seed,
        xxh64_state_input(state) == Seq::<u8>::empty(),
{
    Xxh64::new(seed)
}

/// Calls `Xxh64::update`: the state keeps its seed and has been fed `data`
/// after what it had been fed before.
#[verifier::external_body]
pub(crate) fn xxh64_state_update(state: &mut Xxh64, data: &[u8])
    ensures
        xxh64_state_seed(*final(state)) == xxh64_state_seed(*old(state)),
        xxh64_state_input(*final(state)) == xxh64_state_input(*old(state)) + data@,
{
    state.update(data)
}

/// Calls `Xxh64::digest`, which leaves the state untouched and returns the
/// digest that the one-shot function gives for the same seed and the bytes
/// fed so far.
#[verifier::external_body]
pub(crate) fn xxh64_state_digest(state: &Xxh64) -> (digest: u64)
    ensures
        digest == xxh64_value(xxh64_state_seed(*state), xxh64_state_input(*state)),
{
    state.digest()
}

/// Calls `Xxh64::clone` (derived): the copy has the same seed and input.
#[verifier::external_body]
pub(crate) fn xxh64_state_clone(state: &Xxh64) -> (copy: Xxh64)
    ensures
        xxh64_state_seed(copy) == xxh64_state_seed(*state),
        xxh64_state_input(copy) == xxh64_state_input(*state),
{
    state.clone()
}

/// The streaming state of the XXH3 family, shared by both digest widths;
/// opaque to the verifier.
#[verifier::external_type_specification]
#[verifier::external_body]
pub struct ExXxh3(Xxh3);

/// The 64-bit XXH3 digest of `data`: what `xxh3::xxh3_64` returns.
pub uninterp spec fn xxh3_64_value(data: Seq<u8>) -> u64;

/// The 64-bit XXH3 digest of `data` under `seed`: what
/// `xxh3::xxh3_64_with_seed` returns.
pub uninterp spec fn xxh3_64_seeded_value(seed: u64, data: Seq<u8>) -> u64;

/// The 64-bit XXH3 digest of `data` under `secret`: what
/// `xxh3::xxh3_64_with_secret` returns.
pub uninterp spec fn xxh3_64_keyed_value(secret: Seq<u8>, data: Seq<u8>) -> u64;

/// The 128-bit XXH3 digest of `data`: what `xxh3::xxh3_128` returns.
pub uninterp spec fn xxh3_128_value(data: Seq<u8>) -> u128;

/// The 128-bit XXH3 digest of `data` under `seed`: what
/// `xxh3::xxh3_128_with_seed` returns.
pub uninterp spec fn xxh3_128_seeded_value(seed: u64, data: Seq<u8>) -> u128;

/// The 128-bit XXH3 digest of `data` under `secret`: what
/// `xxh3::xxh3_128_with_secret` returns.
pub uninterp spec fn xxh3_128_keyed_value(secret: Seq<u8>, data: Seq<u8>) -> u128;

/// The secret that the XXH3 family derives from a seed: what
/// `const_xxh3::const_custom_default_secret` returns.
pub uninterp spec fn xxh3_seed_secret(seed: u64) -> Seq<u8>;

/// The seed an XXH3 streaming state was made with, if it was made with one.
pub uninterp spec fn xxh3_state_seed(state: Xxh3) -> Option<u64>;

/// The secret an XXH3 streaming state was made with, if it was made with one.
pub uninterp spec fn xxh3_state_secret(state: Xxh3) -> Option<Seq<u8>>;

/// The bytes fed to an XXH3 streaming state so far, in order.
pub uninterp spec fn xxh3_state_input(state: Xxh3) -> Seq<u8>;

/// The one-shot 64-bit digest that belongs to a way of making a streaming
/// state: keyed if a secret was given, else seeded if a seed was given, else
/// plain.
pub open spec fn xxh3_64_for(seed: Option<u64>, secret: Option<Seq<u8>>, data: Seq<u8>) -> u64 {
    match secret {
        Some(secret) => xxh3_64_keyed_value(secret, data),
        None => match seed {
            Some(seed) => xxh3_64_seeded_value(seed, data),
            None => xxh3_64_value(data),
        },
    }
}

/// The one-shot 128-bit digest that belongs to a way of making a streaming
/// state, chosen as in [`xxh3_64_for`].
pub open spec fn xxh3_128_for(seed: Option<u64>, secret: Option<Seq<u8>>, data: Seq<u8>) -> u128 {
    match secret {
        Some(secret) => xxh3_128_keyed_value(secret, data),
        None => match seed {
            Some(seed) => xxh3_128_seeded_value(seed, data),
            None => xxh3_128_value(data),
        },
    }
}

/// Calls `xxhash_rust::xxh3::xxh3_64`, a pure function of the input.
#[verifier::external_body]
pub(crate) fn xxh3_64_oneshot(data: &[u8]) -> (digest: u64)
    ensures
        digest == xxh3_64_value(data@),
{
    xxhash_rust::xxh3::xxh3_64(data)
}

/// Calls `xxhash_rust::xxh3::xxh3_64_with_seed`, a pure function of seed and
/// input.
#[verifier::external_body]
pub(crate) fn xxh3_64_oneshot_seeded(seed: u64, data: &[u8]) -> (digest: u64)
    ensures
        digest == xxh3_64_seeded_value(seed, data@),
{
    xxhash_rust::xxh3::xxh3_64_with_seed(data, seed)
}

/// Calls `xxhash_rust::xxh3::xxh3_64_with_secret`, a pure function of secret
/// and input. It panics on a secret of fewer than 136 bytes, which the
/// precondition rules out.
#[verifier::external_body]
pub(crate) fn xxh3_64_oneshot_keyed(secret: &[u8], data: &[u8]) -> (digest: u64)
    requires
        secret@.len() >= 136,
    ensures
        digest == xxh3_64_keyed_value(secret@, data@),
{
    xxhash_rust::xxh3::xxh3_64_with_secret(data, secret)
}

/// Calls `xxhash_rust::xxh3::xxh3_128`, a pure function of the input.
#[verifier::external_body]
pub(crate) fn xxh3_128_oneshot(data: &[u8]) -> (digest: u128)
    ensures
        digest == xxh3_128_value(data@),
{
    xxhash_rust::xxh3::xxh3_128(data)
}

/// Calls `xxhash_rust::xxh3::xxh3_128_with_seed`, a pure function of seed
/// and input.
#[verifier::external_body]
pub(crate) fn xxh3_128_oneshot_seeded(seed: u64, data: &[u8]) -> (digest: u128)
    ensures
        digest == xxh3_128_seeded_value(seed, data@),
{
    xxhash_rust::xxh3::xxh3_128_with_seed(data, seed)
}

/// Calls `xxhash_rust::xxh3::xxh3_128_with_secret`, a pure function of
/// secret and input. It panics on a secret of fewer than 136 bytes, which the
/// precondition rules out.
#[verifier::external_body]
pub(crate) fn xxh3_128_oneshot_keyed(secret: &[u8], data: &[u8]) -> (digest: u128)
    requires
        secret@.len() >= 136,
    ensures
        digest == xxh3_128_keyed_value(secret@, data@),
{
    xxhash_rust::xxh3::xxh3_128_with_secret(data, secret)
}

/// Calls `xxhash_rust::const_xxh3::const_custom_default_secret`, a pure
/// function of the seed that returns 192 bytes.
#[verifier::external_body]
pub(crate) fn xxh3_derive_seed_secret(seed: u64) -> (secret: [u8; 192])
    ensures
        secret@ == xxh3_seed_secret(seed),
{
    xxhash_rust::const_xxh3::const_custom_default_secret(seed)
}

/// Calls `Xxh3::new`: a fresh state without seed or secret, fed nothing.
#[verifier::external_body]
pub(crate) fn xxh3_state_new() -> (state: Xxh3)
    ensures
        xxh3_state_seed(state).is_none(),
        xxh3_state_secret(state).is_none(),
        xxh3_state_input(state) == Seq::<u8>::empty(),
{
    Xxh3::new()
}

/// Calls `Xxh3::with_seed`: a fresh state for `seed`, fed nothing.
#[verifier::external_body]
pub(crate) fn xxh3_state_seeded(seed: u64) -> (state: Xxh3)
    ensures
        xxh3_state_seed(state) == Some(seed),
        xxh3_state_secret(state).is_none(),
        xxh3_state_input(state) == Seq::<u8>::empty(),
{
    Xxh3::with_seed(seed)
}

/// Calls `Xxh3::with_secret`, which copies the 192 bytes into the state: a
/// fresh state for that secret, fed nothing.
#[verifier::external_body]
pub(crate) fn xxh3_state_keyed(secret: &[u8; 192]) -> (state: Xxh3)
    ensures
        xxh3_state_seed(state).is_none(),
        xxh3_state_secret(state) == Some(secret@),
        xxh3_state_input(state) == Seq::<u8>::empty(),
{
    Xxh3::with_secret(*secret)
}

/// Calls `Xxh3::update`: the state keeps what it was made with and has been
/// fed `data` after what it had been fed before.
#[verifier::external_body]
pub(crate) fn xxh3_state_update(state: &mut Xxh3, data: &[u8])
    ensures
        xxh3_state_seed(*final(state)) == xxh3_state_seed(*old(state)),
        xxh3_state_secret(*final(state)) == xxh3_state_secret(*old(state)),
        xxh3_state_input(*final(state)) == xxh3_state_input(*old(state)) + data@,
{
    state.update(data)
}

/// Calls `Xxh3::digest`, which leaves the state untouched and returns the
/// 64-bit digest that the matching one-shot function gives for the bytes fed
/// so far.
#[verifier::external_body]
pub(crate) fn xxh3_state_digest64(state: &Xxh3) -> (digest: u64)
    ensures
        digest == xxh3_64_for(
            xxh3_state_seed(*state),
            xxh3_state_secret(*state),
            xxh3_state_input(*state),
        ),
{
    state.digest()
}

/// Calls `Xxh3::digest128`, which leaves the state untouched and returns the
/// 128-bit digest that the matching one-shot function gives for the bytes fed
/// so far.
#[verifier::external_body]
pub(crate) fn xxh3_state_digest128(state: &Xxh3) -> (digest: u128)
    ensures
        digest == xxh3_128_for(
            xxh3_state_seed(*state),
            xxh3_state_secret(*state),
            xxh3_state_input(*state),
        ),
{
    state.digest128()
}

/// Calls `Xxh3::clone` (derived): the copy was made with the same seed or
/// secret and has been fed the same bytes.
#[verifier::external_body]
pub(crate) fn xxh3_state_clone(state: &Xxh3) -> (copy: Xxh3)
    ensures
        xxh3_state_seed(copy) == xxh3_state_seed(*state),
        xxh3_state_secret(copy) == xxh3_state_secret(*state),
        xxh3_state_input(copy) == xxh3_state_input(*state),
{
    state.clone()
}

/// Calls `Arc::clone`: one more handle to the same value, which is not
/// copied.
#[verifier::external_body]
pub(crate) fn arc_clone<T>(handle: &Arc<T>) -> (shared: Arc<T>)
    ensures
        shared == *handle,
{
    Arc::clone(handle)
}

/// The failure that `getrandom` reports; opaque to the verifier.
#[verifier::external_type_specification]
#[verifier::external_body]
pub struct ExRandomError(getrandom::Error);

/// `getrandom::getrandom` overwrites the buffer with random bytes or fails.
/// Nothing is promised about the bytes or about success, only that the
/// buffer keeps its length.
pub assume_specification[ getrandom::getrandom ](dest: &mut [u8]) -> (outcome: Result<
    (),
    getrandom::Error,
>)
    ensures
        final(dest)@.len() == old(dest)@.len(),
;

/// The first 192 bytes that SHAKE128 puts out after absorbing `input`.
pub uninterp spec fn shake128_192(input: Seq<u8>) -> Seq<u8>;

/// Calls `digest_xof` of `sha3::Shake128`, which feeds `input` to a fresh
/// SHAKE128 state and fills the buffer with the first bytes of its output, a
/// pure function of the input.
#[verifier::external_body]
pub(crate) fn shake128_squeeze_192(input: &[u8]) -> (output: [u8; 192])
    ensures
        output@ == shake128_192(input@),
{
    let mut output = [0u8; 192];
    <sha3::Shake128 as sha3::digest::ExtendableOutput>::digest_xof(input, &mut output);
    output
}

} // verus!
