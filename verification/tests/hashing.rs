use std::collections::{HashMap, HashSet};
use std::hash::{BuildHasher, Hasher};
use xxhrs::{
    EntropyPool, RandomStateXXH32, RandomStateXXH3_128, RandomStateXXH3_64, RandomStateXXH64,
    ENTROPY_POOL_SIZE, XXH32, XXH3_128, XXH3_64, XXH64,
};

const SEED32: u32 = 0xf7649871;
const SEED64: u64 = 0x06cd630df7649871;
const XXH32_HASH: u32 = 0x4c8a9773;
const XXH32_SEEDED: u32 = 0xf4ca610b;
const XXH64_HASH: u64 = 0xa82418ddec0ea581;
const XXH64_SEEDED: u64 = 0x6ccbce3cebe7520a;
const XXH3_64_HASH: u64 = 0xcb37aeb9e5d361ed;
const XXH3_64_SEEDED: u64 = 0x9468d3616b67a54a;
const XXH3_64_KEYED: u64 = 0x1565fad3cda88d85;
const XXH3_128_HASH: u128 = 0xe89c0f6ff369b427cb37aeb9e5d361ed;
const XXH3_128_SEEDED: u128 = 0xf84a76a49870e7679468d3616b67a54a;
const XXH3_128_KEYED: u128 = 0x901cbfb70512d06e1565fad3cda88d85;

const SECRET: &[u8] = b"correct horse battery staple";

const SECRET_ENTROPY_HEX: &str = "13efca5890190e73c946c1a5d31448444681b53dc7463d544d895ca19341cce5\
8238e4fb2760e0bf8aaf4d8ab41d7368beba15e13533d2708ca9b8faf1550c38\
48dfab9911b6f53a72587955018a7b436a8dace8d253817da9f1fefbe36516e7\
f5b8aa8d4a2e09f49b3ca6ba858b9b9f9d7f2990ac4d83e810bd70989c486aa5\
98f1d555e7a2dfb37f6a237167d31aa7e9dc73b93b701d49c8362f782bf42d88\
abd2c9fd02a929c9618fc79ec69bcf6c90d6f74bc00a33542bc2c980f7320c01";

/// 2367 bytes from the generator that the xxHash self-test uses.
fn data() -> Vec<u8> {
    let mut out = Vec::with_capacity(2367);
    let mut gen: u64 = 2654435761;
    for _ in 0..2367 {
        out.push((gen >> 56) as u8);
        gen = gen.wrapping_mul(11400714785074694797);
    }
    out
}

fn pool_from_hex(hex: &str) -> EntropyPool {
    let digits: Vec<u8> = hex.bytes().map(|c| (c as char).to_digit(16).unwrap() as u8).collect();
    assert_eq!(digits.len(), 2 * ENTROPY_POOL_SIZE);
    let mut entropy = [0u8; ENTROPY_POOL_SIZE];
    for i in 0..ENTROPY_POOL_SIZE {
        entropy[i] = digits[2 * i] * 16 + digits[2 * i + 1];
    }
    EntropyPool { entropy }
}

fn seed64_entropy() -> EntropyPool {
    EntropyPool::with_seed(SEED64)
}

fn secret_entropy() -> EntropyPool {
    pool_from_hex(SECRET_ENTROPY_HEX)
}

fn pool_42_debug() -> String {
    let mut out = String::from("EntropyPool { entropy: [");
    for i in 0..ENTROPY_POOL_SIZE {
        if i != 0 {
            out.push_str(", ");
        }
        out.push_str("42");
    }
    out.push_str("] }");
    out
}

#[test]
fn test_entropy_derivation() {
    assert_eq!(EntropyPool::with_key(SECRET), secret_entropy());
}

#[test]
fn test_one_shot() {
    let data = data();
    let data = data.as_slice();
    assert_eq!(XXH32::hash(data), XXH32_HASH);
    assert_eq!(XXH32::hash_with_seed(SEED32, data), XXH32_SEEDED);
    assert_eq!(XXH64::hash(data), XXH64_HASH);
    assert_eq!(XXH64::hash_with_seed(SEED64, data), XXH64_SEEDED);
    assert_eq!(XXH3_64::hash(data), XXH3_64_HASH);
    assert_eq!(XXH3_64::hash_with_entropy(&seed64_entropy(), data), XXH3_64_SEEDED);
    assert_eq!(XXH3_64::hash_with_entropy(&secret_entropy(), data), XXH3_64_KEYED);
    assert_eq!(XXH3_128::hash(data), XXH3_128_HASH);
    assert_eq!(XXH3_128::hash_with_entropy(&seed64_entropy(), data), XXH3_128_SEEDED);
    assert_eq!(XXH3_128::hash_with_entropy(&secret_entropy(), data), XXH3_128_KEYED);

    assert_eq!(
        XXH3_64::hash_with_entropy_buffer(&seed64_entropy().entropy, data),
        Ok(XXH3_64_SEEDED)
    );
    assert_eq!(
        XXH3_64::hash_with_entropy_buffer(&secret_entropy().entropy, data),
        Ok(XXH3_64_KEYED)
    );
    assert_eq!(
        XXH3_128::hash_with_entropy_buffer(&seed64_entropy().entropy, data),
        Ok(XXH3_128_SEEDED)
    );
    assert_eq!(
        XXH3_128::hash_with_entropy_buffer(&secret_entropy().entropy, data),
        Ok(XXH3_128_KEYED)
    );
}

const BLOCK_SIZE: &[usize] = &[0, 1, 2, 3, 4, 7, 11, 31, 63, 89];

fn stream_case<H: Clone>(
    mut gen: H,
    write: impl Fn(&mut H, &[u8]),
    finish: impl Fn(&H) -> u128,
    out: u128,
) {
    let data = data();
    finish(&gen); // can finish before write

    let mut gen_clone_1 = gen.clone(); // test clone

    let mut off: usize = 0;
    for sz in BLOCK_SIZE.iter().cycle() {
        let end = std::cmp::min(off + sz, data.len());
        let block = &data[off..end];
        off = end;

        write(&mut gen, block);
        write(&mut gen_clone_1, block);

        if off == data.len() {
            break;
        }
    }

    let gen_clone_2 = gen.clone(); // test clone

    assert_eq!(finish(&gen), out);
    assert_eq!(finish(&gen), out); // can finish twice
    assert_eq!(finish(&gen_clone_1), out);
    assert_eq!(finish(&gen_clone_2), out);
}

fn stream_32(gen: XXH32, out: u32) {
    stream_case(gen, |h, b| h.write(b), |h| h.finish() as u128, out as u128);
}

fn stream_64(gen: XXH64, out: u64) {
    stream_case(gen, |h, b| XXH64::write(h, b), |h| XXH64::finish(h) as u128, out as u128);
}

fn stream_3_64(gen: XXH3_64<'_>, out: u64) {
    stream_case(gen, |h, b| XXH3_64::write(h, b), |h| XXH3_64::finish(h) as u128, out as u128);
}

fn stream_3_128(gen: XXH3_128<'_>, out: u128) {
    stream_case(gen, |h, b| h.write(b), |h| h.finish(), out);
}

#[test]
fn test_streaming() {
    stream_32(XXH32::new(), XXH32_HASH);
    stream_32(XXH32::with_seed(SEED32), XXH32_SEEDED);

    stream_64(XXH64::new(), XXH64_HASH);
    stream_64(XXH64::with_seed(SEED64), XXH64_SEEDED);

    stream_3_64(XXH3_64::new(), XXH3_64_HASH);
    stream_3_64(XXH3_64::with_entropy(&seed64_entropy()), XXH3_64_SEEDED);
    stream_3_64(XXH3_64::with_entropy(&secret_entropy()), XXH3_64_KEYED);

    stream_3_128(XXH3_128::new(), XXH3_128_HASH);
    stream_3_128(XXH3_128::with_entropy(&seed64_entropy()), XXH3_128_SEEDED);
    stream_3_128(XXH3_128::with_entropy(&secret_entropy()), XXH3_128_KEYED);

    // Entropy cloning
    stream_3_64(XXH3_64::with_entropy(&seed64_entropy().clone()), XXH3_64_SEEDED);
    stream_3_64(XXH3_64::with_entropy(&secret_entropy().clone()), XXH3_64_KEYED);
    stream_3_128(XXH3_128::with_entropy(&seed64_entropy().clone()), XXH3_128_SEEDED);
    stream_3_128(XXH3_128::with_entropy(&secret_entropy().clone()), XXH3_128_KEYED);

    stream_32(Default::default(), XXH32_HASH);
    stream_64(Default::default(), XXH64_HASH);
    stream_3_64(Default::default(), XXH3_64_HASH);
    stream_3_128(Default::default(), XXH3_128_HASH);

    let seeded = seed64_entropy();
    let keyed = secret_entropy();
    stream_3_64(XXH3_64::with_entropy_buffer(&seeded.entropy).unwrap(), XXH3_64_SEEDED);
    stream_3_64(XXH3_64::with_entropy_buffer(&keyed.entropy).unwrap(), XXH3_64_KEYED);
    stream_3_128(XXH3_128::with_entropy_buffer(&seeded.entropy).unwrap(), XXH3_128_SEEDED);
    stream_3_128(XXH3_128::with_entropy_buffer(&keyed.entropy).unwrap(), XXH3_128_KEYED);
}

#[test]
fn test_hasher_iface() {
    let data = data();
    let mut h = XXH64::with_seed(SEED64);
    let mut h3 = XXH3_64::with_entropy(&seed64_entropy());
    Hasher::write(&mut h, &data);
    Hasher::write(&mut h3, &data);
    assert_eq!(Hasher::finish(&h), XXH64_SEEDED);
    assert_eq!(Hasher::finish(&h3), XXH3_64_SEEDED);
}

#[test]
fn test_random_entropy_pool() {
    assert_ne!(EntropyPool::randomize().unwrap(), EntropyPool::randomize().unwrap());
    assert_ne!(
        XXH3_128::hash_with_entropy(&EntropyPool::randomize().unwrap(), b""),
        XXH3_128::hash_with_entropy(&EntropyPool::randomize().unwrap(), b"")
    );
}

#[test]
fn test_entropy_pool_clone() {
    let pool = EntropyPool::randomize().unwrap();
    assert_eq!(pool, pool.clone());
}

fn random_state_instance(set: &mut HashSet<u128>, hash_now: &dyn Fn(bool) -> u128) {
    let a = hash_now(false);
    assert_eq!(a, hash_now(false));
    assert_eq!(a, hash_now(true)); // Cloning RandomState
    assert!(set.insert(a));
}

#[test]
fn test_build_hasher() {
    let mut set = HashSet::<u128>::new();

    for _ in 0..10 {
        for _ in 0..2 {
            let gen = RandomStateXXH32::new().unwrap();
            random_state_instance(&mut set, &|cloned| {
                let mut hasher =
                    if cloned { gen.clone().build_hasher() } else { gen.build_hasher() };
                hasher.write(b"42");
                hasher.finish() as u128
            });
        }
    }
    for _ in 0..10 {
        for _ in 0..2 {
            let gen = RandomStateXXH64::new().unwrap();
            random_state_instance(&mut set, &|cloned| {
                let mut hasher =
                    if cloned { gen.clone().build_hasher() } else { gen.build_hasher() };
                Hasher::write(&mut hasher, b"42");
                Hasher::finish(&hasher) as u128
            });
        }
    }
    for _ in 0..10 {
        for _ in 0..2 {
            let gen = RandomStateXXH3_64::new().unwrap();
            random_state_instance(&mut set, &|cloned| {
                let mut hasher =
                    if cloned { gen.clone().build_hasher() } else { gen.build_hasher() };
                Hasher::write(&mut hasher, b"42");
                Hasher::finish(&hasher) as u128
            });
        }
    }
    for _ in 0..10 {
        for _ in 0..2 {
            let gen = RandomStateXXH3_128::new().unwrap();
            random_state_instance(&mut set, &|cloned| {
                let mut hasher =
                    if cloned { gen.clone().build_hasher() } else { gen.build_hasher() };
                hasher.write(b"42");
                hasher.finish()
            });
        }
    }
}

#[test]
fn test_hash_set() {
    {
        let mut hm =
            HashMap::<u128, u128, RandomStateXXH64>::with_hasher(RandomStateXXH64::new().unwrap());
        let mut hs =
            HashSet::<u128, RandomStateXXH64>::with_hasher(RandomStateXXH64::new().unwrap());
        for ix in 0..10240 {
            assert_eq!(hm.insert(ix, 42), None);
            assert!(hs.insert(ix));
        }
    }
    {
        let mut hm = HashMap::<u128, u128, RandomStateXXH3_64>::with_hasher(
            RandomStateXXH3_64::new().unwrap(),
        );
        let mut hs =
            HashSet::<u128, RandomStateXXH3_64>::with_hasher(RandomStateXXH3_64::new().unwrap());
        for ix in 0..10240 {
            assert_eq!(hm.insert(ix, 42), None);
            assert!(hs.insert(ix));
        }
    }
}

#[test]
fn test_debug_print() {
    let pool = EntropyPool { entropy: [42u8; ENTROPY_POOL_SIZE] };

    assert_eq!(format!("{:?}", pool), pool_42_debug());
    assert_eq!(format!("{:?}", RandomStateXXH32 { seed: 42 }), "RandomStateXXH32 { seed: 42 }");
    assert_eq!(format!("{:?}", RandomStateXXH64 { seed: 42 }), "RandomStateXXH64 { seed: 42 }");
    assert_eq!(
        format!("{:?}", RandomStateXXH3_64 { pool: pool.clone() }),
        format!("RandomStateXXH3_64 {{ pool: {} }}", pool_42_debug())
    );
    assert_eq!(
        format!("{:?}", RandomStateXXH3_128 { pool: pool.clone() }),
        format!("RandomStateXXH3_128 {{ pool: {} }}", pool_42_debug())
    );
}
