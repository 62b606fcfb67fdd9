use std::hash::{BuildHasher, Hasher};
use xxhrs::entropy::random_outcome;
use xxhrs::{
    EntropyError, EntropyPool, RandomStateXXH32, RandomStateXXH3_128, RandomStateXXH3_64,
    RandomStateXXH64, ENTROPY_POOL_SIZE, XXH32, XXH3_128, XXH3_64, XXH64,
};

fn fixture(len: usize) -> Vec<u8> {
    let mut out = Vec::with_capacity(len);
    let mut gen: u64 = 2654435761;
    for _ in 0..len {
        out.push((gen >> 56) as u8);
        gen = gen.wrapping_mul(11400714785074694797);
    }
    out
}

fn hex(bytes: &[u8]) -> String {
    let mut out = String::new();
    for byte in bytes {
        out.push_str(&format!("{:02x}", byte));
    }
    out
}

/// Stretches a key step by step with buffers and copies: the key fills 96
/// bytes by being copied behind itself, and each 16-byte segment after the
/// first is a digest of the first under a seed read from those bytes.
fn stretch_by_copying(key: &[u8]) -> [u8; 192] {
    let mut out = [0u8; 192];
    let scrambler = XXH3_128::hash_with_seed(0, key).to_be_bytes();
    let mut seeds = [0u8; 96];
    let mut to_fill = std::cmp::min(key.len(), 96);
    let mut filled = to_fill;
    seeds[..to_fill].copy_from_slice(&key[..to_fill]);
    while filled < 96 {
        to_fill = std::cmp::min(filled, 96 - filled);
        let (done, rest) = seeds.split_at_mut(filled);
        rest[..to_fill].copy_from_slice(&done[..to_fill]);
        filled += to_fill;
    }
    out[..16].copy_from_slice(&scrambler);
    for n in 1..12usize {
        let mut word = [0u8; 8];
        word.copy_from_slice(&seeds[8 * n..8 * n + 8]);
        let seed = u64::from_le_bytes(word).wrapping_add(n as u64);
        let segment = XXH3_128::hash_with_seed(seed, &scrambler).to_be_bytes();
        out[16 * n..16 * n + 16].copy_from_slice(&segment);
    }
    out
}

#[test]
fn seed_derivation_is_deterministic() {
    assert_eq!(EntropyPool::with_seed(42), EntropyPool::with_seed(42));
    assert_eq!(EntropyPool::with_seed(42).entropy, EntropyPool::with_seed(42).entropy);
    assert_ne!(EntropyPool::with_seed(42), EntropyPool::with_seed(43));
    assert_eq!(
        hex(&EntropyPool::with_seed(42).entropy),
        "e2fe6c3923a44bbe5201812cf721ad1c08d56de9839097db4840a4a4b7b3671f\
f579e64eccc0e578585ad07dccff7221e2084674f743248eb63590e6813a264c\
662852bb91c300cb5ed0658b1b532ea39b644897a20df94e0e19ef46a9deacd8\
d2fa763fe39c343fcfdcbbc7c70b4f1db451e04bcdb459319e9f7ec9d9787364\
14c6ac8334d3ebc39b81a0fffa1363eb410ddd51b7f0da49a916552629d4689e\
5516be587d47a1fc65f8b8d17ad031ce6fcb3a8f9516042885d7fbcabb4b407e"
    );
}

#[test]
fn seed_derivation_adds_and_subtracts_the_seed() {
    let plain = EntropyPool::with_seed(0);
    assert_eq!(hex(&plain.entropy[..16]), "b8fe6c3923a44bbe7c01812cf721ad1c");
    for seed in [1u64, 42, 0x06cd630df7649871, u64::MAX] {
        let pool = EntropyPool::with_seed(seed);
        for pair in 0..ENTROPY_POOL_SIZE / 16 {
            let mut low = [0u8; 8];
            let mut high = [0u8; 8];
            low.copy_from_slice(&plain.entropy[16 * pair..16 * pair + 8]);
            high.copy_from_slice(&plain.entropy[16 * pair + 8..16 * pair + 16]);
            let low = u64::from_le_bytes(low).wrapping_add(seed).to_le_bytes();
            let high = u64::from_le_bytes(high).wrapping_sub(seed).to_le_bytes();
            assert_eq!(&pool.entropy[16 * pair..16 * pair + 8], &low[..]);
            assert_eq!(&pool.entropy[16 * pair + 8..16 * pair + 16], &high[..]);
        }
    }
}

#[test]
fn a_seed_pool_hashes_long_input_like_the_seed() {
    let data = fixture(1000);
    for seed in [1u64, 42, 0x06cd630df7649871] {
        let pool = EntropyPool::with_seed(seed);
        assert_eq!(XXH3_64::hash_with_entropy(&pool, &data), XXH3_64::hash_with_seed(seed, &data));
        assert_eq!(
            XXH3_128::hash_with_entropy(&pool, &data),
            XXH3_128::hash_with_seed(seed, &data)
        );
    }
}

#[test]
fn key_derivation_is_deterministic() {
    let key = b"correct horse battery staple";
    assert_eq!(EntropyPool::with_key(key), EntropyPool::with_key(key));
    assert_eq!(EntropyPool::with_key_xof(key), EntropyPool::with_key_xof(key));
    assert_ne!(EntropyPool::with_key(key), EntropyPool::with_key_xof(key));
    assert_ne!(EntropyPool::with_key(key), EntropyPool::with_key(b"correct horse battery stapler"));
    assert_ne!(
        EntropyPool::with_key_xof(key),
        EntropyPool::with_key_xof(b"correct horse battery stapler")
    );
}

#[test]
fn key_stretching_matches_the_stepwise_construction() {
    let material = fixture(300);
    for len in [1usize, 2, 3, 7, 8, 9, 16, 28, 48, 95, 96, 97, 191, 192, 200, 300] {
        let key = &material[..len];
        assert_eq!(EntropyPool::with_key(key).entropy, stretch_by_copying(key));
    }
    assert_eq!(EntropyPool::with_key(b"abc").entropy, stretch_by_copying(b"abc"));
}

#[test]
fn key_stretching_known_pool() {
    let pool = EntropyPool::with_key(b"abc");
    assert_eq!(
        hex(&pool.entropy),
        "06b05ab6733a618578af5f94892f395085018daccb0743f5f2a7d9dc90847e7f\
4537c73178bf1acce4f48d14c3adaaaf736430cc1270f9ea65365d691a704514\
b7387a51a9a67f70681b9eb46b0b123ba13c42e9879520adec22729d3b1b3a33\
0761f9c38c3a89ba6c6f76e552f9ac929ed54189e2bfb6bf012e18e2442851e1\
d0e7d033de321bbf807c422b5285f5ab4a4a48cbd53c107ccf5e27d3988727cd\
1d05671b17ad65f14c446cf24b08d4ec2c96808269477b344e63d0c2b05706c9"
    );
    assert_eq!(&pool.entropy[..16], &XXH3_128::hash(b"abc").to_be_bytes()[..]);
}

#[test]
fn the_empty_key_gives_the_pool_of_seed_zero() {
    assert_eq!(EntropyPool::with_key(b""), EntropyPool::with_seed(0));
    let data = fixture(500);
    assert_eq!(
        XXH3_64::hash_with_entropy(&EntropyPool::with_key(b""), &data),
        XXH3_64::hash(&data)
    );
}

#[test]
fn xof_derivation_known_output() {
    assert_eq!(
        hex(&EntropyPool::with_key_xof(b"").entropy[..32]),
        "7f9c2ba4e88f827d616045507605853ed73b8093f6efbc88eb1a6eacfa66ef26"
    );
    assert_eq!(
        hex(&EntropyPool::with_key_xof(b"abc").entropy[..32]),
        "5881092dd818bf5cf8a3ddb793fbcba74097d5c526a6d35f97b83351940f2cc8"
    );
    assert_eq!(
        hex(&EntropyPool::with_key_xof(b"correct horse battery staple").entropy),
        "db7d23450c07f0c3a4cb66165972c40539a0db6ee01026ffcae1697fe997cf8a\
ee3e00625e0b08212ad85e21297c16022a3bbe0b30a5a14d0c8d59d628b5fe02\
d8a285414291ce16d37107ca9ec63d40280d533ce40eeffb233f41ec011c4e0c\
7aa40d3e349b1c48ad62d2a91914a05a15469ae0f5d646231e44683a1f91a2ef\
24c8641f15c6c2149639542c6f79da3cbb36b43b6ff40b28723f5663b3d09a88\
c5ee9ea1639bc84870e0364abea8aeed222f59b1f6096c3bfa060876210f5380"
    );
}

#[test]
fn random_pools_differ() {
    let first = EntropyPool::randomize().unwrap();
    let second = EntropyPool::randomize().unwrap();
    assert_ne!(first, second);
    assert_ne!(first.entropy, [0u8; ENTROPY_POOL_SIZE]);
}

#[test]
fn random_outcome_hands_on_the_buffer_or_the_failure() {
    assert_eq!(random_outcome(Ok(()), [1u8, 2, 3, 4]), Ok([1u8, 2, 3, 4]));
    assert_eq!(
        random_outcome(Err(getrandom::Error::UNSUPPORTED), [1u8, 2, 3, 4]),
        Err(EntropyError::SourceUnavailable)
    );
}

#[test]
fn pools_compare_by_their_bytes() {
    let mut entropy = [7u8; ENTROPY_POOL_SIZE];
    let first = EntropyPool { entropy };
    assert_eq!(first, EntropyPool { entropy });
    assert_eq!(first.clone(), first);
    entropy[ENTROPY_POOL_SIZE - 1] = 8;
    assert_ne!(first, EntropyPool { entropy });
    entropy[ENTROPY_POOL_SIZE - 1] = 7;
    entropy[0] = 6;
    assert_ne!(first, EntropyPool { entropy });
}

#[test]
fn random_state_seed_is_read_low_byte_first() {
    assert_eq!(RandomStateXXH32::from_random_bytes([0x71, 0x98, 0x64, 0xf7]).seed, 0xf7649871);
    assert_eq!(
        RandomStateXXH64::from_random_bytes([0x71, 0x98, 0x64, 0xf7, 0x0d, 0x63, 0xcd, 0x06]).seed,
        0x06cd630df7649871
    );
}

#[test]
fn random_state_builds_hashers_under_its_seed_or_pool() {
    let data = fixture(300);

    let mut hasher = RandomStateXXH32 { seed: 5 }.build_hasher();
    hasher.write(&data);
    assert_eq!(hasher.finish(), XXH32::hash_with_seed(5, &data));

    let mut hasher = RandomStateXXH64 { seed: 5 }.build_hasher();
    Hasher::write(&mut hasher, &data);
    assert_eq!(Hasher::finish(&hasher), XXH64::hash_with_seed(5, &data));

    let pool = EntropyPool::with_key(b"table secret");
    let mut hasher = RandomStateXXH3_64 { pool: pool.clone() }.build_hasher();
    Hasher::write(&mut hasher, &data);
    assert_eq!(Hasher::finish(&hasher), XXH3_64::hash_with_entropy(&pool, &data));

    let state = RandomStateXXH3_128 { pool: pool.clone() };
    let mut hasher = state.build_hasher();
    hasher.write(&data);
    assert_eq!(hasher.finish(), XXH3_128::hash_with_entropy(&pool, &data));
    assert_eq!(state.clone().pool, pool);
}

#[test]
fn random_states_differ() {
    assert_ne!(RandomStateXXH64::new().unwrap().seed, RandomStateXXH64::new().unwrap().seed);
    assert_ne!(RandomStateXXH3_64::new().unwrap().pool, RandomStateXXH3_64::new().unwrap().pool);
    assert_ne!(RandomStateXXH3_128::new().unwrap().pool, RandomStateXXH3_128::new().unwrap().pool);
}

#[test]
fn a_pool_from_bytes_holds_those_bytes() {
    let mut bytes = [0u8; ENTROPY_POOL_SIZE];
    bytes.copy_from_slice(&fixture(ENTROPY_POOL_SIZE));
    let pool = EntropyPool::from_random_bytes(bytes);
    assert_eq!(pool.entropy, bytes);
    assert_eq!(pool, EntropyPool { entropy: bytes });
}

#[test]
fn a_random_state_from_a_pool_keys_its_hashers_by_it() {
    let mut bytes = [0u8; ENTROPY_POOL_SIZE];
    bytes.copy_from_slice(&fixture(ENTROPY_POOL_SIZE));
    let pool = EntropyPool::from_random_bytes(bytes);
    let data = fixture(42);

    let state = RandomStateXXH3_64::from_pool(pool.clone());
    assert_eq!(state.pool, pool);
    let mut hasher = state.build_hasher();
    Hasher::write(&mut hasher, &data);
    assert_eq!(
        Hasher::finish(&hasher),
        XXH3_64::hash_with_entropy(&EntropyPool { entropy: bytes }, &data)
    );

    let state = RandomStateXXH3_128::from_pool(pool.clone());
    assert_eq!(state.pool, pool);
    let mut hasher = state.build_hasher();
    hasher.write(&data);
    assert_eq!(
        hasher.finish(),
        XXH3_128::hash_with_entropy(&EntropyPool { entropy: bytes }, &data)
    );

    let other = RandomStateXXH3_64::from_pool(EntropyPool::with_seed(1));
    let mut hasher = other.build_hasher();
    Hasher::write(&mut hasher, &data);
    assert_ne!(
        Hasher::finish(&hasher),
        XXH3_64::hash_with_entropy(&EntropyPool { entropy: bytes }, &data)
    );
}
