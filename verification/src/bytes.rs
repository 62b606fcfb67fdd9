//! Integers as bytes, in the two byte orders the library reads and writes.
use vstd::prelude::*;

verus! {

/// The value of four bytes read least significant first.
pub open spec fn le_u32(bytes: Seq<u8>) -> u32 {
    (bytes[0] as int + bytes[1] as int * 0x100 + bytes[2] as int * 0x1_0000 + bytes[3] as int
        * 0x100_0000) as u32
}

/// The value of eight bytes read least significant first.
pub open spec fn le_u64(bytes: Seq<u8>) -> u64 {
    (bytes[0] as int + bytes[1] as int * 0x100 + bytes[2] as int * 0x1_0000 + bytes[3] as int
        * 0x100_0000 + bytes[4] as int * 0x1_0000_0000 + bytes[5] as int * 0x100_0000_0000
        + bytes[6] as int * 0x1_0000_0000_0000 + bytes[7] as int * 0x100_0000_0000_0000) as u64
}

/// Byte `index` of a 128-bit value, counted from the least significant.
pub open spec fn byte_of_u128(value: u128, index: nat) -> u8 {
    ((value as int / vstd::arithmetic::power::pow(256, index)) % 256) as u8
}

/// The sixteen bytes of `value`, most significant first.
pub open spec fn be_bytes_u128(value: u128) -> Seq<u8> {
    Seq::new(16, |i: int| byte_of_u128(value, (15 - i) as nat))
}

/// Reads four bytes least significant first.
pub(crate) fn u32_from_le(bytes: &[u8; 4]) -> (value: u32)
    ensures
        value == le_u32(bytes@),
{
    let b0 = bytes[0];
    let b1 = bytes[1];
    let b2 = bytes[2];
    let b3 = bytes[3];
    let value = (b0 as u32) | (b1 as u32) << 8 | (b2 as u32) << 16 | (b3 as u32) << 24;
    assert(value == b0 + b1 * 0x100 + b2 * 0x1_0000 + b3 * 0x100_0000) by (bit_vector)
        requires
            value == (b0 as u32) | (b1 as u32) << 8 | (b2 as u32) << 16 | (b3 as u32) << 24,
    ;
    value
}

/// Reads eight bytes least significant first.
pub(crate) fn u64_from_le(bytes: &[u8; 8]) -> (value: u64)
    ensures
        value == le_u64(bytes@),
{
    let b0 = bytes[0];
    let b1 = bytes[1];
    let b2 = bytes[2];
    let b3 = bytes[3];
    let b4 = bytes[4];
    let b5 = bytes[5];
    let b6 = bytes[6];
    let b7 = bytes[7];
    let value = (b0 as u64) | (b1 as u64) << 8 | (b2 as u64) << 16 | (b3 as u64) << 24 | (
    b4 as u64) << 32 | (b5 as u64) << 40 | (b6 as u64) << 48 | (b7 as u64) << 56;
    assert(value == b0 + b1 * 0x100 + b2 * 0x1_0000 + b3 * 0x100_0000 + b4 * 0x1_0000_0000 + b5
        * 0x100_0000_0000 + b6 * 0x1_0000_0000_0000 + b7 * 0x100_0000_0000_0000) by (bit_vector)
        requires
            value == (b0 as u64) | (b1 as u64) << 8 | (b2 as u64) << 16 | (b3 as u64) << 24 | (
            b4 as u64) << 32 | (b5 as u64) << 40 | (b6 as u64) << 48 | (b7 as u64) << 56,
    ;
    value
}

/// Writes sixteen bytes most significant first.
pub(crate) fn u128_to_be(value: u128) -> (bytes: [u8; 16])
    ensures
        bytes@ == be_bytes_u128(value),
{
    let mut bytes = [0u8; 16];
    let mut rest = value;
    let mut i: usize = 0;
    proof {
        vstd::arithmetic::power::lemma_pow0(256);
    }
    while i < 16
        invariant
            i <= 16,
            rest as int == value as int / vstd::arithmetic::power::pow(256, i as nat),
            forall|k: int| 16 - i <= k < 16 ==> bytes@[k] == byte_of_u128(value, (15 - k) as nat),
        decreases 16 - i,
    {
        let low = #[verifier::truncate] ((rest & 0xff) as u8);
        proof {
            assert(low == rest % 256 && rest >> 8 == rest / 256) by (bit_vector)
                requires
                    low == #[verifier::truncate] ((rest & 0xff) as u8),
            ;
            lemma_next_byte(value as int, i as nat);
        }
        bytes[15 - i] = low;
        rest = rest >> 8;
        i += 1;
    }
    assert(bytes@ =~= be_bytes_u128(value));
    bytes
}

/// Dividing by one more power of 256 is dividing the quotient by 256.
proof fn lemma_next_byte(value: int, index: nat)
    requires
        0 <= value,
    ensures
        vstd::arithmetic::power::pow(256, index) > 0,
        value / vstd::arithmetic::power::pow(256, index + 1) == (value
            / vstd::arithmetic::power::pow(256, index)) / 256,
{
    vstd::arithmetic::power::lemma_pow_positive(256, index);
    vstd::arithmetic::power::lemma_pow1(256);
    vstd::arithmetic::power::lemma_pow_adds(256, index, 1);
    vstd::arithmetic::div_mod::lemma_div_denominator(
        value,
        vstd::arithmetic::power::pow(256, index),
        256,
    );
}

} // verus!
