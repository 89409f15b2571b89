//! Big-endian integers and flag bits, as the byte layouts of commands and
//! device responses use them.
//!
//! Everything is stated arithmetically: a byte of an integer is a quotient and
//! a remainder, a flag is the value of its mask or zero, and the bits of a byte
//! that do not overlap add up. The executable code packs and tests bits with
//! the bitwise operators and is proved to agree with the arithmetic.

use vstd::prelude::*;

verus! {

/// The weight of the byte `k` places above the least significant one.
pub open spec fn place(k: nat) -> nat {
    if k == 0 {
        0x1
    } else if k == 1 {
        0x100
    } else if k == 2 {
        0x1_0000
    } else if k == 3 {
        0x100_0000
    } else if k == 4 {
        0x1_0000_0000
    } else if k == 5 {
        0x100_0000_0000
    } else if k == 6 {
        0x1_0000_0000_0000
    } else {
        0x100_0000_0000_0000
    }
}

/// Byte `k` of `value`, counted from the least significant byte (`k == 0`).
pub open spec fn octet(value: nat, k: nat) -> u8 {
    ((value / place(k)) % 256) as u8
}

/// Byte `k` of a 16-bit value.
pub open spec fn octet_u16(value: u16, k: nat) -> u8 {
    octet(value as nat, k)
}

/// Byte `k` of a 32-bit value.
pub open spec fn octet_u32(value: u32, k: nat) -> u8 {
    octet(value as nat, k)
}

/// Byte `k` of a 64-bit value.
pub open spec fn octet_u64(value: u64, k: nat) -> u8 {
    octet(value as nat, k)
}

/// The byte that holds `total`, the sum of the parts packed into it.
pub open spec fn byte(total: int) -> u8 {
    total as u8
}

/// The value of a flag in a packed byte: its mask when set, zero otherwise.
pub open spec fn flag(set: bool, mask: u8) -> u8 {
    if set {
        mask
    } else {
        0
    }
}

/// Whether every bit of `mask` is set in `byte`, for a mask of a single bit.
pub open spec fn has_bit(byte: u8, mask: u8) -> bool {
    (byte as nat / mask as nat) % 2 == 1
}

/// A single-bit mask.
pub open spec fn single_bit(mask: u8) -> bool {
    mask == 0x01 || mask == 0x02 || mask == 0x04 || mask == 0x08 || mask == 0x10 || mask == 0x20
        || mask == 0x40 || mask == 0x80
}

/// The two-byte big-endian integer at `at`.
pub open spec fn be16(s: Seq<u8>, at: int) -> nat {
    s[at] as nat * 0x100 + s[at + 1] as nat
}

/// The three-byte big-endian integer at `at`.
pub open spec fn be24(s: Seq<u8>, at: int) -> nat {
    s[at] as nat * 0x1_0000 + s[at + 1] as nat * 0x100 + s[at + 2] as nat
}

/// The four-byte big-endian integer at `at`.
pub open spec fn be32(s: Seq<u8>, at: int) -> nat {
    s[at] as nat * 0x100_0000 + s[at + 1] as nat * 0x1_0000 + s[at + 2] as nat * 0x100 + s[at
        + 3] as nat
}

/// The eight-byte big-endian integer at `at`.
pub open spec fn be64(s: Seq<u8>, at: int) -> nat {
    be32(s, at) * 0x1_0000_0000 + be32(s, at + 4)
}

/// Byte `k` of a 16-bit value, counted from the least significant byte.
pub(crate) fn byte_of_u16(value: u16, k: u8) -> (byte: u8)
    requires
        k < 2,
    ensures
        byte == octet_u16(value, k as nat),
{
    byte_of_u64(value as u64, k)
}

/// Byte `k` of a 32-bit value, counted from the least significant byte.
pub(crate) fn byte_of_u32(value: u32, k: u8) -> (byte: u8)
    requires
        k < 4,
    ensures
        byte == octet_u32(value, k as nat),
{
    byte_of_u64(value as u64, k)
}

/// Byte `k` of a 64-bit value, counted from the least significant byte.
pub(crate) fn byte_of_u64(value: u64, k: u8) -> (byte: u8)
    requires
        k < 8,
    ensures
        byte == octet_u64(value, k as nat),
{
    let weight: u64 = if k == 0 {
        0x1
    } else if k == 1 {
        0x100
    } else if k == 2 {
        0x1_0000
    } else if k == 3 {
        0x100_0000
    } else if k == 4 {
        0x1_0000_0000
    } else if k == 5 {
        0x100_0000_0000
    } else if k == 6 {
        0x1_0000_0000_0000
    } else {
        0x100_0000_0000_0000
    };
    ((value / weight) % 256) as u8
}

/// The mask of a flag that is set, zero for one that is not.
pub(crate) fn flag_bit(set: bool, mask: u8) -> (byte: u8)
    ensures
        byte == flag(set, mask),
{
    if set {
        mask
    } else {
        0
    }
}

/// Tests one bit of a byte.
pub(crate) fn bit_is_set(byte: u8, mask: u8) -> (set: bool)
    requires
        single_bit(mask),
    ensures
        set == has_bit(byte, mask),
{
    let set = byte & mask == mask;
    assert(set == ((byte / mask) % 2 == 1)) by (bit_vector)
        requires
            set == (byte & mask == mask),
            mask == 0x01 || mask == 0x02 || mask == 0x04 || mask == 0x08 || mask == 0x10 || mask
                == 0x20 || mask == 0x40 || mask == 0x80,
    ;
    set
}

/// The low bits of a byte that `mask` keeps, for a mask of the low bits.
pub(crate) fn low_bits(byte: u8, mask: u8) -> (kept: u8)
    requires
        mask == 0x0F || mask == 0x1F || mask == 0x7F,
    ensures
        kept as nat == byte as nat % (mask as nat + 1),
{
    let kept = byte & mask;
    assert(kept == byte % ((mask + 1) as u8)) by (bit_vector)
        requires
            kept == byte & mask,
            mask == 0x0F || mask == 0x1F || mask == 0x7F,
    ;
    kept
}

/// Reads the two-byte big-endian integer at `at`.
pub(crate) fn read_be16(buf: &[u8], at: usize) -> (value: u16)
    requires
        at + 2 <= buf.len(),
    ensures
        value == be16(buf@, at as int),
{
    let hi: u16 = buf[at] as u16;
    let lo: u16 = buf[at + 1] as u16;
    hi * 0x100 + lo
}

/// Reads the three-byte big-endian integer at `at`.
pub(crate) fn read_be24(buf: &[u8], at: usize) -> (value: u32)
    requires
        at + 3 <= buf.len(),
    ensures
        value == be24(buf@, at as int),
{
    let b0: u32 = buf[at] as u32;
    let b1: u32 = buf[at + 1] as u32;
    let b2: u32 = buf[at + 2] as u32;
    b0 * 0x1_0000 + b1 * 0x100 + b2
}

/// Reads the four-byte big-endian integer at `at`.
pub(crate) fn read_be32(buf: &[u8], at: usize) -> (value: u32)
    requires
        at + 4 <= buf.len(),
    ensures
        value == be32(buf@, at as int),
{
    let b0: u32 = buf[at] as u32;
    let b1: u32 = buf[at + 1] as u32;
    let b2: u32 = buf[at + 2] as u32;
    let b3: u32 = buf[at + 3] as u32;
    b0 * 0x100_0000 + b1 * 0x1_0000 + b2 * 0x100 + b3
}

/// Reads the eight-byte big-endian integer at `at`.
pub(crate) fn read_be64(buf: &[u8], at: usize) -> (value: u64)
    requires
        at + 8 <= buf.len(),
    ensures
        value == be64(buf@, at as int),
{
    let hi: u64 = read_be32(buf, at) as u64;
    let lo: u64 = read_be32(buf, at + 4) as u64;
    hi * 0x1_0000_0000 + lo
}

} // verus!
