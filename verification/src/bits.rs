//! Facts about the bit operations that the instructions use, stated as the
//! arithmetic that the specifications speak of.
use vstd::prelude::*;
use crate::alu::signed;

verus! {

/// The low nibble, the top and bottom bits, and the complement of a byte.
pub proof fn lemma_byte_masks(x: u8)
    by (bit_vector)
    ensures
        x & 0xf == x % 16,
        (x & 0x80 != 0) <==> (x >= 128),
        (x & 0x01 != 0) <==> (x % 2 == 1),
        !x == (255 - x) as u8,
{
}

/// The shifts and rotations of a byte, and of a byte with a carry bit `ci`.
pub proof fn lemma_byte_shifts(x: u8, ci: u8)
    by (bit_vector)
    requires
        ci <= 1,
    ensures
        (x << 1u8) | ci == ((x * 2 + ci) % 256) as u8,
        (x << 1u8) | (x >> 7u8) == ((x * 2 + x / 128) % 256) as u8,
        (x >> 1u8) | (ci << 7u8) == (x / 2 + ci * 128) as u8,
        (x >> 1u8) | (x << 7u8) == (x / 2 + (x % 2) * 128) as u8,
        x << 1u8 == ((x * 2) % 256) as u8,
        (x >> 1u8) | (x & 0x80) == (x / 2 + (x / 128) * 128) as u8,
        x >> 1u8 == x / 2,
        (x >> 4u8) | (x << 4u8) == ((x % 16) * 16 + x / 16) as u8,
{
}

/// The half carry of an addition, as `ADD` computes it.
pub proof fn lemma_add_half_carry(a: u8, v: u8)
    by (bit_vector)
    ensures
        (a & 0x0f) + (v | 0xf0) > 255 <==> a % 16 + v % 16 > 15,
{
}

/// A byte read as a signed offset.
pub proof fn lemma_offset_signed(e: u8)
    by (bit_vector)
    ensures
        (e as i8) as int == signed(e),
{
}

/// The sign extension of an offset byte to sixteen bits.
pub proof fn lemma_offset_byte(e: u8)
    by (bit_vector)
    ensures
        e < 128 ==> (e as i8) as u16 == e as u16,
        e >= 128 ==> (e as i8) as u16 == ((e as u16) + 0xff00u16) as u16,
        ((e as i8) as i16) as u16 == (e as i8) as u16,
        ((e as i8) as u16) % 16 == (e % 16) as u16,
        ((e as i8) as u16) % 256 == e as u16,
{
}

/// A signed offset as a sixteen-bit addend.
pub proof fn lemma_offset_word(offset: i8)
    by (bit_vector)
    ensures
        (offset as u16) as int == (offset as int + 0x10000) % 0x10000,
{
}

/// Putting a word together from its bytes and taking it apart.
pub proof fn lemma_word_bytes(h: u8, l: u8, v: u16)
    by (bit_vector)
    ensures
        ((h as u16) << 8u16) | (l as u16) == (h as u16) * 256 + (l as u16),
        v as u8 == (v % 256) as u8,
        (v >> 8u16) as u8 == (v / 256) as u8,
        0xff00u16 | (l as u16) == 0xff00u16 + (l as u16),
{
}

/// The carries out of bits 3, 7 and 11 of a sixteen-bit addition.
pub proof fn lemma_carry_masks(a: u16, b: u16)
    by (bit_vector)
    ensures
        8u16 | 7u16 == 15u16,
        128u16 | 127u16 == 255u16,
        2048u16 | 2047u16 == 4095u16,
        (a & 15) + (b & 15) > 15 <==> a % 16 + b % 16 >= 16,
        (a & 255) + (b & 255) > 255 <==> a % 256 + b % 256 >= 256,
        (a & 4095) + (b & 4095) > 4095 <==> a % 4096 + b % 4096 >= 4096,
{
}

/// The bit above bits 3, 7 and 11.
pub proof fn lemma_carry_bit(bit: u16, x: u16)
    by (bit_vector)
    requires
        x == 1u16 << bit,
        bit == 3 || bit == 7 || bit == 11,
    ensures
        bit == 3 ==> x == 8,
        bit == 7 ==> x == 128,
        bit == 11 ==> x == 2048,
{
}

} // verus!
