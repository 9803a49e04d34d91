//! Byte and word helpers shared by the register file and the engine.
//!
//! Every helper is specified arithmetically: a byte is a number below 256,
//! a nibble a number below 16, and shifting by `k` places is multiplication
//! or division by `2^k`.

use vstd::prelude::*;

verus! {

/// `2^exponent` for the exponents that occur in a byte, `0..=8`.
pub open spec fn pow2(exponent: int) -> int {
    if exponent <= 0 {
        1
    } else if exponent == 1 {
        2
    } else if exponent == 2 {
        4
    } else if exponent == 3 {
        8
    } else if exponent == 4 {
        16
    } else if exponent == 5 {
        32
    } else if exponent == 6 {
        64
    } else if exponent == 7 {
        128
    } else {
        256
    }
}

/// The 16-bit word whose high byte is `msb` and whose low byte is `lsb`.
pub open spec fn word_of(msb: u8, lsb: u8) -> u16 {
    (msb * 256 + lsb) as u16
}

/// The low byte of `word`.
pub open spec fn low_byte(word: u16) -> u8 {
    (word % 256) as u8
}

/// The high byte of `word`.
pub open spec fn high_byte(word: u16) -> u8 {
    (word / 256) as u8
}

/// `byte` with its two nibbles exchanged.
pub open spec fn swapped(byte: u8) -> u8 {
    ((byte % 16) * 16 + byte / 16) as u8
}

/// `byte` rotated left by `amount` places, counted modulo 8: the low bits
/// move up by that many places, and the bits that leave at the top come
/// back in at the bottom.
pub open spec fn rotated_left(byte: u8, amount: u8) -> u8 {
    let k = amount % 8;
    ((byte as int) % pow2(8 - k) * pow2(k as int) + (byte as int) / pow2(8 - k)) as u8
}

/// `byte` rotated right by `amount` places, counted modulo 8: the high
/// bits move down by that many places, and the bits that leave at the
/// bottom come back in at the top.
pub open spec fn rotated_right(byte: u8, amount: u8) -> u8 {
    let k = amount % 8;
    ((byte as int) / pow2(k as int) + (byte as int) % pow2(k as int) * pow2(8 - k)) as u8
}

/// Shifts and masks on a word, as multiplication, division and remainder.
proof fn lemma_word_bits(msb: u8, lsb: u8, word: u16)
    by (bit_vector)
    ensures
        ((msb as u16) << 8) | (lsb as u16) == msb * 256 + lsb,
        (word & 0x00FF) == word % 256,
        (word >> 8) == word / 256,
        (word >> 8) < 256,
{
}

/// The nibble exchange by shifts, as arithmetic.
proof fn lemma_swap_bits(byte: u8)
    by (bit_vector)
    ensures
        (byte << 4) | (byte >> 4) == (byte % 16) * 16 + byte / 16,
{
}

/// The rotations by one to seven places by shifts, as arithmetic.
proof fn lemma_rotate_bits(byte: u8)
    by (bit_vector)
    ensures
        (byte << 1) | (byte >> 7) == (byte % 128) * 2 + byte / 128,
        (byte << 2) | (byte >> 6) == (byte % 64) * 4 + byte / 64,
        (byte << 3) | (byte >> 5) == (byte % 32) * 8 + byte / 32,
        (byte << 4) | (byte >> 4) == (byte % 16) * 16 + byte / 16,
        (byte << 5) | (byte >> 3) == (byte % 8) * 32 + byte / 8,
        (byte << 6) | (byte >> 2) == (byte % 4) * 64 + byte / 4,
        (byte << 7) | (byte >> 1) == (byte % 2) * 128 + byte / 2,
        (byte >> 1) | (byte << 7) == byte / 2 + (byte % 2) * 128,
        (byte >> 2) | (byte << 6) == byte / 4 + (byte % 4) * 64,
        (byte >> 3) | (byte << 5) == byte / 8 + (byte % 8) * 32,
        (byte >> 4) | (byte << 4) == byte / 16 + (byte % 16) * 16,
        (byte >> 5) | (byte << 3) == byte / 32 + (byte % 32) * 8,
        (byte >> 6) | (byte << 2) == byte / 64 + (byte % 64) * 4,
        (byte >> 7) | (byte << 1) == byte / 128 + (byte % 128) * 2,
{
}

/// Creates a word from two bytes.
#[inline]
pub fn make_word(msb: u8, lsb: u8) -> (word: u16)
    ensures
        word == word_of(msb, lsb),
{
    proof {
        lemma_word_bits(msb, lsb, 0);
    }
    ((msb as u16) << 8) | (lsb as u16)
}

/// Return the LSB (least significant byte) of the given word.
#[inline]
pub fn lsb(word: u16) -> (byte: u8)
    ensures
        byte == low_byte(word),
{
    proof {
        lemma_word_bits(0, 0, word);
    }
    (word & 0x00FF) as u8
}

/// Return the MSB (most significant byte) of the given word.
#[inline]
pub fn msb(word: u16) -> (byte: u8)
    ensures
        byte == high_byte(word),
{
    proof {
        lemma_word_bits(0, 0, word);
    }
    (word >> 8) as u8
}

/// Swap upper and lower nibbles of the byte and return the result.
#[inline]
pub fn swap(byte: u8) -> (result: u8)
    ensures
        result == swapped(byte),
{
    proof {
        lemma_swap_bits(byte);
    }
    (byte << 4) | (byte >> 4)
}

/// Rotate the byte left by `amount` places, counted modulo 8.
#[inline]
pub fn rotate_left(byte: u8, amount: u8) -> (result: u8)
    ensures
        result == rotated_left(byte, amount),
{
    let k: u8 = amount % 8;
    if k == 0 {
        byte
    } else {
        proof {
            lemma_rotate_bits(byte);
        }
        (byte << k) | (byte >> (8 - k))
    }
}

/// Rotate the byte right by `amount` places, counted modulo 8.
#[inline]
pub fn rotate_right(byte: u8, amount: u8) -> (result: u8)
    ensures
        result == rotated_right(byte, amount),
{
    let k: u8 = amount % 8;
    if k == 0 {
        byte
    } else {
        proof {
            lemma_rotate_bits(byte);
        }
        (byte >> k) | (byte << (8 - k))
    }
}

/// Joining the two halves of a word gives the word back, and the halves of
/// a joined word are the bytes it was made of.
pub proof fn lemma_word_round_trip(word: u16, msb: u8, lsb: u8)
    ensures
        word_of(high_byte(word), low_byte(word)) == word,
        high_byte(word_of(msb, lsb)) == msb,
        low_byte(word_of(msb, lsb)) == lsb,
{
}

/// Exchanging the nibbles twice gives the byte back.
pub proof fn lemma_swap_involution(byte: u8)
    ensures
        swapped(swapped(byte)) == byte,
{
}

/// `byte` rotated left by `k` places, written with shifts.
spec fn shifted_around_left(byte: u8, k: u8) -> u8 {
    if k == 0 {
        byte
    } else {
        (byte << k) | (byte >> ((8 - k) as u8))
    }
}

/// `byte` rotated right by `k` places, written with shifts.
spec fn shifted_around_right(byte: u8, k: u8) -> u8 {
    if k == 0 {
        byte
    } else {
        (byte >> k) | (byte << ((8 - k) as u8))
    }
}

/// The arithmetic and the shift form of a rotation agree.
proof fn lemma_rotations_are_shifts(byte: u8, amount: u8)
    ensures
        rotated_left(byte, amount) == shifted_around_left(byte, amount % 8),
        rotated_right(byte, amount) == shifted_around_right(byte, amount % 8),
{
    lemma_rotate_bits(byte);
}

/// In shift form, rotating by `k` one way and then the other way gives
/// the byte back.
proof fn lemma_shifts_undo_each_other(byte: u8, k: u8, j: u8)
    by (bit_vector)
    requires
        0 < k < 8,
        j == 8 - k,
    ensures
        (((byte << k) | (byte >> j)) >> k) | (((byte << k) | (byte >> j)) << j) == byte,
        (((byte >> k) | (byte << j)) << k) | (((byte >> k) | (byte << j)) >> j) == byte,
{
}

/// Rotating right undoes rotating left by the same amount, and the other
/// way round.
pub proof fn lemma_rotate_inverse(byte: u8, amount: u8)
    ensures
        rotated_right(rotated_left(byte, amount), amount) == byte,
        rotated_left(rotated_right(byte, amount), amount) == byte,
{
    let k = amount % 8;
    lemma_rotations_are_shifts(byte, amount);
    lemma_rotations_are_shifts(rotated_left(byte, amount), amount);
    lemma_rotations_are_shifts(rotated_right(byte, amount), amount);
    if k != 0 {
        lemma_shifts_undo_each_other(byte, k, (8 - k) as u8);
    }
}

} // verus!
