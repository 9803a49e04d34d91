//! What the arithmetic, logical, rotate, shift and bit operations compute,
//! and which flags they leave: stated over numbers, not bit patterns.
//!
//! A carry is a sum that passes 255, a half-carry a sum of low nibbles that
//! passes 15, a borrow a difference below zero. A shift by one place is a
//! multiplication or division by two.

use vstd::prelude::*;
use crate::instruction::{AluOp, ShiftOp};
use crate::register::{lemma_flags_byte, Flag, Register};
use crate::util::{pow2, rotated_left, rotated_right, swapped};

verus! {

/// A carry or borrow as the number that is added or subtracted.
pub open spec fn carry_in(carry: bool) -> int {
    if carry {
        1
    } else {
        0
    }
}

/// Registers after `A <- A + val + carry`.
pub open spec fn add_to_accumulator(reg: Register, val: u8, carry: bool) -> Register {
    let sum = reg.a + val + carry_in(carry);
    Register { a: (sum % 256) as u8, ..reg }.with_flags(
        sum % 256 == 0,
        false,
        reg.a % 16 + val % 16 + carry_in(carry) > 15,
        sum > 255,
    )
}

/// Registers after the flags were set as for `A - val - borrow`, with `A`
/// itself left alone.
pub open spec fn compare_with_accumulator(reg: Register, val: u8, borrow: bool) -> Register {
    let difference = reg.a - val - carry_in(borrow);
    reg.with_flags(
        difference % 256 == 0,
        true,
        reg.a % 16 < val % 16 + carry_in(borrow),
        difference < 0,
    )
}

/// Registers after `A <- A - val - borrow`.
pub open spec fn subtract_from_accumulator(reg: Register, val: u8, borrow: bool) -> Register {
    let difference = reg.a - val - carry_in(borrow);
    Register { a: (difference % 256) as u8, ..compare_with_accumulator(reg, val, borrow) }
}

/// Registers after `A <- A & val`.
pub open spec fn and_with_accumulator(reg: Register, val: u8) -> Register {
    Register { a: reg.a & val, ..reg }.with_flags(reg.a & val == 0, false, true, false)
}

/// Registers after `A <- A | val`.
pub open spec fn or_with_accumulator(reg: Register, val: u8) -> Register {
    Register { a: reg.a | val, ..reg }.with_flags(reg.a | val == 0, false, false, false)
}

/// Registers after `A <- A ^ val`.
pub open spec fn xor_with_accumulator(reg: Register, val: u8) -> Register {
    Register { a: reg.a ^ val, ..reg }.with_flags(reg.a ^ val == 0, false, false, false)
}

/// Registers after the accumulator operation `op` with operand `val`.
pub open spec fn alu(reg: Register, op: AluOp, val: u8) -> Register {
    match op {
        AluOp::Add => add_to_accumulator(reg, val, false),
        AluOp::Adc => add_to_accumulator(reg, val, reg.flag(Flag::C)),
        AluOp::Sub => subtract_from_accumulator(reg, val, false),
        AluOp::Sbc => subtract_from_accumulator(reg, val, reg.flag(Flag::C)),
        AluOp::And => and_with_accumulator(reg, val),
        AluOp::Xor => xor_with_accumulator(reg, val),
        AluOp::Or => or_with_accumulator(reg, val),
        AluOp::Cp => compare_with_accumulator(reg, val, false),
    }
}

/// `val + 1`, wrapping at 255.
pub open spec fn incremented(val: u8) -> u8 {
    ((val + 1) % 256) as u8
}

/// `val - 1`, wrapping at zero.
pub open spec fn decremented(val: u8) -> u8 {
    ((val - 1) % 256) as u8
}

/// Registers after the flags were set for an increment of `val`. The carry
/// flag stays as it is.
pub open spec fn after_increment(reg: Register, val: u8) -> Register {
    reg.with_flags(incremented(val) == 0, false, val % 16 == 15, reg.flag(Flag::C))
}

/// Registers after the flags were set for a decrement of `val`. The carry
/// flag stays as it is.
pub open spec fn after_decrement(reg: Register, val: u8) -> Register {
    reg.with_flags(decremented(val) == 0, true, val % 16 == 0, reg.flag(Flag::C))
}

/// Registers after `A <- !A`.
pub open spec fn complement_accumulator(reg: Register) -> Register {
    Register { a: (255 - reg.a) as u8, ..reg }.with_flags(
        reg.flag(Flag::Z),
        true,
        true,
        reg.flag(Flag::C),
    )
}

/// Registers after the carry flag was inverted.
pub open spec fn complement_carry(reg: Register) -> Register {
    reg.with_flags(reg.flag(Flag::Z), false, false, !reg.flag(Flag::C))
}

/// Registers after the carry flag was set.
pub open spec fn set_carry(reg: Register) -> Register {
    reg.with_flags(reg.flag(Flag::Z), false, false, true)
}

/// The byte that the rotate or shift `op` makes of `val`, where `carry` is
/// the carry flag before the operation.
pub open spec fn shifted(op: ShiftOp, val: u8, carry: bool) -> u8 {
    match op {
        ShiftOp::Rlc => rotated_left(val, 1),
        ShiftOp::Rrc => rotated_right(val, 1),
        ShiftOp::Rl => ((val % 128) * 2 + carry_in(carry)) as u8,
        ShiftOp::Rr => (val / 2 + carry_in(carry) * 128) as u8,
        ShiftOp::Sla => ((val % 128) * 2) as u8,
        ShiftOp::Sra => (val / 2 + (val / 128) * 128) as u8,
        ShiftOp::Swap => swapped(val),
        ShiftOp::Srl => val / 2,
    }
}

/// The bit that the rotate or shift `op` pushes out of `val` into the carry
/// flag. A swap pushes none out.
pub open spec fn shifted_out(op: ShiftOp, val: u8) -> bool {
    match op {
        ShiftOp::Rlc | ShiftOp::Rl | ShiftOp::Sla => val >= 128,
        ShiftOp::Rrc | ShiftOp::Rr | ShiftOp::Sra | ShiftOp::Srl => val % 2 == 1,
        ShiftOp::Swap => false,
    }
}

/// Registers after the flags were set for the rotate or shift `op` of `val`.
pub open spec fn after_shift(reg: Register, op: ShiftOp, val: u8) -> Register {
    reg.with_flags(shifted(op, val, reg.flag(Flag::C)) == 0, false, false, shifted_out(op, val))
}

/// Whether bit `index` of `val` is set. The index counts modulo 8.
pub open spec fn bit_of(val: u8, index: u8) -> bool {
    (val as int / pow2(index as int % 8)) % 2 == 1
}

/// `val` with bit `index` set to `state`. The index counts modulo 8.
pub open spec fn with_bit(val: u8, index: u8, state: bool) -> u8 {
    if bit_of(val, index) == state {
        val
    } else if state {
        (val + pow2(index as int % 8)) as u8
    } else {
        (val - pow2(index as int % 8)) as u8
    }
}

/// Registers after the flags were set for a test of bit `index` of `val`.
/// The carry flag stays as it is.
pub open spec fn after_bit_test(reg: Register, val: u8, index: u8) -> Register {
    reg.with_flags(!bit_of(val, index), false, true, reg.flag(Flag::C))
}

/// Incrementing undoes decrementing and decrementing undoes incrementing,
/// for every byte, the two that wrap included. Neither touches the carry
/// flag or any register but `F`; zero, subtract and half-carry follow from
/// the operand and the result.
pub proof fn lemma_increment_decrement(reg: Register, val: u8)
    ensures
        incremented(decremented(val)) == val,
        decremented(incremented(val)) == val,
        after_increment(reg, val).flag(Flag::C) == reg.flag(Flag::C),
        after_decrement(reg, val).flag(Flag::C) == reg.flag(Flag::C),
        after_increment(reg, val).flag(Flag::Z) == (incremented(val) == 0),
        after_decrement(reg, val).flag(Flag::Z) == (decremented(val) == 0),
        !after_increment(reg, val).flag(Flag::N),
        after_decrement(reg, val).flag(Flag::N),
        after_increment(reg, val).flag(Flag::H) == (incremented(val) % 16 == 0),
        after_decrement(reg, val).flag(Flag::H) == (decremented(val) % 16 == 15),
        after_increment(reg, val) == (Register { f: after_increment(reg, val).f, ..reg }),
        after_decrement(reg, val) == (Register { f: after_decrement(reg, val).f, ..reg }),
{
    lemma_flags_byte(incremented(val) == 0, false, val % 16 == 15, reg.flag(Flag::C));
    lemma_flags_byte(decremented(val) == 0, true, val % 16 == 0, reg.flag(Flag::C));
}

/// Every operation of this module leaves the low nibble of `F` zero, and
/// leaves the flags that it is said to set.
pub proof fn lemma_flags_after(reg: Register, zero: bool, subtract: bool, half_carry: bool, carry: bool)
    ensures
        reg.with_flags(zero, subtract, half_carry, carry).wf(),
        reg.with_flags(zero, subtract, half_carry, carry).flag(Flag::Z) == zero,
        reg.with_flags(zero, subtract, half_carry, carry).flag(Flag::N) == subtract,
        reg.with_flags(zero, subtract, half_carry, carry).flag(Flag::H) == half_carry,
        reg.with_flags(zero, subtract, half_carry, carry).flag(Flag::C) == carry,
{
    lemma_flags_byte(zero, subtract, half_carry, carry);
}

/// Every accumulator operation leaves the low nibble of `F` zero and
/// changes no register but `A` and `F`.
pub proof fn lemma_alu_flags(reg: Register, op: AluOp, val: u8)
    ensures
        alu(reg, op, val).wf(),
        alu(reg, op, val) == (Register { a: alu(reg, op, val).a, f: alu(reg, op, val).f, ..reg }),
        op == AluOp::Cp ==> alu(reg, op, val).a == reg.a,
{
    match op {
        AluOp::Add => lemma_add_flags(reg, val, false),
        AluOp::Adc => lemma_add_flags(reg, val, reg.flag(Flag::C)),
        AluOp::Sub => lemma_subtract_flags(reg, val, false),
        AluOp::Sbc => lemma_subtract_flags(reg, val, reg.flag(Flag::C)),
        AluOp::And => lemma_flags_byte(reg.a & val == 0, false, true, false),
        AluOp::Xor => lemma_flags_byte(reg.a ^ val == 0, false, false, false),
        AluOp::Or => lemma_flags_byte(reg.a | val == 0, false, false, false),
        AluOp::Cp => lemma_subtract_flags(reg, val, false),
    }
}

proof fn lemma_add_flags(reg: Register, val: u8, carry: bool)
    ensures
        add_to_accumulator(reg, val, carry).wf(),
{
    let sum = reg.a + val + carry_in(carry);
    lemma_flags_byte(sum % 256 == 0, false, reg.a % 16 + val % 16 + carry_in(carry) > 15, sum > 255);
}

proof fn lemma_subtract_flags(reg: Register, val: u8, borrow: bool)
    ensures
        subtract_from_accumulator(reg, val, borrow).wf(),
        compare_with_accumulator(reg, val, borrow).wf(),
{
    let difference = reg.a - val - carry_in(borrow);
    lemma_flags_byte(
        difference % 256 == 0,
        true,
        reg.a % 16 < val % 16 + carry_in(borrow),
        difference < 0,
    );
}

} // verus!
