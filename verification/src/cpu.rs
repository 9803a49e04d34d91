//! The decode-execute engine: a register file and a memory, advanced one
//! instruction at a time.

use vstd::prelude::*;
use crate::alu::{
    add_to_accumulator, after_bit_test, after_decrement, after_increment, after_shift, alu,
    complement_accumulator, complement_carry, decremented, incremented, set_carry, shifted,
    subtract_from_accumulator, with_bit,
};
use crate::instruction::{
    decode, decode_extended, AluOp, DecodeError, ExtendedInstruction, Instruction, Place, Pointer, ShiftOp, Source,
    StackReg, WordReg,
};
use crate::machine::{place_cost, pointer_cost, relative_target, Machine};
use crate::memory::{load, zeroed, LoadError, Mmu, MEM_BANK_SIZE};
use crate::register::{Flag, Register};
use crate::util::{lsb, make_word, msb, rotate_left, rotate_right};

verus! {

/// Masks and shifts by one place on a byte, as arithmetic.
proof fn lemma_byte_bits(x: u8)
    by (bit_vector)
    ensures
        x & 0x0F == x % 16,
        (x & 0x80 != 0) == (x >= 128),
        (x & 1 != 0) == (x % 2 == 1),
        !x == 255 - x,
        x << 1 == (x % 128) * 2,
        x >> 1 == x / 2,
        (x >> 1) | (x & 0x80) == x / 2 + (x / 128) * 128,
        (x << 1) | 0 == (x % 128) * 2,
        (x << 1) | 1 == (x % 128) * 2 + 1,
        (x >> 1) | (0u8 << 7) == x / 2,
        (x >> 1) | (1u8 << 7) == x / 2 + 128,
{
}

/// Testing, setting and clearing each bit of a byte with a mask, as
/// arithmetic.
proof fn lemma_mask_bits(x: u8)
    by (bit_vector)
    ensures
        1u8 << 0 == 1,
        1u8 << 1 == 2,
        1u8 << 2 == 4,
        1u8 << 3 == 8,
        1u8 << 4 == 16,
        1u8 << 5 == 32,
        1u8 << 6 == 64,
        1u8 << 7 == 128,
        (x & 1 == 0) == ((x / 1) % 2 == 0),
        (x & 2 == 0) == ((x / 2) % 2 == 0),
        (x & 4 == 0) == ((x / 4) % 2 == 0),
        (x & 8 == 0) == ((x / 8) % 2 == 0),
        (x & 16 == 0) == ((x / 16) % 2 == 0),
        (x & 32 == 0) == ((x / 32) % 2 == 0),
        (x & 64 == 0) == ((x / 64) % 2 == 0),
        (x & 128 == 0) == ((x / 128) % 2 == 0),
        x | 1 == (if x & 1 == 0 { x + 1 } else { x as int }),
        x | 2 == (if x & 2 == 0 { x + 2 } else { x as int }),
        x | 4 == (if x & 4 == 0 { x + 4 } else { x as int }),
        x | 8 == (if x & 8 == 0 { x + 8 } else { x as int }),
        x | 16 == (if x & 16 == 0 { x + 16 } else { x as int }),
        x | 32 == (if x & 32 == 0 { x + 32 } else { x as int }),
        x | 64 == (if x & 64 == 0 { x + 64 } else { x as int }),
        x | 128 == (if x & 128 == 0 { x + 128 } else { x as int }),
        x & !1u8 == (if x & 1 == 0 { x as int } else { x - 1 }),
        x & !2u8 == (if x & 2 == 0 { x as int } else { x - 2 }),
        x & !4u8 == (if x & 4 == 0 { x as int } else { x - 4 }),
        x & !8u8 == (if x & 8 == 0 { x as int } else { x - 8 }),
        x & !16u8 == (if x & 16 == 0 { x as int } else { x - 16 }),
        x & !32u8 == (if x & 32 == 0 { x as int } else { x - 32 }),
        x & !64u8 == (if x & 64 == 0 { x as int } else { x - 64 }),
        x & !128u8 == (if x & 128 == 0 { x as int } else { x - 128 }),
{
}

/// Two wrapping additions or subtractions in a row, as one sum or
/// difference modulo 256.
proof fn lemma_wrapping_sum(a: u8, val: u8, c: u8)
    requires
        c <= 1,
    ensures
        a.wrapping_add(val).wrapping_add(c) == (a + val + c) % 256,
        a.wrapping_sub(val).wrapping_sub(c) == (a - val - c) % 256,
{
}

/// The engine. Its model is the `Machine` that `view` gives.
pub struct Cpu {
    reg: Register,
    mmu: Mmu,
}

impl View for Cpu {
    type V = Machine;

    closed spec fn view(&self) -> Machine {
        Machine { reg: self.reg, mem: self.mmu@ }
    }
}

impl Cpu {
    /// A machine in its power-on state with `image` copied into memory from
    /// address 0 on. An image that does not fit into memory is refused.
    pub fn new(image: &[u8]) -> (result: Result<Self, LoadError>)
        ensures
            image@.len() <= MEM_BANK_SIZE ==> result is Ok && result->Ok_0@ == (Machine {
                reg: Register::power_on(),
                mem: load(zeroed(), image@),
            }),
            image@.len() > MEM_BANK_SIZE ==> result == Err::<Self, LoadError>(
                LoadError::ImageTooLarge { size: image@.len() as usize },
            ),
    {
        let mut cpu = Self { reg: Register::new(), mmu: Mmu::new() };
        match cpu.mmu.load_rom(image) {
            Ok(()) => Ok(cpu),
            Err(error) => Err(error),
        }
    }

    /// The model of every engine is valid: it has one cell for each address.
    pub proof fn lemma_wf(&self)
        ensures
            self@.wf(),
    {
        self.mmu.lemma_len();
    }

    /// The register file.
    pub fn registers(&self) -> (reg: &Register)
        ensures
            *reg == self@.reg,
    {
        &self.reg
    }

    /// The memory unit.
    pub fn memory(&self) -> (mmu: &Mmu)
        ensures
            mmu@ == self@.mem,
    {
        &self.mmu
    }

    /// Read the byte at `address`.
    pub fn read_byte(&self, address: u16) -> (value: u8)
        ensures
            value == self@.read(address),
    {
        self.mmu.read_byte_at(address)
    }

    /// Write `value` to `address`.
    pub fn write_byte(&mut self, address: u16, value: u8)
        ensures
            final(self)@ == old(self)@.write(address, value),
    {
        self.mmu.write_byte_at(address, value);
    }

    /// Read the next byte at the position of the PC register,
    /// and advance the PC register
    pub fn fetch_byte(&mut self) -> (byte: u8)
        ensures
            (byte, final(self)@) == old(self)@.fetch_byte(),
    {
        let byte = self.mmu.read_byte_at(self.reg.pc);
        self.reg.pc = self.reg.pc.wrapping_add(1);
        byte
    }

    /// Read the next two bytes at the position of the PC register,
    /// the first one being the LSB, and advance the PC register
    pub fn fetch_word(&mut self) -> (word: u16)
        ensures
            (word, final(self)@) == old(self)@.fetch_word(),
    {
        let byte1 = self.mmu.read_byte_at(self.reg.pc);
        let byte2 = self.mmu.read_byte_at(self.reg.pc.wrapping_add(1));
        self.reg.pc = self.reg.pc.wrapping_add(2);
        make_word(byte2, byte1)
    }

    /// Push a word into the stack memory, first the MSB and then the LSB,
    /// and decrement the stack pointer twice
    pub fn push(&mut self, word: u16)
        ensures
            final(self)@ == old(self)@.push(word),
    {
        self.reg.sp = self.reg.sp.wrapping_sub(1);
        self.mmu.write_byte_at(self.reg.sp, msb(word));
        self.reg.sp = self.reg.sp.wrapping_sub(1);
        self.mmu.write_byte_at(self.reg.sp, lsb(word));
    }

    /// Pop two bytes off the stack and return the resulting combined word,
    /// and increment the stack pointer twice
    pub fn pop(&mut self) -> (word: u16)
        ensures
            (word, final(self)@) == old(self)@.pop(),
    {
        let b1 = self.mmu.read_byte_at(self.reg.sp);
        self.reg.sp = self.reg.sp.wrapping_add(1);
        let b2 = self.mmu.read_byte_at(self.reg.sp);
        self.reg.sp = self.reg.sp.wrapping_add(1);
        make_word(b2, b1)
    }

    /// Add `val` and `carry` to the accumulator.
    fn _add(&mut self, val: u8, carry: bool)
        ensures
            final(self)@ == old(self)@.with_reg(add_to_accumulator(old(self)@.reg, val, carry)),
    {
        let c: u8 = if carry { 1 } else { 0 };
        let a = self.reg.a;
        proof {
            lemma_byte_bits(a);
            lemma_byte_bits(val);
            lemma_wrapping_sum(a, val, c);
        }
        let res = a.wrapping_add(val).wrapping_add(c);
        self.reg.set_flag(Flag::Z, res == 0);
        self.reg.set_flag(Flag::N, false);
        self.reg.set_flag(Flag::H, (a & 0x0F) + (val & 0x0F) + c > 0x0F);
        self.reg.set_flag(Flag::C, (a as u16) + (val as u16) + (c as u16) > 0xFF);
        self.reg.a = res;
    }

    /// Add `val` to the accumulator.
    pub fn add(&mut self, val: u8)
        ensures
            final(self)@ == old(self)@.with_reg(alu(old(self)@.reg, AluOp::Add, val)),
    {
        self._add(val, false);
    }

    /// Add `val` and the carry flag to the accumulator.
    pub fn adc(&mut self, val: u8)
        ensures
            final(self)@ == old(self)@.with_reg(alu(old(self)@.reg, AluOp::Adc, val)),
    {
        let carry = self.reg.get_flag(Flag::C);
        self._add(val, carry);
    }

    /// Subtract `val` and `carry` from the accumulator.
    fn _sub(&mut self, val: u8, carry: bool)
        ensures
            final(self)@ == old(self)@.with_reg(subtract_from_accumulator(old(self)@.reg, val, carry)),
    {
        let c: u8 = if carry { 1 } else { 0 };
        let a = self.reg.a;
        proof {
            lemma_byte_bits(a);
            lemma_byte_bits(val);
            lemma_wrapping_sum(a, val, c);
        }
        let res = a.wrapping_sub(val).wrapping_sub(c);
        self.reg.set_flag(Flag::Z, res == 0);
        self.reg.set_flag(Flag::N, true);
        self.reg.set_flag(Flag::H, (a & 0x0F) < (val & 0x0F) + c);
        self.reg.set_flag(Flag::C, (a as u16) < (val as u16) + (c as u16));
        self.reg.a = res;
    }

    /// Subtract `val` from the accumulator.
    pub fn sub(&mut self, val: u8)
        ensures
            final(self)@ == old(self)@.with_reg(alu(old(self)@.reg, AluOp::Sub, val)),
    {
        self._sub(val, false);
    }

    /// Subtract `val` and the carry flag from the accumulator.
    pub fn sbc(&mut self, val: u8)
        ensures
            final(self)@ == old(self)@.with_reg(alu(old(self)@.reg, AluOp::Sbc, val)),
    {
        let carry = self.reg.get_flag(Flag::C);
        self._sub(val, carry);
    }

    /// Bitwise AND of `val` into the accumulator.
    pub fn and(&mut self, val: u8)
        ensures
            final(self)@ == old(self)@.with_reg(alu(old(self)@.reg, AluOp::And, val)),
    {
        self.reg.a = self.reg.a & val;
        self.reg.set_flag(Flag::Z, self.reg.a == 0);
        self.reg.set_flag(Flag::N, false);
        self.reg.set_flag(Flag::H, true);
        self.reg.set_flag(Flag::C, false);
    }

    /// Bitwise OR of `val` into the accumulator.
    pub fn or(&mut self, val: u8)
        ensures
            final(self)@ == old(self)@.with_reg(alu(old(self)@.reg, AluOp::Or, val)),
    {
        self.reg.a = self.reg.a | val;
        self.reg.set_flag(Flag::Z, self.reg.a == 0);
        self.reg.set_flag(Flag::N, false);
        self.reg.set_flag(Flag::H, false);
        self.reg.set_flag(Flag::C, false);
    }

    /// Bitwise XOR of `val` into the accumulator.
    pub fn xor(&mut self, val: u8)
        ensures
            final(self)@ == old(self)@.with_reg(alu(old(self)@.reg, AluOp::Xor, val)),
    {
        self.reg.a = self.reg.a ^ val;
        self.reg.set_flag(Flag::Z, self.reg.a == 0);
        self.reg.set_flag(Flag::N, false);
        self.reg.set_flag(Flag::H, false);
        self.reg.set_flag(Flag::C, false);
    }

    /// Compare `val` with the accumulator: the flags of a subtraction, with
    /// the accumulator left as it is.
    pub fn cp(&mut self, val: u8)
        ensures
            final(self)@ == old(self)@.with_reg(alu(old(self)@.reg, AluOp::Cp, val)),
    {
        let a = self.reg.a;
        proof {
            lemma_byte_bits(a);
            lemma_byte_bits(val);
        }
        self.reg.set_flag(Flag::Z, a == val);
        self.reg.set_flag(Flag::N, true);
        self.reg.set_flag(Flag::H, (a & 0x0F) < (val & 0x0F));
        self.reg.set_flag(Flag::C, a < val);
    }

    /// Increment the value and return the results, also setting the corresponding flags
    /// as specified by the INC instruction
    pub fn inc(&mut self, val: u8) -> (res: u8)
        ensures
            res == incremented(val),
            final(self)@ == old(self)@.with_reg(after_increment(old(self)@.reg, val)),
    {
        proof {
            lemma_byte_bits(val);
        }
        let res = val.wrapping_add(1);
        self.reg.set_flag(Flag::Z, res == 0);
        self.reg.set_flag(Flag::N, false);
        self.reg.set_flag(Flag::H, (val & 0x0F) + 1 > 0x0F);
        res
    }

    /// Decrement the value and return the results, also setting the corresponding flags
    /// as specified by the DEC instruction
    pub fn dec(&mut self, val: u8) -> (res: u8)
        ensures
            res == decremented(val),
            final(self)@ == old(self)@.with_reg(after_decrement(old(self)@.reg, val)),
    {
        proof {
            lemma_byte_bits(val);
        }
        let res = val.wrapping_sub(1);
        self.reg.set_flag(Flag::Z, res == 0);
        self.reg.set_flag(Flag::N, true);
        self.reg.set_flag(Flag::H, (val & 0x0F) < 1);
        res
    }

    /// Exchange the nibbles of the value and return the result, setting
    /// the flags as the SWAP instruction does.
    pub fn swap(&mut self, val: u8) -> (res: u8)
        ensures
            res == shifted(ShiftOp::Swap, val, old(self)@.reg.flag(Flag::C)),
            final(self)@ == old(self)@.with_reg(after_shift(old(self)@.reg, ShiftOp::Swap, val)),
    {
        let res = crate::util::swap(val);
        self.reg.set_flag(Flag::Z, res == 0);
        self.reg.set_flag(Flag::N, false);
        self.reg.set_flag(Flag::H, false);
        self.reg.set_flag(Flag::C, false);
        res
    }

    /// Invert the accumulator.
    pub fn cpl(&mut self)
        ensures
            final(self)@ == old(self)@.with_reg(complement_accumulator(old(self)@.reg)),
    {
        proof {
            lemma_byte_bits(self.reg.a);
        }
        self.reg.a = !self.reg.a;
        self.reg.set_flag(Flag::N, true);
        self.reg.set_flag(Flag::H, true);
    }

    /// Invert the carry flag.
    pub fn ccf(&mut self)
        ensures
            final(self)@ == old(self)@.with_reg(complement_carry(old(self)@.reg)),
    {
        self.reg.set_flag(Flag::N, false);
        self.reg.set_flag(Flag::H, false);
        let carry = self.reg.get_flag(Flag::C);
        self.reg.set_flag(Flag::C, !carry);
    }

    /// Set the carry flag.
    pub fn scf(&mut self)
        ensures
            final(self)@ == old(self)@.with_reg(set_carry(old(self)@.reg)),
    {
        self.reg.set_flag(Flag::N, false);
        self.reg.set_flag(Flag::H, false);
        self.reg.set_flag(Flag::C, true);
    }

    /// Updates flags Z, N and H for rotate and shift instructions using the
    /// given value as the 'result' of the instruction
    fn _rotate_shift_flag_update(&mut self, val: u8)
        ensures
            final(self)@ == old(self)@.with_reg(
                old(self)@.reg.with_flags(val == 0, false, false, old(self)@.reg.flag(Flag::C)),
            ),
    {
        self.reg.set_flag(Flag::Z, val == 0);
        self.reg.set_flag(Flag::N, false);
        self.reg.set_flag(Flag::H, false);
    }

    /// Rotate left; the bit that leaves also goes to the carry flag.
    pub fn rlc(&mut self, val: u8) -> (res: u8)
        ensures
            res == shifted(ShiftOp::Rlc, val, old(self)@.reg.flag(Flag::C)),
            final(self)@ == old(self)@.with_reg(after_shift(old(self)@.reg, ShiftOp::Rlc, val)),
    {
        proof {
            lemma_byte_bits(val);
        }
        self.reg.set_flag(Flag::C, val & 0x80 != 0);
        let res = rotate_left(val, 1);
        self._rotate_shift_flag_update(res);
        res
    }

    /// Rotate left through the carry flag.
    pub fn rl(&mut self, val: u8) -> (res: u8)
        ensures
            res == shifted(ShiftOp::Rl, val, old(self)@.reg.flag(Flag::C)),
            final(self)@ == old(self)@.with_reg(after_shift(old(self)@.reg, ShiftOp::Rl, val)),
    {
        proof {
            lemma_byte_bits(val);
        }
        let c: u8 = if self.reg.get_flag(Flag::C) { 1 } else { 0 };
        self.reg.set_flag(Flag::C, val & 0x80 != 0);
        let res = (val << 1) | c;
        self._rotate_shift_flag_update(res);
        res
    }

    /// Rotate right; the bit that leaves also goes to the carry flag.
    pub fn rrc(&mut self, val: u8) -> (res: u8)
        ensures
            res == shifted(ShiftOp::Rrc, val, old(self)@.reg.flag(Flag::C)),
            final(self)@ == old(self)@.with_reg(after_shift(old(self)@.reg, ShiftOp::Rrc, val)),
    {
        proof {
            lemma_byte_bits(val);
        }
        self.reg.set_flag(Flag::C, val & 1 != 0);
        let res = rotate_right(val, 1);
        self._rotate_shift_flag_update(res);
        res
    }

    /// Rotate right through the carry flag.
    pub fn rr(&mut self, val: u8) -> (res: u8)
        ensures
            res == shifted(ShiftOp::Rr, val, old(self)@.reg.flag(Flag::C)),
            final(self)@ == old(self)@.with_reg(after_shift(old(self)@.reg, ShiftOp::Rr, val)),
    {
        proof {
            lemma_byte_bits(val);
        }
        let c: u8 = if self.reg.get_flag(Flag::C) { 1 } else { 0 };
        self.reg.set_flag(Flag::C, val & 1 != 0);
        let res = (val >> 1) | (c << 7);
        self._rotate_shift_flag_update(res);
        res
    }

    /// Shift left; bit 0 becomes zero.
    pub fn sla(&mut self, val: u8) -> (res: u8)
        ensures
            res == shifted(ShiftOp::Sla, val, old(self)@.reg.flag(Flag::C)),
            final(self)@ == old(self)@.with_reg(after_shift(old(self)@.reg, ShiftOp::Sla, val)),
    {
        proof {
            lemma_byte_bits(val);
        }
        self.reg.set_flag(Flag::C, val & 0x80 != 0);
        let res = val << 1;
        self._rotate_shift_flag_update(res);
        res
    }

    /// Shift right; bit 7 keeps its value.
    pub fn sra(&mut self, val: u8) -> (res: u8)
        ensures
            res == shifted(ShiftOp::Sra, val, old(self)@.reg.flag(Flag::C)),
            final(self)@ == old(self)@.with_reg(after_shift(old(self)@.reg, ShiftOp::Sra, val)),
    {
        proof {
            lemma_byte_bits(val);
        }
        self.reg.set_flag(Flag::C, val & 1 != 0);
        let res = (val >> 1) | (val & 0x80);
        self._rotate_shift_flag_update(res);
        res
    }

    /// Shift right; bit 7 becomes zero.
    pub fn srl(&mut self, val: u8) -> (res: u8)
        ensures
            res == shifted(ShiftOp::Srl, val, old(self)@.reg.flag(Flag::C)),
            final(self)@ == old(self)@.with_reg(after_shift(old(self)@.reg, ShiftOp::Srl, val)),
    {
        proof {
            lemma_byte_bits(val);
        }
        self.reg.set_flag(Flag::C, val & 1 != 0);
        let res = val >> 1;
        self._rotate_shift_flag_update(res);
        res
    }

    /// Test bit `b` of the value. The index counts modulo 8.
    pub fn bit(&mut self, val: u8, b: u8)
        ensures
            final(self)@ == old(self)@.with_reg(after_bit_test(old(self)@.reg, val, b)),
    {
        proof {
            lemma_mask_bits(val);
        }
        let mask: u8 = 1 << (b % 8);
        self.reg.set_flag(Flag::Z, val & mask == 0);
        self.reg.set_flag(Flag::N, false);
        self.reg.set_flag(Flag::H, true);
    }

    /// Return the value with bit `b` set to `state`. The index counts
    /// modulo 8.
    pub fn set(&mut self, val: u8, b: u8, state: bool) -> (res: u8)
        ensures
            res == with_bit(val, b, state),
            final(self)@ == old(self)@,
    {
        proof {
            lemma_mask_bits(val);
        }
        let mask: u8 = 1 << (b % 8);
        if state {
            val | mask
        } else {
            val & !mask
        }
    }

    /// Jump to the given address if the flag has the state passed as argument
    pub fn jump_conditional(&mut self, addr: u16, flag: Flag, state: bool)
        ensures
            final(self)@ == old(self)@.jump_if(addr, flag, state),
    {
        if self.reg.get_flag(flag) == state {
            self.reg.pc = addr;
        }
    }

    /// Read the byte that `place` holds.
    pub fn read_place(&self, place: Place) -> (value: u8)
        ensures
            value == self@.place(place),
    {
        match place {
            Place::Reg(r) => self.reg.get(r),
            Place::Memory => self.mmu.read_byte_at(self.reg.hl()),
        }
    }

    /// Write `value` to `place`.
    pub fn write_place(&mut self, place: Place, value: u8)
        ensures
            final(self)@ == old(self)@.with_place(place, value),
    {
        match place {
            Place::Reg(r) => self.reg.set(r, value),
            Place::Memory => {
                let address = self.reg.hl();
                self.mmu.write_byte_at(address, value);
            },
        }
    }

    /// Take the operand that `source` names.
    pub fn read_source(&mut self, source: Source) -> (value: u8)
        ensures
            (value, final(self)@) == old(self)@.source(source),
    {
        match source {
            Source::Reg(r) => self.reg.get(r),
            Source::Memory => self.mmu.read_byte_at(self.reg.hl()),
            Source::Immediate => self.fetch_byte(),
        }
    }

    /// Take the address that `pointer` names.
    pub fn resolve_pointer(&mut self, pointer: Pointer) -> (address: u16)
        ensures
            (address, final(self)@) == old(self)@.pointer(pointer),
    {
        match pointer {
            Pointer::BC => self.reg.bc(),
            Pointer::DE => self.reg.de(),
            Pointer::HlIncrement => self.reg.hli(),
            Pointer::HlDecrement => self.reg.hld(),
            Pointer::Immediate => self.fetch_word(),
            Pointer::HighImmediate => {
                let low = self.fetch_byte();
                make_word(0xFF, low)
            },
            Pointer::HighC => make_word(0xFF, self.reg.c),
        }
    }

    /// Move the program counter by `offset`, read as a signed byte.
    pub fn jump_relative(&mut self, offset: u8)
        ensures
            final(self)@ == old(self)@.with_pc(relative_target(old(self)@.reg.pc, offset)),
    {
        self.reg.pc = Self::relative(self.reg.pc, offset);
    }

    /// The address `offset` bytes from `pc`, where `offset` is a signed byte.
    fn relative(pc: u16, offset: u8) -> (target: u16)
        ensures
            target == relative_target(pc, offset),
    {
        if offset < 128 {
            pc.wrapping_add(offset as u16)
        } else {
            pc.wrapping_sub(256 - offset as u16)
        }
    }

    /// Apply the rotate or shift `op` to the value and return the result,
    /// setting the flags.
    pub fn shift(&mut self, op: ShiftOp, val: u8) -> (res: u8)
        ensures
            res == shifted(op, val, old(self)@.reg.flag(Flag::C)),
            final(self)@ == old(self)@.with_reg(after_shift(old(self)@.reg, op, val)),
    {
        match op {
            ShiftOp::Rlc => self.rlc(val),
            ShiftOp::Rrc => self.rrc(val),
            ShiftOp::Rl => self.rl(val),
            ShiftOp::Rr => self.rr(val),
            ShiftOp::Sla => self.sla(val),
            ShiftOp::Sra => self.sra(val),
            ShiftOp::Swap => self.swap(val),
            ShiftOp::Srl => self.srl(val),
        }
    }

    /// Apply the accumulator operation `op` with operand `val`.
    pub fn accumulate(&mut self, op: AluOp, val: u8)
        ensures
            final(self)@ == old(self)@.with_reg(alu(old(self)@.reg, op, val)),
    {
        match op {
            AluOp::Add => self.add(val),
            AluOp::Adc => self.adc(val),
            AluOp::Sub => self.sub(val),
            AluOp::Sbc => self.sbc(val),
            AluOp::And => self.and(val),
            AluOp::Xor => self.xor(val),
            AluOp::Or => self.or(val),
            AluOp::Cp => self.cp(val),
        }
    }

    /// Execute an instruction of the base table whose opcode has been
    /// fetched, returning the number of cycles that it cost.
    pub fn execute(&mut self, instruction: Instruction) -> (cycles: u32)
        ensures
            (cycles, final(self)@) == old(self)@.execute(instruction),
    {
        match instruction {
            Instruction::Nop => 4,
            Instruction::Load(destination, source) => {
                let value = self.read_source(source);
                self.write_place(destination, value);
                match (destination, source) {
                    (Place::Reg(_), Source::Reg(_)) => 4,
                    (Place::Memory, Source::Immediate) => 12,
                    _ => 8,
                }
            },
            Instruction::LoadAccumulator(pointer) => {
                let address = self.resolve_pointer(pointer);
                self.reg.a = self.mmu.read_byte_at(address);
                Self::pointer_cycles(pointer)
            },
            Instruction::StoreAccumulator(pointer) => {
                let address = self.resolve_pointer(pointer);
                self.mmu.write_byte_at(address, self.reg.a);
                Self::pointer_cycles(pointer)
            },
            Instruction::LoadWord(target) => {
                let word = self.fetch_word();
                match target {
                    WordReg::BC => self.reg.set_bc(word),
                    WordReg::DE => self.reg.set_de(word),
                    WordReg::HL => self.reg.set_hl(word),
                    WordReg::SP => self.reg.sp = word,
                }
                12
            },
            Instruction::LoadStackPointer => {
                self.reg.sp = self.reg.hl();
                8
            },
            Instruction::StoreStackPointer => {
                let address = self.fetch_word();
                self.mmu.write_byte_at(address, lsb(self.reg.sp));
                self.mmu.write_byte_at(address.wrapping_add(1), msb(self.reg.sp));
                20
            },
            Instruction::Push(pair) => {
                let word = match pair {
                    StackReg::BC => self.reg.bc(),
                    StackReg::DE => self.reg.de(),
                    StackReg::HL => self.reg.hl(),
                    StackReg::AF => self.reg.af(),
                };
                self.push(word);
                16
            },
            Instruction::Pop(pair) => {
                let word = self.pop();
                match pair {
                    StackReg::BC => self.reg.set_bc(word),
                    StackReg::DE => self.reg.set_de(word),
                    StackReg::HL => self.reg.set_hl(word),
                    StackReg::AF => self.reg.set_af(word),
                }
                12
            },
            Instruction::Alu(op, source) => {
                let value = self.read_source(source);
                self.accumulate(op, value);
                match source {
                    Source::Reg(_) => 4,
                    _ => 8,
                }
            },
            Instruction::Increment(place) => {
                let value = self.read_place(place);
                let result = self.inc(value);
                self.write_place(place, result);
                Self::place_cycles(place, 4, 12)
            },
            Instruction::Decrement(place) => {
                let value = self.read_place(place);
                let result = self.dec(value);
                self.write_place(place, result);
                Self::place_cycles(place, 4, 12)
            },
            Instruction::Complement => {
                self.cpl();
                4
            },
            Instruction::ComplementCarry => {
                self.ccf();
                4
            },
            Instruction::SetCarry => {
                self.scf();
                4
            },
            Instruction::RotateAccumulator(op) => {
                let value = self.reg.a;
                self.reg.a = self.shift(op, value);
                4
            },
            Instruction::Jump => {
                self.reg.pc = self.fetch_word();
                16
            },
            Instruction::JumpIf(flag, state) => {
                let address = self.fetch_word();
                let taken = self.reg.get_flag(flag) == state;
                self.jump_conditional(address, flag, state);
                if taken {
                    16
                } else {
                    12
                }
            },
            Instruction::JumpToHl => {
                self.reg.pc = self.reg.hl();
                4
            },
            Instruction::JumpRelative => {
                let offset = self.fetch_byte();
                self.jump_relative(offset);
                12
            },
            Instruction::JumpRelativeIf(flag, state) => {
                let offset = self.fetch_byte();
                let taken = self.reg.get_flag(flag) == state;
                let address = Self::relative(self.reg.pc, offset);
                self.jump_conditional(address, flag, state);
                if taken {
                    12
                } else {
                    8
                }
            },
            Instruction::Prefix => self.cb(),
        }
    }

    /// Execute an instruction of the extended table, returning the number
    /// of cycles that it cost, the prefix included.
    pub fn execute_extended(&mut self, instruction: ExtendedInstruction) -> (cycles: u32)
        ensures
            (cycles, final(self)@) == old(self)@.execute_extended(instruction),
    {
        match instruction {
            ExtendedInstruction::Shift(op, place) => {
                let value = self.read_place(place);
                let result = self.shift(op, value);
                self.write_place(place, result);
                Self::place_cycles(place, 8, 16)
            },
            ExtendedInstruction::TestBit(index, place) => {
                let value = self.read_place(place);
                self.bit(value, index);
                Self::place_cycles(place, 8, 12)
            },
            ExtendedInstruction::ResetBit(index, place) => {
                let value = self.read_place(place);
                let result = self.set(value, index, false);
                self.write_place(place, result);
                Self::place_cycles(place, 8, 16)
            },
            ExtendedInstruction::SetBit(index, place) => {
                let value = self.read_place(place);
                let result = self.set(value, index, true);
                self.write_place(place, result);
                Self::place_cycles(place, 8, 16)
            },
        }
    }

    fn place_cycles(place: Place, register: u32, memory: u32) -> (cycles: u32)
        ensures
            cycles == place_cost(place, register, memory),
    {
        match place {
            Place::Reg(_) => register,
            Place::Memory => memory,
        }
    }

    fn pointer_cycles(pointer: Pointer) -> (cycles: u32)
        ensures
            cycles == pointer_cost(pointer),
    {
        match pointer {
            Pointer::Immediate => 16,
            Pointer::HighImmediate => 12,
            _ => 8,
        }
    }

    /// Different interpretation of opcodes when they are preceded by the CB opcode
    pub fn cb(&mut self) -> (cycles: u32)
        ensures
            (cycles, final(self)@) == old(self)@.execute(Instruction::Prefix),
    {
        let opcode = self.fetch_byte();
        self.execute_extended(decode_extended(opcode))
    }

    /// Read the next opcode from memory and execute it,
    /// returning the number of cycles that the instruction cost
    pub fn step(&mut self) -> (result: Result<u32, DecodeError>)
        ensures
            (result, final(self)@) == old(self)@.step(),
    {
        let address = self.reg.pc;
        let opcode = self.fetch_byte();
        match decode(opcode) {
            Some(instruction) => Ok(self.execute(instruction)),
            None => {
                self.reg.pc = address;
                Err(DecodeError { opcode, address })
            },
        }
    }

    /// Execute one instruction and drop its cycle count.
    pub fn run(&mut self) -> (result: Result<(), DecodeError>)
        ensures
            final(self)@ == old(self)@.step().1,
            match old(self)@.step().0 {
                Ok(_) => result is Ok,
                Err(error) => result == Err::<(), DecodeError>(error),
            },
    {
        match self.step() {
            Ok(_) => Ok(()),
            Err(error) => Err(error),
        }
    }
}

} // verus!
