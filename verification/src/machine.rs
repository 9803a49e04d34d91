//! The machine as a mathematical value, and what one instruction makes of
//! it. The engine's contracts are stated over this model.

use vstd::prelude::*;
use crate::alu::{
    after_bit_test, after_decrement, after_increment, after_shift, alu, bit_of, complement_accumulator,
    complement_carry, decremented, incremented, lemma_alu_flags, lemma_flags_after, set_carry, shifted,
    shifted_out, with_bit,
};
use crate::instruction::{
    decode_extended_spec, decode_spec, DecodeError, ExtendedInstruction, Instruction, Place, Pointer, Source, StackReg,
    WordReg,
};
use crate::memory::{lemma_read_after_write, MEM_BANK_SIZE};
use crate::register::{ByteReg, Flag, Register};
use crate::util::{high_byte, lemma_word_round_trip, low_byte, word_of};

verus! {

/// The registers and the memory cells of the machine.
pub struct Machine {
    pub reg: Register,
    pub mem: Seq<u8>,
}

/// The number that the byte `offset` stands for as a signed byte: values
/// from 128 on are negative.
pub open spec fn signed(offset: u8) -> int {
    if offset < 128 {
        offset as int
    } else {
        offset - 256
    }
}

/// The address `offset` bytes from `pc`, where `offset` is a signed byte
/// and addresses wrap at both ends of the address space.
pub open spec fn relative_target(pc: u16, offset: u8) -> u16 {
    ((pc + signed(offset)) % 0x10000) as u16
}

/// The address in the last page of memory that the byte `low` selects.
pub open spec fn high_address(low: u8) -> u16 {
    (0xFF00 + low) as u16
}

/// Cycles of an instruction that works on one 8-bit place: `register` if
/// the place is a register, `memory` if it is the cell at `HL`.
pub open spec fn place_cost(place: Place, register: u32, memory: u32) -> u32 {
    match place {
        Place::Reg(_) => register,
        Place::Memory => memory,
    }
}

/// Cycles of an 8-bit load.
pub open spec fn load_cost(destination: Place, source: Source) -> u32 {
    match (destination, source) {
        (Place::Reg(_), Source::Reg(_)) => 4,
        (Place::Memory, Source::Immediate) => 12,
        _ => 8,
    }
}

/// Cycles of an accumulator load or store through `pointer`.
pub open spec fn pointer_cost(pointer: Pointer) -> u32 {
    match pointer {
        Pointer::Immediate => 16,
        Pointer::HighImmediate => 12,
        _ => 8,
    }
}

/// Cycles of an accumulator operation.
pub open spec fn alu_cost(source: Source) -> u32 {
    match source {
        Source::Reg(_) => 4,
        _ => 8,
    }
}

impl Machine {
    /// The model is valid when it has one cell for each address.
    pub open spec fn wf(self) -> bool {
        self.mem.len() == MEM_BANK_SIZE
    }

    /// The byte that a read of `address` returns.
    pub open spec fn read(self, address: u16) -> u8 {
        crate::memory::read(self.mem, address)
    }

    /// The machine after `value` was written to `address`.
    pub open spec fn write(self, address: u16, value: u8) -> Machine {
        Machine { mem: crate::memory::write(self.mem, address, value), ..self }
    }

    /// The machine with its registers replaced.
    pub open spec fn with_reg(self, reg: Register) -> Machine {
        Machine { reg, ..self }
    }

    /// The machine with the program counter set to `pc`.
    pub open spec fn with_pc(self, pc: u16) -> Machine {
        self.with_reg(Register { pc, ..self.reg })
    }

    /// The machine with the stack pointer set to `sp`.
    pub open spec fn with_sp(self, sp: u16) -> Machine {
        self.with_reg(Register { sp, ..self.reg })
    }

    /// The byte at the program counter, and the machine with the program
    /// counter moved past it.
    pub open spec fn fetch_byte(self) -> (u8, Machine) {
        (self.read(self.reg.pc), self.with_pc(self.reg.pc.wrapping_add(1)))
    }

    /// The word at the program counter, low byte first, and the machine
    /// with the program counter moved past it.
    pub open spec fn fetch_word(self) -> (u16, Machine) {
        let low = self.read(self.reg.pc);
        let high = self.read(self.reg.pc.wrapping_add(1));
        (word_of(high, low), self.with_pc(self.reg.pc.wrapping_add(2)))
    }

    /// The machine after `word` was pushed: the high byte lies just below
    /// the old stack pointer, the low byte below that, and the stack
    /// pointer points to the low byte.
    pub open spec fn push(self, word: u16) -> Machine {
        let high_at = self.reg.sp.wrapping_sub(1);
        let low_at = self.reg.sp.wrapping_sub(2);
        self.write(high_at, high_byte(word)).write(low_at, low_byte(word)).with_sp(low_at)
    }

    /// The word on top of the stack, and the machine with the stack pointer
    /// moved past it.
    pub open spec fn pop(self) -> (u16, Machine) {
        let low = self.read(self.reg.sp);
        let high = self.read(self.reg.sp.wrapping_add(1));
        (word_of(high, low), self.with_sp(self.reg.sp.wrapping_add(2)))
    }

    /// The byte that `place` holds.
    pub open spec fn place(self, place: Place) -> u8 {
        match place {
            Place::Reg(r) => self.reg.byte(r),
            Place::Memory => self.read(self.reg.hl_word()),
        }
    }

    /// The machine after `value` was written to `place`.
    pub open spec fn with_place(self, place: Place, value: u8) -> Machine {
        match place {
            Place::Reg(r) => self.with_reg(self.reg.with_byte(r, value)),
            Place::Memory => self.write(self.reg.hl_word(), value),
        }
    }

    /// The operand that `source` names, and the machine after it was
    /// taken: an immediate operand moves the program counter.
    pub open spec fn source(self, source: Source) -> (u8, Machine) {
        match source {
            Source::Reg(r) => (self.reg.byte(r), self),
            Source::Memory => (self.read(self.reg.hl_word()), self),
            Source::Immediate => self.fetch_byte(),
        }
    }

    /// The address that `pointer` names, and the machine after it was
    /// taken: an immediate address moves the program counter, and the two
    /// forms that step `HL` change it.
    pub open spec fn pointer(self, pointer: Pointer) -> (u16, Machine) {
        match pointer {
            Pointer::BC => (self.reg.bc_word(), self),
            Pointer::DE => (self.reg.de_word(), self),
            Pointer::HlIncrement => (
                self.reg.hl_word(),
                self.with_reg(self.reg.with_hl(self.reg.hl_word().wrapping_add(1))),
            ),
            Pointer::HlDecrement => (
                self.reg.hl_word(),
                self.with_reg(self.reg.with_hl(self.reg.hl_word().wrapping_sub(1))),
            ),
            Pointer::Immediate => self.fetch_word(),
            Pointer::HighImmediate => (high_address(self.fetch_byte().0), self.fetch_byte().1),
            Pointer::HighC => (high_address(self.reg.c), self),
        }
    }

    /// The word that the register pair `pair` holds.
    pub open spec fn stack_word(self, pair: StackReg) -> u16 {
        match pair {
            StackReg::BC => self.reg.bc_word(),
            StackReg::DE => self.reg.de_word(),
            StackReg::HL => self.reg.hl_word(),
            StackReg::AF => self.reg.af_word(),
        }
    }

    /// The machine after `word` was written to the register pair `pair`.
    pub open spec fn with_stack_word(self, pair: StackReg, word: u16) -> Machine {
        match pair {
            StackReg::BC => self.with_reg(self.reg.with_bc(word)),
            StackReg::DE => self.with_reg(self.reg.with_de(word)),
            StackReg::HL => self.with_reg(self.reg.with_hl(word)),
            StackReg::AF => self.with_reg(self.reg.with_af(word)),
        }
    }

    /// The machine after `word` was written to the 16-bit register `target`.
    pub open spec fn with_word(self, target: WordReg, word: u16) -> Machine {
        match target {
            WordReg::BC => self.with_reg(self.reg.with_bc(word)),
            WordReg::DE => self.with_reg(self.reg.with_de(word)),
            WordReg::HL => self.with_reg(self.reg.with_hl(word)),
            WordReg::SP => self.with_sp(word),
        }
    }

    /// The machine after a jump to `address` that is taken only if `flag`
    /// has the state `state`.
    pub open spec fn jump_if(self, address: u16, flag: Flag, state: bool) -> Machine {
        if self.reg.flag(flag) == state {
            self.with_pc(address)
        } else {
            self
        }
    }

    /// The cycles that the base instruction `instruction` takes, and the
    /// machine that it leaves. The opcode has been fetched: the program
    /// counter points to the byte behind it.
    pub open spec fn execute(self, instruction: Instruction) -> (u32, Machine) {
        match instruction {
            Instruction::Nop => (4, self),
            Instruction::Load(destination, source) => {
                let (value, m) = self.source(source);
                (load_cost(destination, source), m.with_place(destination, value))
            },
            Instruction::LoadAccumulator(pointer) => {
                let (address, m) = self.pointer(pointer);
                (pointer_cost(pointer), m.with_reg(m.reg.with_byte(ByteReg::A, m.read(address))))
            },
            Instruction::StoreAccumulator(pointer) => {
                let (address, m) = self.pointer(pointer);
                (pointer_cost(pointer), m.write(address, m.reg.a))
            },
            Instruction::LoadWord(target) => {
                let (word, m) = self.fetch_word();
                (12, m.with_word(target, word))
            },
            Instruction::LoadStackPointer => (8, self.with_sp(self.reg.hl_word())),
            Instruction::StoreStackPointer => {
                let (address, m) = self.fetch_word();
                (
                    20,
                    m.write(address, low_byte(m.reg.sp)).write(
                        address.wrapping_add(1),
                        high_byte(m.reg.sp),
                    ),
                )
            },
            Instruction::Push(pair) => (16, self.push(self.stack_word(pair))),
            Instruction::Pop(pair) => {
                let (word, m) = self.pop();
                (12, m.with_stack_word(pair, word))
            },
            Instruction::Alu(op, source) => {
                let (value, m) = self.source(source);
                (alu_cost(source), m.with_reg(alu(m.reg, op, value)))
            },
            Instruction::Increment(place) => {
                let value = self.place(place);
                (
                    place_cost(place, 4, 12),
                    self.with_reg(after_increment(self.reg, value)).with_place(place, incremented(value)),
                )
            },
            Instruction::Decrement(place) => {
                let value = self.place(place);
                (
                    place_cost(place, 4, 12),
                    self.with_reg(after_decrement(self.reg, value)).with_place(place, decremented(value)),
                )
            },
            Instruction::Complement => (4, self.with_reg(complement_accumulator(self.reg))),
            Instruction::ComplementCarry => (4, self.with_reg(complement_carry(self.reg))),
            Instruction::SetCarry => (4, self.with_reg(set_carry(self.reg))),
            Instruction::RotateAccumulator(op) => {
                let value = self.reg.a;
                let result = shifted(op, value, self.reg.flag(Flag::C));
                (4, self.with_reg(after_shift(self.reg, op, value).with_byte(ByteReg::A, result)))
            },
            Instruction::Jump => {
                let (address, m) = self.fetch_word();
                (16, m.with_pc(address))
            },
            Instruction::JumpIf(flag, state) => {
                let (address, m) = self.fetch_word();
                (if m.reg.flag(flag) == state { 16u32 } else { 12u32 }, m.jump_if(address, flag, state))
            },
            Instruction::JumpToHl => (4, self.with_pc(self.reg.hl_word())),
            Instruction::JumpRelative => {
                let (offset, m) = self.fetch_byte();
                (12, m.with_pc(relative_target(m.reg.pc, offset)))
            },
            Instruction::JumpRelativeIf(flag, state) => {
                let (offset, m) = self.fetch_byte();
                (
                    if m.reg.flag(flag) == state { 12u32 } else { 8u32 },
                    m.jump_if(relative_target(m.reg.pc, offset), flag, state),
                )
            },
            Instruction::Prefix => {
                let (opcode, m) = self.fetch_byte();
                m.execute_extended(decode_extended_spec(opcode))
            },
        }
    }

    /// The cycles that the extended instruction `instruction` takes, the
    /// prefix included, and the machine that it leaves.
    pub open spec fn execute_extended(self, instruction: ExtendedInstruction) -> (u32, Machine) {
        match instruction {
            ExtendedInstruction::Shift(op, place) => {
                let value = self.place(place);
                let result = shifted(op, value, self.reg.flag(Flag::C));
                (
                    place_cost(place, 8, 16),
                    self.with_reg(after_shift(self.reg, op, value)).with_place(place, result),
                )
            },
            ExtendedInstruction::TestBit(index, place) => (
                place_cost(place, 8, 12),
                self.with_reg(after_bit_test(self.reg, self.place(place), index)),
            ),
            ExtendedInstruction::ResetBit(index, place) => (
                place_cost(place, 8, 16),
                self.with_place(place, with_bit(self.place(place), index, false)),
            ),
            ExtendedInstruction::SetBit(index, place) => (
                place_cost(place, 8, 16),
                self.with_place(place, with_bit(self.place(place), index, true)),
            ),
        }
    }

    /// One step of the machine: the opcode at the program counter is
    /// fetched, decoded and executed. The result is the number of cycles
    /// that the instruction took, or, where the base table has no entry for
    /// the opcode, the opcode and its address; the machine then stays as it
    /// was.
    pub open spec fn step(self) -> (Result<u32, DecodeError>, Machine) {
        let (opcode, m) = self.fetch_byte();
        match decode_spec(opcode) {
            Some(instruction) => (Ok(m.execute(instruction).0), m.execute(instruction).1),
            None => (Err(DecodeError { opcode, address: self.reg.pc }), self),
        }
    }
}

/// A word that was pushed is the word that the next pop returns, and the
/// pop leaves every register, the stack pointer among them, as it was
/// before the push. This holds for every stack pointer: it wraps at both
/// ends of the address space.
pub proof fn lemma_push_pop(m: Machine, word: u16)
    requires
        m.wf(),
    ensures
        m.push(word).pop().0 == word,
        m.push(word).pop().1.reg == m.reg,
        m.push(word).pop().1.mem == m.push(word).mem,
{
    let high_at = m.reg.sp.wrapping_sub(1);
    let low_at = m.reg.sp.wrapping_sub(2);
    lemma_word_round_trip(word, 0, 0);
    lemma_read_after_write(m.mem, high_at, high_byte(word), low_at);
    lemma_read_after_write(m.write(high_at, high_byte(word)).mem, low_at, low_byte(word), high_at);
}

/// The opcode 0x00 costs four cycles and changes nothing but the program
/// counter, which moves to the next byte.
pub proof fn lemma_nop(m: Machine)
    requires
        m.read(m.reg.pc) == 0x00,
    ensures
        m.step() == (Ok::<u32, DecodeError>(4), m.with_pc(m.reg.pc.wrapping_add(1))),
{
}

/// An opcode without an entry in the base table stops the machine: the
/// step reports the opcode and the address that it was fetched from, and
/// leaves the machine as it was.
pub proof fn lemma_unknown_opcode(m: Machine)
    requires
        decode_spec(m.read(m.reg.pc)) is None,
    ensures
        m.step() == (
            Err::<u32, DecodeError>(DecodeError { opcode: m.read(m.reg.pc), address: m.reg.pc }),
            m,
        ),
{
}

/// A step fails only on an opcode without an entry in the base table.
pub proof fn lemma_step_fails_only_on_unknown(m: Machine)
    ensures
        m.step().0 is Err <==> decode_spec(m.read(m.reg.pc)) is None,
{
}

/// The relative jump 0x18 takes twelve cycles and leaves the program
/// counter at the address behind its two bytes plus the signed offset.
pub proof fn lemma_jump_relative(m: Machine)
    requires
        m.read(m.reg.pc) == 0x18,
    ensures
        m.step().0 == Ok::<u32, DecodeError>(12),
        m.step().1 == m.with_pc(
            relative_target(m.reg.pc.wrapping_add(2), m.read(m.reg.pc.wrapping_add(1))),
        ),
{
}

/// Taking an operand or an address changes neither `F` nor the memory.
pub proof fn lemma_operands_keep_flags(m: Machine, source: Source, pointer: Pointer)
    ensures
        m.fetch_byte().1.reg.f == m.reg.f,
        m.fetch_byte().1.mem == m.mem,
        m.fetch_word().1.reg.f == m.reg.f,
        m.fetch_word().1.mem == m.mem,
        m.source(source).1.reg.f == m.reg.f,
        m.source(source).1.mem == m.mem,
        m.pointer(pointer).1.reg.f == m.reg.f,
        m.pointer(pointer).1.mem == m.mem,
{
}

/// Writing an 8-bit place changes neither `F` nor the number of memory
/// cells.
pub proof fn lemma_place_keeps_flags(m: Machine, place: Place, value: u8)
    requires
        m.wf(),
    ensures
        m.with_place(place, value).reg.f == m.reg.f,
        m.with_place(place, value).mem.len() == m.mem.len(),
{
}

/// No instruction changes the number of memory cells, and none leaves a
/// bit in the low nibble of `F`: whatever writes `F` writes four flags or
/// a popped byte without its low nibble.
pub proof fn lemma_step_preserves_validity(m: Machine)
    requires
        m.wf(),
    ensures
        m.step().1.wf(),
        m.reg.wf() ==> m.step().1.reg.wf(),
{
    let (opcode, fetched) = m.fetch_byte();
    match decode_spec(opcode) {
        Some(instruction) => {
            lemma_execute_preserves_validity(fetched, instruction);
        },
        None => {},
    }
}

/// The statement of `lemma_step_preserves_validity` for one instruction of
/// the base table.
pub proof fn lemma_execute_preserves_validity(m: Machine, instruction: Instruction)
    requires
        m.wf(),
    ensures
        m.execute(instruction).1.wf(),
        m.reg.wf() ==> m.execute(instruction).1.reg.wf(),
{
    match instruction {
        Instruction::Alu(_, _)
        | Instruction::Increment(_)
        | Instruction::Decrement(_)
        | Instruction::Complement
        | Instruction::ComplementCarry
        | Instruction::SetCarry
        | Instruction::RotateAccumulator(_) => {
            lemma_arithmetic_writes_flags(m, instruction);
        },
        Instruction::Prefix => {
            let (opcode, fetched) = m.fetch_byte();
            lemma_operands_keep_flags(m, Source::Memory, Pointer::BC);
            lemma_execute_extended_preserves_validity(fetched, decode_extended_spec(opcode));
        },
        Instruction::Pop(pair) => {
            lemma_pop_keeps_flags_valid(m, pair);
        },
        _ => {
            lemma_moves_keep_flags(m, instruction);
        },
    }
}

/// Loads, stores, pushes and jumps leave `F` as it is and change no
/// number of memory cells.
pub proof fn lemma_moves_keep_flags(m: Machine, instruction: Instruction)
    requires
        m.wf(),
        matches!(
            instruction,
            Instruction::Nop | Instruction::Load(_, _) | Instruction::LoadAccumulator(_)
                | Instruction::StoreAccumulator(_) | Instruction::LoadWord(_) | Instruction::LoadStackPointer
                | Instruction::StoreStackPointer | Instruction::Push(_) | Instruction::Jump
                | Instruction::JumpIf(_, _) | Instruction::JumpToHl | Instruction::JumpRelative
                | Instruction::JumpRelativeIf(_, _)
        ),
    ensures
        m.execute(instruction).1.wf(),
        m.execute(instruction).1.reg.f == m.reg.f,
{
    match instruction {
        Instruction::Load(destination, source) => {
            let (value, fetched) = m.source(source);
            lemma_operands_keep_flags(m, source, Pointer::BC);
            lemma_place_keeps_flags(fetched, destination, value);
        },
        Instruction::LoadAccumulator(pointer) | Instruction::StoreAccumulator(pointer) => {
            lemma_operands_keep_flags(m, Source::Memory, pointer);
        },
        _ => {
            lemma_operands_keep_flags(m, Source::Memory, Pointer::BC);
        },
    }
}

/// A pop leaves `F` as it is, or writes it without its low nibble.
proof fn lemma_pop_keeps_flags_valid(m: Machine, pair: StackReg)
    requires
        m.wf(),
    ensures
        m.execute(Instruction::Pop(pair)).1.wf(),
        m.reg.wf() ==> m.execute(Instruction::Pop(pair)).1.reg.wf(),
{
    let (word, popped) = m.pop();
    assert(popped.reg.f == m.reg.f);
    assert(popped.reg.with_af(word).wf());
}

/// The arithmetic, logical and flag instructions write four flags to `F`,
/// and change no number of memory cells.
proof fn lemma_arithmetic_writes_flags(m: Machine, instruction: Instruction)
    requires
        m.wf(),
        matches!(
            instruction,
            Instruction::Alu(_, _) | Instruction::Increment(_) | Instruction::Decrement(_)
                | Instruction::Complement | Instruction::ComplementCarry | Instruction::SetCarry
                | Instruction::RotateAccumulator(_)
        ),
    ensures
        m.execute(instruction).1.wf(),
        m.execute(instruction).1.reg.wf(),
{
    match instruction {
        Instruction::Alu(op, source) => {
            let (value, fetched) = m.source(source);
            lemma_operands_keep_flags(m, source, Pointer::BC);
            lemma_alu_flags(fetched.reg, op, value);
        },
        Instruction::Increment(place) => {
            let value = m.place(place);
            let flagged = m.with_reg(after_increment(m.reg, value));
            lemma_flags_after(m.reg, incremented(value) == 0, false, value % 16 == 15, m.reg.flag(Flag::C));
            lemma_place_keeps_flags(flagged, place, incremented(value));
        },
        Instruction::Decrement(place) => {
            let value = m.place(place);
            let flagged = m.with_reg(after_decrement(m.reg, value));
            lemma_flags_after(m.reg, decremented(value) == 0, true, value % 16 == 0, m.reg.flag(Flag::C));
            lemma_place_keeps_flags(flagged, place, decremented(value));
        },
        Instruction::Complement => {
            lemma_flags_after(
                Register { a: (255 - m.reg.a) as u8, ..m.reg },
                m.reg.flag(Flag::Z),
                true,
                true,
                m.reg.flag(Flag::C),
            );
        },
        Instruction::ComplementCarry => {
            lemma_flags_after(m.reg, m.reg.flag(Flag::Z), false, false, !m.reg.flag(Flag::C));
        },
        Instruction::SetCarry => {
            lemma_flags_after(m.reg, m.reg.flag(Flag::Z), false, false, true);
        },
        Instruction::RotateAccumulator(op) => {
            let result = shifted(op, m.reg.a, m.reg.flag(Flag::C));
            lemma_flags_after(m.reg, result == 0, false, false, shifted_out(op, m.reg.a));
        },
        _ => {},
    }
}

/// The statement of `lemma_step_preserves_validity` for one instruction of
/// the extended table.
pub proof fn lemma_execute_extended_preserves_validity(m: Machine, instruction: ExtendedInstruction)
    requires
        m.wf(),
    ensures
        m.execute_extended(instruction).1.wf(),
        m.reg.wf() ==> m.execute_extended(instruction).1.reg.wf(),
{
    match instruction {
        ExtendedInstruction::Shift(op, place) => {
            let value = m.place(place);
            let result = shifted(op, value, m.reg.flag(Flag::C));
            let flagged = m.with_reg(after_shift(m.reg, op, value));
            lemma_flags_after(m.reg, result == 0, false, false, shifted_out(op, value));
            lemma_place_keeps_flags(flagged, place, result);
        },
        ExtendedInstruction::TestBit(index, place) => {
            lemma_flags_after(m.reg, !bit_of(m.place(place), index), false, true, m.reg.flag(Flag::C));
        },
        ExtendedInstruction::ResetBit(index, place) => {
            lemma_place_keeps_flags(m, place, with_bit(m.place(place), index, false));
        },
        ExtendedInstruction::SetBit(index, place) => {
            lemma_place_keeps_flags(m, place, with_bit(m.place(place), index, true));
        },
    }
}

} // verus!
