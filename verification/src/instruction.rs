//! The two instruction tables: which operation each opcode byte stands
//! for, and what it costs.
//!
//! An opcode byte is three fields, `xx yyy zzz`: two bits that select a
//! quarter of the table and two octal digits that select the operation and
//! its operands within the quarter. `decode_spec` and `decode_extended_spec`
//! state the encoding over those fields; `decode` and `decode_extended` are
//! the lookup tables that the engine uses, proved equal to them entry by
//! entry.

use vstd::prelude::*;
use crate::register::{ByteReg, Flag};

verus! {

/// An 8-bit location that an instruction reads and writes: a register, or
/// the memory cell that `HL` points to.
#[derive(Clone, Copy, Debug, PartialEq, Eq, Structural)]
pub enum Place {
    Reg(ByteReg),
    Memory,
}

/// Where an instruction takes an 8-bit operand from: a register, the
/// memory cell that `HL` points to, or the byte that follows the opcode.
#[derive(Clone, Copy, Debug, PartialEq, Eq, Structural)]
pub enum Source {
    Reg(ByteReg),
    Memory,
    Immediate,
}

/// The memory operand of an accumulator load or store.
#[derive(Clone, Copy, Debug, PartialEq, Eq, Structural)]
pub enum Pointer {
    /// The cell at `BC`.
    BC,
    /// The cell at `DE`.
    DE,
    /// The cell at `HL`; `HL` is incremented afterwards.
    HlIncrement,
    /// The cell at `HL`; `HL` is decremented afterwards.
    HlDecrement,
    /// The cell at the word that follows the opcode.
    Immediate,
    /// The cell at 0xFF00 plus the byte that follows the opcode.
    HighImmediate,
    /// The cell at 0xFF00 plus `C`.
    HighC,
}

/// A 16-bit register that takes an immediate word.
#[derive(Clone, Copy, Debug, PartialEq, Eq, Structural)]
pub enum WordReg {
    BC,
    DE,
    HL,
    SP,
}

/// A register pair that can be pushed and popped.
#[derive(Clone, Copy, Debug, PartialEq, Eq, Structural)]
pub enum StackReg {
    BC,
    DE,
    HL,
    AF,
}

/// An arithmetic or logical operation on the accumulator.
#[derive(Clone, Copy, Debug, PartialEq, Eq, Structural)]
pub enum AluOp {
    Add,
    Adc,
    Sub,
    Sbc,
    And,
    Xor,
    Or,
    Cp,
}

/// A rotate, shift or nibble swap of one byte.
#[derive(Clone, Copy, Debug, PartialEq, Eq, Structural)]
pub enum ShiftOp {
    Rlc,
    Rrc,
    Rl,
    Rr,
    Sla,
    Sra,
    Swap,
    Srl,
}

/// An entry of the base table.
#[derive(Clone, Copy, Debug, PartialEq, Eq, Structural)]
pub enum Instruction {
    /// `NOP`
    Nop,
    /// `LD r,r'`, `LD r,(HL)`, `LD (HL),r`, `LD r,n`, `LD (HL),n`
    Load(Place, Source),
    /// `LD A,(..)`
    LoadAccumulator(Pointer),
    /// `LD (..),A`
    StoreAccumulator(Pointer),
    /// `LD rr,nn`
    LoadWord(WordReg),
    /// `LD SP,HL`
    LoadStackPointer,
    /// `LD (nn),SP`
    StoreStackPointer,
    /// `PUSH rr`
    Push(StackReg),
    /// `POP rr`
    Pop(StackReg),
    /// `ADD`, `ADC`, `SUB`, `SBC`, `AND`, `XOR`, `OR`, `CP`
    Alu(AluOp, Source),
    /// `INC r`, `INC (HL)`
    Increment(Place),
    /// `DEC r`, `DEC (HL)`
    Decrement(Place),
    /// `CPL`
    Complement,
    /// `CCF`
    ComplementCarry,
    /// `SCF`
    SetCarry,
    /// `RLCA`, `RRCA`, `RLA`, `RRA`
    RotateAccumulator(ShiftOp),
    /// `JP nn`
    Jump,
    /// `JP cc,nn`: jump if the flag has the given state
    JumpIf(Flag, bool),
    /// `JP (HL)`
    JumpToHl,
    /// `JR e`
    JumpRelative,
    /// `JR cc,e`: jump if the flag has the given state
    JumpRelativeIf(Flag, bool),
    /// The prefix that selects the extended table for the next byte.
    Prefix,
}

/// An entry of the extended table.
#[derive(Clone, Copy, Debug, PartialEq, Eq, Structural)]
pub enum ExtendedInstruction {
    /// `RLC`, `RRC`, `RL`, `RR`, `SLA`, `SRA`, `SWAP`, `SRL`
    Shift(ShiftOp, Place),
    /// `BIT b,r`: test bit `b`
    TestBit(u8, Place),
    /// `RES b,r`: clear bit `b`
    ResetBit(u8, Place),
    /// `SET b,r`: set bit `b`
    SetBit(u8, Place),
}

/// An opcode that the base table has no entry for.
#[derive(Clone, Copy, Debug, PartialEq, Eq, Structural)]
pub struct DecodeError {
    /// The byte that could not be decoded.
    pub opcode: u8,
    /// The address that it was fetched from.
    pub address: u16,
}

/// The quarter of the table that `opcode` lies in: its top two bits.
pub open spec fn quarter(opcode: u8) -> int {
    opcode as int / 64
}

/// The middle octal digit of `opcode`: bits 5 to 3.
pub open spec fn middle(opcode: u8) -> int {
    opcode as int / 8 % 8
}

/// The last octal digit of `opcode`: bits 2 to 0.
pub open spec fn last(opcode: u8) -> int {
    opcode as int % 8
}

/// The 8-bit location that an octal digit names.
pub open spec fn place_of(digit: int) -> Place {
    if digit == 0 {
        Place::Reg(ByteReg::B)
    } else if digit == 1 {
        Place::Reg(ByteReg::C)
    } else if digit == 2 {
        Place::Reg(ByteReg::D)
    } else if digit == 3 {
        Place::Reg(ByteReg::E)
    } else if digit == 4 {
        Place::Reg(ByteReg::H)
    } else if digit == 5 {
        Place::Reg(ByteReg::L)
    } else if digit == 6 {
        Place::Memory
    } else {
        Place::Reg(ByteReg::A)
    }
}

impl Place {
    /// The place as the source of an operand.
    pub open spec fn source(self) -> Source {
        match self {
            Place::Reg(r) => Source::Reg(r),
            Place::Memory => Source::Memory,
        }
    }
}

/// The accumulator operation that an octal digit names.
pub open spec fn alu_of(digit: int) -> AluOp {
    if digit == 0 {
        AluOp::Add
    } else if digit == 1 {
        AluOp::Adc
    } else if digit == 2 {
        AluOp::Sub
    } else if digit == 3 {
        AluOp::Sbc
    } else if digit == 4 {
        AluOp::And
    } else if digit == 5 {
        AluOp::Xor
    } else if digit == 6 {
        AluOp::Or
    } else {
        AluOp::Cp
    }
}

/// The rotate or shift that an octal digit names.
pub open spec fn shift_of(digit: int) -> ShiftOp {
    if digit == 0 {
        ShiftOp::Rlc
    } else if digit == 1 {
        ShiftOp::Rrc
    } else if digit == 2 {
        ShiftOp::Rl
    } else if digit == 3 {
        ShiftOp::Rr
    } else if digit == 4 {
        ShiftOp::Sla
    } else if digit == 5 {
        ShiftOp::Sra
    } else if digit == 6 {
        ShiftOp::Swap
    } else {
        ShiftOp::Srl
    }
}

/// The 16-bit register that a two-bit field names in a word load.
pub open spec fn word_reg_of(field: int) -> WordReg {
    if field == 0 {
        WordReg::BC
    } else if field == 1 {
        WordReg::DE
    } else if field == 2 {
        WordReg::HL
    } else {
        WordReg::SP
    }
}

/// The register pair that a two-bit field names in a push or pop.
pub open spec fn stack_reg_of(field: int) -> StackReg {
    if field == 0 {
        StackReg::BC
    } else if field == 1 {
        StackReg::DE
    } else if field == 2 {
        StackReg::HL
    } else {
        StackReg::AF
    }
}

/// The memory operand that a two-bit field names in the first quarter.
pub open spec fn pointer_of(field: int) -> Pointer {
    if field == 0 {
        Pointer::BC
    } else if field == 1 {
        Pointer::DE
    } else if field == 2 {
        Pointer::HlIncrement
    } else {
        Pointer::HlDecrement
    }
}

/// The flag that a two-bit condition field tests: Z for `NZ` and `Z`, C for
/// `NC` and `C`.
pub open spec fn condition_flag(field: int) -> Flag {
    if field < 2 {
        Flag::Z
    } else {
        Flag::C
    }
}

/// The state that a two-bit condition field asks of its flag.
pub open spec fn condition_state(field: int) -> bool {
    field % 2 == 1
}

/// First quarter: loads of immediates and through pointers, increments,
/// decrements, accumulator rotates, flag operations and relative jumps.
pub open spec fn decode_first_quarter(y: int, z: int) -> Option<Instruction> {
    if z == 0 {
        if y == 0 {
            Some(Instruction::Nop)
        } else if y == 1 {
            Some(Instruction::StoreStackPointer)
        } else if y == 2 {
            None
        } else if y == 3 {
            Some(Instruction::JumpRelative)
        } else {
            Some(Instruction::JumpRelativeIf(condition_flag(y - 4), condition_state(y - 4)))
        }
    } else if z == 1 {
        if y % 2 == 0 {
            Some(Instruction::LoadWord(word_reg_of(y / 2)))
        } else {
            None
        }
    } else if z == 2 {
        if y % 2 == 0 {
            Some(Instruction::StoreAccumulator(pointer_of(y / 2)))
        } else {
            Some(Instruction::LoadAccumulator(pointer_of(y / 2)))
        }
    } else if z == 3 {
        None
    } else if z == 4 {
        Some(Instruction::Increment(place_of(y)))
    } else if z == 5 {
        Some(Instruction::Decrement(place_of(y)))
    } else if z == 6 {
        Some(Instruction::Load(place_of(y), Source::Immediate))
    } else if y < 4 {
        Some(Instruction::RotateAccumulator(shift_of(y)))
    } else if y == 4 {
        None
    } else if y == 5 {
        Some(Instruction::Complement)
    } else if y == 6 {
        Some(Instruction::SetCarry)
    } else {
        Some(Instruction::ComplementCarry)
    }
}

/// Last quarter: stack operations, absolute jumps, accumulator loads and
/// stores at immediate and high addresses, operations on an immediate, and
/// the prefix.
pub open spec fn decode_last_quarter(y: int, z: int) -> Option<Instruction> {
    if z == 0 {
        if y == 4 {
            Some(Instruction::StoreAccumulator(Pointer::HighImmediate))
        } else if y == 6 {
            Some(Instruction::LoadAccumulator(Pointer::HighImmediate))
        } else {
            None
        }
    } else if z == 1 {
        if y % 2 == 0 {
            Some(Instruction::Pop(stack_reg_of(y / 2)))
        } else if y == 5 {
            Some(Instruction::JumpToHl)
        } else if y == 7 {
            Some(Instruction::LoadStackPointer)
        } else {
            None
        }
    } else if z == 2 {
        if y < 4 {
            Some(Instruction::JumpIf(condition_flag(y), condition_state(y)))
        } else if y == 4 {
            Some(Instruction::StoreAccumulator(Pointer::HighC))
        } else if y == 5 {
            Some(Instruction::StoreAccumulator(Pointer::Immediate))
        } else if y == 6 {
            Some(Instruction::LoadAccumulator(Pointer::HighC))
        } else {
            Some(Instruction::LoadAccumulator(Pointer::Immediate))
        }
    } else if z == 3 {
        if y == 0 {
            Some(Instruction::Jump)
        } else if y == 1 {
            Some(Instruction::Prefix)
        } else {
            None
        }
    } else if z == 5 {
        if y % 2 == 0 {
            Some(Instruction::Push(stack_reg_of(y / 2)))
        } else {
            None
        }
    } else if z == 6 {
        if y == 3 {
            None
        } else {
            Some(Instruction::Alu(alu_of(y), Source::Immediate))
        }
    } else {
        None
    }
}

/// The entry of the base table for `opcode`, `None` where the table has
/// none.
pub open spec fn decode_spec(opcode: u8) -> Option<Instruction> {
    let x = quarter(opcode);
    let y = middle(opcode);
    let z = last(opcode);
    if x == 0 {
        decode_first_quarter(y, z)
    } else if x == 1 {
        if y == 6 && z == 6 {
            None
        } else {
            Some(Instruction::Load(place_of(y), place_of(z).source()))
        }
    } else if x == 2 {
        Some(Instruction::Alu(alu_of(y), place_of(z).source()))
    } else {
        decode_last_quarter(y, z)
    }
}

/// The entry of the extended table for `opcode`. Every byte has one.
pub open spec fn decode_extended_spec(opcode: u8) -> ExtendedInstruction {
    let x = quarter(opcode);
    let y = middle(opcode);
    let z = last(opcode);
    if x == 0 {
        ExtendedInstruction::Shift(shift_of(y), place_of(z))
    } else if x == 1 {
        ExtendedInstruction::TestBit(y as u8, place_of(z))
    } else if x == 2 {
        ExtendedInstruction::ResetBit(y as u8, place_of(z))
    } else {
        ExtendedInstruction::SetBit(y as u8, place_of(z))
    }
}

/// Look `opcode` up in the base table.
pub fn decode(opcode: u8) -> (entry: Option<Instruction>)
    ensures
        entry == decode_spec(opcode),
{
    match opcode {
        0x00 => Some(Instruction::Nop),
        0x01 => Some(Instruction::LoadWord(WordReg::BC)),
        0x02 => Some(Instruction::StoreAccumulator(Pointer::BC)),
        0x04 => Some(Instruction::Increment(Place::Reg(ByteReg::B))),
        0x05 => Some(Instruction::Decrement(Place::Reg(ByteReg::B))),
        0x06 => Some(Instruction::Load(Place::Reg(ByteReg::B), Source::Immediate)),
        0x07 => Some(Instruction::RotateAccumulator(ShiftOp::Rlc)),
        0x08 => Some(Instruction::StoreStackPointer),
        0x0A => Some(Instruction::LoadAccumulator(Pointer::BC)),
        0x0C => Some(Instruction::Increment(Place::Reg(ByteReg::C))),
        0x0D => Some(Instruction::Decrement(Place::Reg(ByteReg::C))),
        0x0E => Some(Instruction::Load(Place::Reg(ByteReg::C), Source::Immediate)),
        0x0F => Some(Instruction::RotateAccumulator(ShiftOp::Rrc)),
        0x11 => Some(Instruction::LoadWord(WordReg::DE)),
        0x12 => Some(Instruction::StoreAccumulator(Pointer::DE)),
        0x14 => Some(Instruction::Increment(Place::Reg(ByteReg::D))),
        0x15 => Some(Instruction::Decrement(Place::Reg(ByteReg::D))),
        0x16 => Some(Instruction::Load(Place::Reg(ByteReg::D), Source::Immediate)),
        0x17 => Some(Instruction::RotateAccumulator(ShiftOp::Rl)),
        0x18 => Some(Instruction::JumpRelative),
        0x1A => Some(Instruction::LoadAccumulator(Pointer::DE)),
        0x1C => Some(Instruction::Increment(Place::Reg(ByteReg::E))),
        0x1D => Some(Instruction::Decrement(Place::Reg(ByteReg::E))),
        0x1E => Some(Instruction::Load(Place::Reg(ByteReg::E), Source::Immediate)),
        0x1F => Some(Instruction::RotateAccumulator(ShiftOp::Rr)),
        0x20 => Some(Instruction::JumpRelativeIf(Flag::Z, false)),
        0x21 => Some(Instruction::LoadWord(WordReg::HL)),
        0x22 => Some(Instruction::StoreAccumulator(Pointer::HlIncrement)),
        0x24 => Some(Instruction::Increment(Place::Reg(ByteReg::H))),
        0x25 => Some(Instruction::Decrement(Place::Reg(ByteReg::H))),
        0x26 => Some(Instruction::Load(Place::Reg(ByteReg::H), Source::Immediate)),
        0x28 => Some(Instruction::JumpRelativeIf(Flag::Z, true)),
        0x2A => Some(Instruction::LoadAccumulator(Pointer::HlIncrement)),
        0x2C => Some(Instruction::Increment(Place::Reg(ByteReg::L))),
        0x2D => Some(Instruction::Decrement(Place::Reg(ByteReg::L))),
        0x2E => Some(Instruction::Load(Place::Reg(ByteReg::L), Source::Immediate)),
        0x2F => Some(Instruction::Complement),
        0x30 => Some(Instruction::JumpRelativeIf(Flag::C, false)),
        0x31 => Some(Instruction::LoadWord(WordReg::SP)),
        0x32 => Some(Instruction::StoreAccumulator(Pointer::HlDecrement)),
        0x34 => Some(Instruction::Increment(Place::Memory)),
        0x35 => Some(Instruction::Decrement(Place::Memory)),
        0x36 => Some(Instruction::Load(Place::Memory, Source::Immediate)),
        0x37 => Some(Instruction::SetCarry),
        0x38 => Some(Instruction::JumpRelativeIf(Flag::C, true)),
        0x3A => Some(Instruction::LoadAccumulator(Pointer::HlDecrement)),
        0x3C => Some(Instruction::Increment(Place::Reg(ByteReg::A))),
        0x3D => Some(Instruction::Decrement(Place::Reg(ByteReg::A))),
        0x3E => Some(Instruction::Load(Place::Reg(ByteReg::A), Source::Immediate)),
        0x3F => Some(Instruction::ComplementCarry),
        0x40 => Some(Instruction::Load(Place::Reg(ByteReg::B), Source::Reg(ByteReg::B))),
        0x41 => Some(Instruction::Load(Place::Reg(ByteReg::B), Source::Reg(ByteReg::C))),
        0x42 => Some(Instruction::Load(Place::Reg(ByteReg::B), Source::Reg(ByteReg::D))),
        0x43 => Some(Instruction::Load(Place::Reg(ByteReg::B), Source::Reg(ByteReg::E))),
        0x44 => Some(Instruction::Load(Place::Reg(ByteReg::B), Source::Reg(ByteReg::H))),
        0x45 => Some(Instruction::Load(Place::Reg(ByteReg::B), Source::Reg(ByteReg::L))),
        0x46 => Some(Instruction::Load(Place::Reg(ByteReg::B), Source::Memory)),
        0x47 => Some(Instruction::Load(Place::Reg(ByteReg::B), Source::Reg(ByteReg::A))),
        0x48 => Some(Instruction::Load(Place::Reg(ByteReg::C), Source::Reg(ByteReg::B))),
        0x49 => Some(Instruction::Load(Place::Reg(ByteReg::C), Source::Reg(ByteReg::C))),
        0x4A => Some(Instruction::Load(Place::Reg(ByteReg::C), Source::Reg(ByteReg::D))),
        0x4B => Some(Instruction::Load(Place::Reg(ByteReg::C), Source::Reg(ByteReg::E))),
        0x4C => Some(Instruction::Load(Place::Reg(ByteReg::C), Source::Reg(ByteReg::H))),
        0x4D => Some(Instruction::Load(Place::Reg(ByteReg::C), Source::Reg(ByteReg::L))),
        0x4E => Some(Instruction::Load(Place::Reg(ByteReg::C), Source::Memory)),
        0x4F => Some(Instruction::Load(Place::Reg(ByteReg::C), Source::Reg(ByteReg::A))),
        0x50 => Some(Instruction::Load(Place::Reg(ByteReg::D), Source::Reg(ByteReg::B))),
        0x51 => Some(Instruction::Load(Place::Reg(ByteReg::D), Source::Reg(ByteReg::C))),
        0x52 => Some(Instruction::Load(Place::Reg(ByteReg::D), Source::Reg(ByteReg::D))),
        0x53 => Some(Instruction::Load(Place::Reg(ByteReg::D), Source::Reg(ByteReg::E))),
        0x54 => Some(Instruction::Load(Place::Reg(ByteReg::D), Source::Reg(ByteReg::H))),
        0x55 => Some(Instruction::Load(Place::Reg(ByteReg::D), Source::Reg(ByteReg::L))),
        0x56 => Some(Instruction::Load(Place::Reg(ByteReg::D), Source::Memory)),
        0x57 => Some(Instruction::Load(Place::Reg(ByteReg::D), Source::Reg(ByteReg::A))),
        0x58 => Some(Instruction::Load(Place::Reg(ByteReg::E), Source::Reg(ByteReg::B))),
        0x59 => Some(Instruction::Load(Place::Reg(ByteReg::E), Source::Reg(ByteReg::C))),
        0x5A => Some(Instruction::Load(Place::Reg(ByteReg::E), Source::Reg(ByteReg::D))),
        0x5B => Some(Instruction::Load(Place::Reg(ByteReg::E), Source::Reg(ByteReg::E))),
        0x5C => Some(Instruction::Load(Place::Reg(ByteReg::E), Source::Reg(ByteReg::H))),
        0x5D => Some(Instruction::Load(Place::Reg(ByteReg::E), Source::Reg(ByteReg::L))),
        0x5E => Some(Instruction::Load(Place::Reg(ByteReg::E), Source::Memory)),
        0x5F => Some(Instruction::Load(Place::Reg(ByteReg::E), Source::Reg(ByteReg::A))),
        0x60 => Some(Instruction::Load(Place::Reg(ByteReg::H), Source::Reg(ByteReg::B))),
        0x61 => Some(Instruction::Load(Place::Reg(ByteReg::H), Source::Reg(ByteReg::C))),
        0x62 => Some(Instruction::Load(Place::Reg(ByteReg::H), Source::Reg(ByteReg::D))),
        0x63 => Some(Instruction::Load(Place::Reg(ByteReg::H), Source::Reg(ByteReg::E))),
        0x64 => Some(Instruction::Load(Place::Reg(ByteReg::H), Source::Reg(ByteReg::H))),
        0x65 => Some(Instruction::Load(Place::Reg(ByteReg::H), Source::Reg(ByteReg::L))),
        0x66 => Some(Instruction::Load(Place::Reg(ByteReg::H), Source::Memory)),
        0x67 => Some(Instruction::Load(Place::Reg(ByteReg::H), Source::Reg(ByteReg::A))),
        0x68 => Some(Instruction::Load(Place::Reg(ByteReg::L), Source::Reg(ByteReg::B))),
        0x69 => Some(Instruction::Load(Place::Reg(ByteReg::L), Source::Reg(ByteReg::C))),
        0x6A => Some(Instruction::Load(Place::Reg(ByteReg::L), Source::Reg(ByteReg::D))),
        0x6B => Some(Instruction::Load(Place::Reg(ByteReg::L), Source::Reg(ByteReg::E))),
        0x6C => Some(Instruction::Load(Place::Reg(ByteReg::L), Source::Reg(ByteReg::H))),
        0x6D => Some(Instruction::Load(Place::Reg(ByteReg::L), Source::Reg(ByteReg::L))),
        0x6E => Some(Instruction::Load(Place::Reg(ByteReg::L), Source::Memory)),
        0x6F => Some(Instruction::Load(Place::Reg(ByteReg::L), Source::Reg(ByteReg::A))),
        0x70 => Some(Instruction::Load(Place::Memory, Source::Reg(ByteReg::B))),
        0x71 => Some(Instruction::Load(Place::Memory, Source::Reg(ByteReg::C))),
        0x72 => Some(Instruction::Load(Place::Memory, Source::Reg(ByteReg::D))),
        0x73 => Some(Instruction::Load(Place::Memory, Source::Reg(ByteReg::E))),
        0x74 => Some(Instruction::Load(Place::Memory, Source::Reg(ByteReg::H))),
        0x75 => Some(Instruction::Load(Place::Memory, Source::Reg(ByteReg::L))),
        0x77 => Some(Instruction::Load(Place::Memory, Source::Reg(ByteReg::A))),
        0x78 => Some(Instruction::Load(Place::Reg(ByteReg::A), Source::Reg(ByteReg::B))),
        0x79 => Some(Instruction::Load(Place::Reg(ByteReg::A), Source::Reg(ByteReg::C))),
        0x7A => Some(Instruction::Load(Place::Reg(ByteReg::A), Source::Reg(ByteReg::D))),
        0x7B => Some(Instruction::Load(Place::Reg(ByteReg::A), Source::Reg(ByteReg::E))),
        0x7C => Some(Instruction::Load(Place::Reg(ByteReg::A), Source::Reg(ByteReg::H))),
        0x7D => Some(Instruction::Load(Place::Reg(ByteReg::A), Source::Reg(ByteReg::L))),
        0x7E => Some(Instruction::Load(Place::Reg(ByteReg::A), Source::Memory)),
        0x7F => Some(Instruction::Load(Place::Reg(ByteReg::A), Source::Reg(ByteReg::A))),
        0x80 => Some(Instruction::Alu(AluOp::Add, Source::Reg(ByteReg::B))),
        0x81 => Some(Instruction::Alu(AluOp::Add, Source::Reg(ByteReg::C))),
        0x82 => Some(Instruction::Alu(AluOp::Add, Source::Reg(ByteReg::D))),
        0x83 => Some(Instruction::Alu(AluOp::Add, Source::Reg(ByteReg::E))),
        0x84 => Some(Instruction::Alu(AluOp::Add, Source::Reg(ByteReg::H))),
        0x85 => Some(Instruction::Alu(AluOp::Add, Source::Reg(ByteReg::L))),
        0x86 => Some(Instruction::Alu(AluOp::Add, Source::Memory)),
        0x87 => Some(Instruction::Alu(AluOp::Add, Source::Reg(ByteReg::A))),
        0x88 => Some(Instruction::Alu(AluOp::Adc, Source::Reg(ByteReg::B))),
        0x89 => Some(Instruction::Alu(AluOp::Adc, Source::Reg(ByteReg::C))),
        0x8A => Some(Instruction::Alu(AluOp::Adc, Source::Reg(ByteReg::D))),
        0x8B => Some(Instruction::Alu(AluOp::Adc, Source::Reg(ByteReg::E))),
        0x8C => Some(Instruction::Alu(AluOp::Adc, Source::Reg(ByteReg::H))),
        0x8D => Some(Instruction::Alu(AluOp::Adc, Source::Reg(ByteReg::L))),
        0x8E => Some(Instruction::Alu(AluOp::Adc, Source::Memory)),
        0x8F => Some(Instruction::Alu(AluOp::Adc, Source::Reg(ByteReg::A))),
        0x90 => Some(Instruction::Alu(AluOp::Sub, Source::Reg(ByteReg::B))),
        0x91 => Some(Instruction::Alu(AluOp::Sub, Source::Reg(ByteReg::C))),
        0x92 => Some(Instruction::Alu(AluOp::Sub, Source::Reg(ByteReg::D))),
        0x93 => Some(Instruction::Alu(AluOp::Sub, Source::Reg(ByteReg::E))),
        0x94 => Some(Instruction::Alu(AluOp::Sub, Source::Reg(ByteReg::H))),
        0x95 => Some(Instruction::Alu(AluOp::Sub, Source::Reg(ByteReg::L))),
        0x96 => Some(Instruction::Alu(AluOp::Sub, Source::Memory)),
        0x97 => Some(Instruction::Alu(AluOp::Sub, Source::Reg(ByteReg::A))),
        0x98 => Some(Instruction::Alu(AluOp::Sbc, Source::Reg(ByteReg::B))),
        0x99 => Some(Instruction::Alu(AluOp::Sbc, Source::Reg(ByteReg::C))),
        0x9A => Some(Instruction::Alu(AluOp::Sbc, Source::Reg(ByteReg::D))),
        0x9B => Some(Instruction::Alu(AluOp::Sbc, Source::Reg(ByteReg::E))),
        0x9C => Some(Instruction::Alu(AluOp::Sbc, Source::Reg(ByteReg::H))),
        0x9D => Some(Instruction::Alu(AluOp::Sbc, Source::Reg(ByteReg::L))),
        0x9E => Some(Instruction::Alu(AluOp::Sbc, Source::Memory)),
        0x9F => Some(Instruction::Alu(AluOp::Sbc, Source::Reg(ByteReg::A))),
        0xA0 => Some(Instruction::Alu(AluOp::And, Source::Reg(ByteReg::B))),
        0xA1 => Some(Instruction::Alu(AluOp::And, Source::Reg(ByteReg::C))),
        0xA2 => Some(Instruction::Alu(AluOp::And, Source::Reg(ByteReg::D))),
        0xA3 => Some(Instruction::Alu(AluOp::And, Source::Reg(ByteReg::E))),
        0xA4 => Some(Instruction::Alu(AluOp::And, Source::Reg(ByteReg::H))),
        0xA5 => Some(Instruction::Alu(AluOp::And, Source::Reg(ByteReg::L))),
        0xA6 => Some(Instruction::Alu(AluOp::And, Source::Memory)),
        0xA7 => Some(Instruction::Alu(AluOp::And, Source::Reg(ByteReg::A))),
        0xA8 => Some(Instruction::Alu(AluOp::Xor, Source::Reg(ByteReg::B))),
        0xA9 => Some(Instruction::Alu(AluOp::Xor, Source::Reg(ByteReg::C))),
        0xAA => Some(Instruction::Alu(AluOp::Xor, Source::Reg(ByteReg::D))),
        0xAB => Some(Instruction::Alu(AluOp::Xor, Source::Reg(ByteReg::E))),
        0xAC => Some(Instruction::Alu(AluOp::Xor, Source::Reg(ByteReg::H))),
        0xAD => Some(Instruction::Alu(AluOp::Xor, Source::Reg(ByteReg::L))),
        0xAE => Some(Instruction::Alu(AluOp::Xor, Source::Memory)),
        0xAF => Some(Instruction::Alu(AluOp::Xor, Source::Reg(ByteReg::A))),
        0xB0 => Some(Instruction::Alu(AluOp::Or, Source::Reg(ByteReg::B))),
        0xB1 => Some(Instruction::Alu(AluOp::Or, Source::Reg(ByteReg::C))),
        0xB2 => Some(Instruction::Alu(AluOp::Or, Source::Reg(ByteReg::D))),
        0xB3 => Some(Instruction::Alu(AluOp::Or, Source::Reg(ByteReg::E))),
        0xB4 => Some(Instruction::Alu(AluOp::Or, Source::Reg(ByteReg::H))),
        0xB5 => Some(Instruction::Alu(AluOp::Or, Source::Reg(ByteReg::L))),
        0xB6 => Some(Instruction::Alu(AluOp::Or, Source::Memory)),
        0xB7 => Some(Instruction::Alu(AluOp::Or, Source::Reg(ByteReg::A))),
        0xB8 => Some(Instruction::Alu(AluOp::Cp, Source::Reg(ByteReg::B))),
        0xB9 => Some(Instruction::Alu(AluOp::Cp, Source::Reg(ByteReg::C))),
        0xBA => Some(Instruction::Alu(AluOp::Cp, Source::Reg(ByteReg::D))),
        0xBB => Some(Instruction::Alu(AluOp::Cp, Source::Reg(ByteReg::E))),
        0xBC => Some(Instruction::Alu(AluOp::Cp, Source::Reg(ByteReg::H))),
        0xBD => Some(Instruction::Alu(AluOp::Cp, Source::Reg(ByteReg::L))),
        0xBE => Some(Instruction::Alu(AluOp::Cp, Source::Memory)),
        0xBF => Some(Instruction::Alu(AluOp::Cp, Source::Reg(ByteReg::A))),
        0xC1 => Some(Instruction::Pop(StackReg::BC)),
        0xC2 => Some(Instruction::JumpIf(Flag::Z, false)),
        0xC3 => Some(Instruction::Jump),
        0xC5 => Some(Instruction::Push(StackReg::BC)),
        0xC6 => Some(Instruction::Alu(AluOp::Add, Source::Immediate)),
        0xCA => Some(Instruction::JumpIf(Flag::Z, true)),
        0xCB => Some(Instruction::Prefix),
        0xCE => Some(Instruction::Alu(AluOp::Adc, Source::Immediate)),
        0xD1 => Some(Instruction::Pop(StackReg::DE)),
        0xD2 => Some(Instruction::JumpIf(Flag::C, false)),
        0xD5 => Some(Instruction::Push(StackReg::DE)),
        0xD6 => Some(Instruction::Alu(AluOp::Sub, Source::Immediate)),
        0xDA => Some(Instruction::JumpIf(Flag::C, true)),
        0xE0 => Some(Instruction::StoreAccumulator(Pointer::HighImmediate)),
        0xE1 => Some(Instruction::Pop(StackReg::HL)),
        0xE2 => Some(Instruction::StoreAccumulator(Pointer::HighC)),
        0xE5 => Some(Instruction::Push(StackReg::HL)),
        0xE6 => Some(Instruction::Alu(AluOp::And, Source::Immediate)),
        0xE9 => Some(Instruction::JumpToHl),
        0xEA => Some(Instruction::StoreAccumulator(Pointer::Immediate)),
        0xEE => Some(Instruction::Alu(AluOp::Xor, Source::Immediate)),
        0xF0 => Some(Instruction::LoadAccumulator(Pointer::HighImmediate)),
        0xF1 => Some(Instruction::Pop(StackReg::AF)),
        0xF2 => Some(Instruction::LoadAccumulator(Pointer::HighC)),
        0xF5 => Some(Instruction::Push(StackReg::AF)),
        0xF6 => Some(Instruction::Alu(AluOp::Or, Source::Immediate)),
        0xF9 => Some(Instruction::LoadStackPointer),
        0xFA => Some(Instruction::LoadAccumulator(Pointer::Immediate)),
        0xFE => Some(Instruction::Alu(AluOp::Cp, Source::Immediate)),
        _ => None,
    }
}

/// Look `opcode` up in the extended table.
pub fn decode_extended(opcode: u8) -> (entry: ExtendedInstruction)
    ensures
        entry == decode_extended_spec(opcode),
{
    match opcode {
        0x00 => ExtendedInstruction::Shift(ShiftOp::Rlc, Place::Reg(ByteReg::B)),
        0x01 => ExtendedInstruction::Shift(ShiftOp::Rlc, Place::Reg(ByteReg::C)),
        0x02 => ExtendedInstruction::Shift(ShiftOp::Rlc, Place::Reg(ByteReg::D)),
        0x03 => ExtendedInstruction::Shift(ShiftOp::Rlc, Place::Reg(ByteReg::E)),
        0x04 => ExtendedInstruction::Shift(ShiftOp::Rlc, Place::Reg(ByteReg::H)),
        0x05 => ExtendedInstruction::Shift(ShiftOp::Rlc, Place::Reg(ByteReg::L)),
        0x06 => ExtendedInstruction::Shift(ShiftOp::Rlc, Place::Memory),
        0x07 => ExtendedInstruction::Shift(ShiftOp::Rlc, Place::Reg(ByteReg::A)),
        0x08 => ExtendedInstruction::Shift(ShiftOp::Rrc, Place::Reg(ByteReg::B)),
        0x09 => ExtendedInstruction::Shift(ShiftOp::Rrc, Place::Reg(ByteReg::C)),
        0x0A => ExtendedInstruction::Shift(ShiftOp::Rrc, Place::Reg(ByteReg::D)),
        0x0B => ExtendedInstruction::Shift(ShiftOp::Rrc, Place::Reg(ByteReg::E)),
        0x0C => ExtendedInstruction::Shift(ShiftOp::Rrc, Place::Reg(ByteReg::H)),
        0x0D => ExtendedInstruction::Shift(ShiftOp::Rrc, Place::Reg(ByteReg::L)),
        0x0E => ExtendedInstruction::Shift(ShiftOp::Rrc, Place::Memory),
        0x0F => ExtendedInstruction::Shift(ShiftOp::Rrc, Place::Reg(ByteReg::A)),
        0x10 => ExtendedInstruction::Shift(ShiftOp::Rl, Place::Reg(ByteReg::B)),
        0x11 => ExtendedInstruction::Shift(ShiftOp::Rl, Place::Reg(ByteReg::C)),
        0x12 => ExtendedInstruction::Shift(ShiftOp::Rl, Place::Reg(ByteReg::D)),
        0x13 => ExtendedInstruction::Shift(ShiftOp::Rl, Place::Reg(ByteReg::E)),
        0x14 => ExtendedInstruction::Shift(ShiftOp::Rl, Place::Reg(ByteReg::H)),
        0x15 => ExtendedInstruction::Shift(ShiftOp::Rl, Place::Reg(ByteReg::L)),
        0x16 => ExtendedInstruction::Shift(ShiftOp::Rl, Place::Memory),
        0x17 => ExtendedInstruction::Shift(ShiftOp::Rl, Place::Reg(ByteReg::A)),
        0x18 => ExtendedInstruction::Shift(ShiftOp::Rr, Place::Reg(ByteReg::B)),
        0x19 => ExtendedInstruction::Shift(ShiftOp::Rr, Place::Reg(ByteReg::C)),
        0x1A => ExtendedInstruction::Shift(ShiftOp::Rr, Place::Reg(ByteReg::D)),
        0x1B => ExtendedInstruction::Shift(ShiftOp::Rr, Place::Reg(ByteReg::E)),
        0x1C => ExtendedInstruction::Shift(ShiftOp::Rr, Place::Reg(ByteReg::H)),
        0x1D => ExtendedInstruction::Shift(ShiftOp::Rr, Place::Reg(ByteReg::L)),
        0x1E => ExtendedInstruction::Shift(ShiftOp::Rr, Place::Memory),
        0x1F => ExtendedInstruction::Shift(ShiftOp::Rr, Place::Reg(ByteReg::A)),
        0x20 => ExtendedInstruction::Shift(ShiftOp::Sla, Place::Reg(ByteReg::B)),
        0x21 => ExtendedInstruction::Shift(ShiftOp::Sla, Place::Reg(ByteReg::C)),
        0x22 => ExtendedInstruction::Shift(ShiftOp::Sla, Place::Reg(ByteReg::D)),
        0x23 => ExtendedInstruction::Shift(ShiftOp::Sla, Place::Reg(ByteReg::E)),
        0x24 => ExtendedInstruction::Shift(ShiftOp::Sla, Place::Reg(ByteReg::H)),
        0x25 => ExtendedInstruction::Shift(ShiftOp::Sla, Place::Reg(ByteReg::L)),
        0x26 => ExtendedInstruction::Shift(ShiftOp::Sla, Place::Memory),
        0x27 => ExtendedInstruction::Shift(ShiftOp::Sla, Place::Reg(ByteReg::A)),
        0x28 => ExtendedInstruction::Shift(ShiftOp::Sra, Place::Reg(ByteReg::B)),
        0x29 => ExtendedInstruction::Shift(ShiftOp::Sra, Place::Reg(ByteReg::C)),
        0x2A => ExtendedInstruction::Shift(ShiftOp::Sra, Place::Reg(ByteReg::D)),
        0x2B => ExtendedInstruction::Shift(ShiftOp::Sra, Place::Reg(ByteReg::E)),
        0x2C => ExtendedInstruction::Shift(ShiftOp::Sra, Place::Reg(ByteReg::H)),
        0x2D => ExtendedInstruction::Shift(ShiftOp::Sra, Place::Reg(ByteReg::L)),
        0x2E => ExtendedInstruction::Shift(ShiftOp::Sra, Place::Memory),
        0x2F => ExtendedInstruction::Shift(ShiftOp::Sra, Place::Reg(ByteReg::A)),
        0x30 => ExtendedInstruction::Shift(ShiftOp::Swap, Place::Reg(ByteReg::B)),
        0x31 => ExtendedInstruction::Shift(ShiftOp::Swap, Place::Reg(ByteReg::C)),
        0x32 => ExtendedInstruction::Shift(ShiftOp::Swap, Place::Reg(ByteReg::D)),
        0x33 => ExtendedInstruction::Shift(ShiftOp::Swap, Place::Reg(ByteReg::E)),
        0x34 => ExtendedInstruction::Shift(ShiftOp::Swap, Place::Reg(ByteReg::H)),
        0x35 => ExtendedInstruction::Shift(ShiftOp::Swap, Place::Reg(ByteReg::L)),
        0x36 => ExtendedInstruction::Shift(ShiftOp::Swap, Place::Memory),
        0x37 => ExtendedInstruction::Shift(ShiftOp::Swap, Place::Reg(ByteReg::A)),
        0x38 => ExtendedInstruction::Shift(ShiftOp::Srl, Place::Reg(ByteReg::B)),
        0x39 => ExtendedInstruction::Shift(ShiftOp::Srl, Place::Reg(ByteReg::C)),
        0x3A => ExtendedInstruction::Shift(ShiftOp::Srl, Place::Reg(ByteReg::D)),
        0x3B => ExtendedInstruction::Shift(ShiftOp::Srl, Place::Reg(ByteReg::E)),
        0x3C => ExtendedInstruction::Shift(ShiftOp::Srl, Place::Reg(ByteReg::H)),
        0x3D => ExtendedInstruction::Shift(ShiftOp::Srl, Place::Reg(ByteReg::L)),
        0x3E => ExtendedInstruction::Shift(ShiftOp::Srl, Place::Memory),
        0x3F => ExtendedInstruction::Shift(ShiftOp::Srl, Place::Reg(ByteReg::A)),
        0x40 => ExtendedInstruction::TestBit(0, Place::Reg(ByteReg::B)),
        0x41 => ExtendedInstruction::TestBit(0, Place::Reg(ByteReg::C)),
        0x42 => ExtendedInstruction::TestBit(0, Place::Reg(ByteReg::D)),
        0x43 => ExtendedInstruction::TestBit(0, Place::Reg(ByteReg::E)),
        0x44 => ExtendedInstruction::TestBit(0, Place::Reg(ByteReg::H)),
        0x45 => ExtendedInstruction::TestBit(0, Place::Reg(ByteReg::L)),
        0x46 => ExtendedInstruction::TestBit(0, Place::Memory),
        0x47 => ExtendedInstruction::TestBit(0, Place::Reg(ByteReg::A)),
        0x48 => ExtendedInstruction::TestBit(1, Place::Reg(ByteReg::B)),
        0x49 => ExtendedInstruction::TestBit(1, Place::Reg(ByteReg::C)),
        0x4A => ExtendedInstruction::TestBit(1, Place::Reg(ByteReg::D)),
        0x4B => ExtendedInstruction::TestBit(1, Place::Reg(ByteReg::E)),
        0x4C => ExtendedInstruction::TestBit(1, Place::Reg(ByteReg::H)),
        0x4D => ExtendedInstruction::TestBit(1, Place::Reg(ByteReg::L)),
        0x4E => ExtendedInstruction::TestBit(1, Place::Memory),
        0x4F => ExtendedInstruction::TestBit(1, Place::Reg(ByteReg::A)),
        0x50 => ExtendedInstruction::TestBit(2, Place::Reg(ByteReg::B)),
        0x51 => ExtendedInstruction::TestBit(2, Place::Reg(ByteReg::C)),
        0x52 => ExtendedInstruction::TestBit(2, Place::Reg(ByteReg::D)),
        0x53 => ExtendedInstruction::TestBit(2, Place::Reg(ByteReg::E)),
        0x54 => ExtendedInstruction::TestBit(2, Place::Reg(ByteReg::H)),
        0x55 => ExtendedInstruction::TestBit(2, Place::Reg(ByteReg::L)),
        0x56 => ExtendedInstruction::TestBit(2, Place::Memory),
        0x57 => ExtendedInstruction::TestBit(2, Place::Reg(ByteReg::A)),
        0x58 => ExtendedInstruction::TestBit(3, Place::Reg(ByteReg::B)),
        0x59 => ExtendedInstruction::TestBit(3, Place::Reg(ByteReg::C)),
        0x5A => ExtendedInstruction::TestBit(3, Place::Reg(ByteReg::D)),
        0x5B => ExtendedInstruction::TestBit(3, Place::Reg(ByteReg::E)),
        0x5C => ExtendedInstruction::TestBit(3, Place::Reg(ByteReg::H)),
        0x5D => ExtendedInstruction::TestBit(3, Place::Reg(ByteReg::L)),
        0x5E => ExtendedInstruction::TestBit(3, Place::Memory),
        0x5F => ExtendedInstruction::TestBit(3, Place::Reg(ByteReg::A)),
        0x60 => ExtendedInstruction::TestBit(4, Place::Reg(ByteReg::B)),
        0x61 => ExtendedInstruction::TestBit(4, Place::Reg(ByteReg::C)),
        0x62 => ExtendedInstruction::TestBit(4, Place::Reg(ByteReg::D)),
        0x63 => ExtendedInstruction::TestBit(4, Place::Reg(ByteReg::E)),
        0x64 => ExtendedInstruction::TestBit(4, Place::Reg(ByteReg::H)),
        0x65 => ExtendedInstruction::TestBit(4, Place::Reg(ByteReg::L)),
        0x66 => ExtendedInstruction::TestBit(4, Place::Memory),
        0x67 => ExtendedInstruction::TestBit(4, Place::Reg(ByteReg::A)),
        0x68 => ExtendedInstruction::TestBit(5, Place::Reg(ByteReg::B)),
        0x69 => ExtendedInstruction::TestBit(5, Place::Reg(ByteReg::C)),
        0x6A => ExtendedInstruction::TestBit(5, Place::Reg(ByteReg::D)),
        0x6B => ExtendedInstruction::TestBit(5, Place::Reg(ByteReg::E)),
        0x6C => ExtendedInstruction::TestBit(5, Place::Reg(ByteReg::H)),
        0x6D => ExtendedInstruction::TestBit(5, Place::Reg(ByteReg::L)),
        0x6E => ExtendedInstruction::TestBit(5, Place::Memory),
        0x6F => ExtendedInstruction::TestBit(5, Place::Reg(ByteReg::A)),
        0x70 => ExtendedInstruction::TestBit(6, Place::Reg(ByteReg::B)),
        0x71 => ExtendedInstruction::TestBit(6, Place::Reg(ByteReg::C)),
        0x72 => ExtendedInstruction::TestBit(6, Place::Reg(ByteReg::D)),
        0x73 => ExtendedInstruction::TestBit(6, Place::Reg(ByteReg::E)),
        0x74 => ExtendedInstruction::TestBit(6, Place::Reg(ByteReg::H)),
        0x75 => ExtendedInstruction::TestBit(6, Place::Reg(ByteReg::L)),
        0x76 => ExtendedInstruction::TestBit(6, Place::Memory),
        0x77 => ExtendedInstruction::TestBit(6, Place::Reg(ByteReg::A)),
        0x78 => ExtendedInstruction::TestBit(7, Place::Reg(ByteReg::B)),
        0x79 => ExtendedInstruction::TestBit(7, Place::Reg(ByteReg::C)),
        0x7A => ExtendedInstruction::TestBit(7, Place::Reg(ByteReg::D)),
        0x7B => ExtendedInstruction::TestBit(7, Place::Reg(ByteReg::E)),
        0x7C => ExtendedInstruction::TestBit(7, Place::Reg(ByteReg::H)),
        0x7D => ExtendedInstruction::TestBit(7, Place::Reg(ByteReg::L)),
        0x7E => ExtendedInstruction::TestBit(7, Place::Memory),
        0x7F => ExtendedInstruction::TestBit(7, Place::Reg(ByteReg::A)),
        0x80 => ExtendedInstruction::ResetBit(0, Place::Reg(ByteReg::B)),
        0x81 => ExtendedInstruction::ResetBit(0, Place::Reg(ByteReg::C)),
        0x82 => ExtendedInstruction::ResetBit(0, Place::Reg(ByteReg::D)),
        0x83 => ExtendedInstruction::ResetBit(0, Place::Reg(ByteReg::E)),
        0x84 => ExtendedInstruction::ResetBit(0, Place::Reg(ByteReg::H)),
        0x85 => ExtendedInstruction::ResetBit(0, Place::Reg(ByteReg::L)),
        0x86 => ExtendedInstruction::ResetBit(0, Place::Memory),
        0x87 => ExtendedInstruction::ResetBit(0, Place::Reg(ByteReg::A)),
        0x88 => ExtendedInstruction::ResetBit(1, Place::Reg(ByteReg::B)),
        0x89 => ExtendedInstruction::ResetBit(1, Place::Reg(ByteReg::C)),
        0x8A => ExtendedInstruction::ResetBit(1, Place::Reg(ByteReg::D)),
        0x8B => ExtendedInstruction::ResetBit(1, Place::Reg(ByteReg::E)),
        0x8C => ExtendedInstruction::ResetBit(1, Place::Reg(ByteReg::H)),
        0x8D => ExtendedInstruction::ResetBit(1, Place::Reg(ByteReg::L)),
        0x8E => ExtendedInstruction::ResetBit(1, Place::Memory),
        0x8F => ExtendedInstruction::ResetBit(1, Place::Reg(ByteReg::A)),
        0x90 => ExtendedInstruction::ResetBit(2, Place::Reg(ByteReg::B)),
        0x91 => ExtendedInstruction::ResetBit(2, Place::Reg(ByteReg::C)),
        0x92 => ExtendedInstruction::ResetBit(2, Place::Reg(ByteReg::D)),
        0x93 => ExtendedInstruction::ResetBit(2, Place::Reg(ByteReg::E)),
        0x94 => ExtendedInstruction::ResetBit(2, Place::Reg(ByteReg::H)),
        0x95 => ExtendedInstruction::ResetBit(2, Place::Reg(ByteReg::L)),
        0x96 => ExtendedInstruction::ResetBit(2, Place::Memory),
        0x97 => ExtendedInstruction::ResetBit(2, Place::Reg(ByteReg::A)),
        0x98 => ExtendedInstruction::ResetBit(3, Place::Reg(ByteReg::B)),
        0x99 => ExtendedInstruction::ResetBit(3, Place::Reg(ByteReg::C)),
        0x9A => ExtendedInstruction::ResetBit(3, Place::Reg(ByteReg::D)),
        0x9B => ExtendedInstruction::ResetBit(3, Place::Reg(ByteReg::E)),
        0x9C => ExtendedInstruction::ResetBit(3, Place::Reg(ByteReg::H)),
        0x9D => ExtendedInstruction::ResetBit(3, Place::Reg(ByteReg::L)),
        0x9E => ExtendedInstruction::ResetBit(3, Place::Memory),
        0x9F => ExtendedInstruction::ResetBit(3, Place::Reg(ByteReg::A)),
        0xA0 => ExtendedInstruction::ResetBit(4, Place::Reg(ByteReg::B)),
        0xA1 => ExtendedInstruction::ResetBit(4, Place::Reg(ByteReg::C)),
        0xA2 => ExtendedInstruction::ResetBit(4, Place::Reg(ByteReg::D)),
        0xA3 => ExtendedInstruction::ResetBit(4, Place::Reg(ByteReg::E)),
        0xA4 => ExtendedInstruction::ResetBit(4, Place::Reg(ByteReg::H)),
        0xA5 => ExtendedInstruction::ResetBit(4, Place::Reg(ByteReg::L)),
        0xA6 => ExtendedInstruction::ResetBit(4, Place::Memory),
        0xA7 => ExtendedInstruction::ResetBit(4, Place::Reg(ByteReg::A)),
        0xA8 => ExtendedInstruction::ResetBit(5, Place::Reg(ByteReg::B)),
        0xA9 => ExtendedInstruction::ResetBit(5, Place::Reg(ByteReg::C)),
        0xAA => ExtendedInstruction::ResetBit(5, Place::Reg(ByteReg::D)),
        0xAB => ExtendedInstruction::ResetBit(5, Place::Reg(ByteReg::E)),
        0xAC => ExtendedInstruction::ResetBit(5, Place::Reg(ByteReg::H)),
        0xAD => ExtendedInstruction::ResetBit(5, Place::Reg(ByteReg::L)),
        0xAE => ExtendedInstruction::ResetBit(5, Place::Memory),
        0xAF => ExtendedInstruction::ResetBit(5, Place::Reg(ByteReg::A)),
        0xB0 => ExtendedInstruction::ResetBit(6, Place::Reg(ByteReg::B)),
        0xB1 => ExtendedInstruction::ResetBit(6, Place::Reg(ByteReg::C)),
        0xB2 => ExtendedInstruction::ResetBit(6, Place::Reg(ByteReg::D)),
        0xB3 => ExtendedInstruction::ResetBit(6, Place::Reg(ByteReg::E)),
        0xB4 => ExtendedInstruction::ResetBit(6, Place::Reg(ByteReg::H)),
        0xB5 => ExtendedInstruction::ResetBit(6, Place::Reg(ByteReg::L)),
        0xB6 => ExtendedInstruction::ResetBit(6, Place::Memory),
        0xB7 => ExtendedInstruction::ResetBit(6, Place::Reg(ByteReg::A)),
        0xB8 => ExtendedInstruction::ResetBit(7, Place::Reg(ByteReg::B)),
        0xB9 => ExtendedInstruction::ResetBit(7, Place::Reg(ByteReg::C)),
        0xBA => ExtendedInstruction::ResetBit(7, Place::Reg(ByteReg::D)),
        0xBB => ExtendedInstruction::ResetBit(7, Place::Reg(ByteReg::E)),
        0xBC => ExtendedInstruction::ResetBit(7, Place::Reg(ByteReg::H)),
        0xBD => ExtendedInstruction::ResetBit(7, Place::Reg(ByteReg::L)),
        0xBE => ExtendedInstruction::ResetBit(7, Place::Memory),
        0xBF => ExtendedInstruction::ResetBit(7, Place::Reg(ByteReg::A)),
        0xC0 => ExtendedInstruction::SetBit(0, Place::Reg(ByteReg::B)),
        0xC1 => ExtendedInstruction::SetBit(0, Place::Reg(ByteReg::C)),
        0xC2 => ExtendedInstruction::SetBit(0, Place::Reg(ByteReg::D)),
        0xC3 => ExtendedInstruction::SetBit(0, Place::Reg(ByteReg::E)),
        0xC4 => ExtendedInstruction::SetBit(0, Place::Reg(ByteReg::H)),
        0xC5 => ExtendedInstruction::SetBit(0, Place::Reg(ByteReg::L)),
        0xC6 => ExtendedInstruction::SetBit(0, Place::Memory),
        0xC7 => ExtendedInstruction::SetBit(0, Place::Reg(ByteReg::A)),
        0xC8 => ExtendedInstruction::SetBit(1, Place::Reg(ByteReg::B)),
        0xC9 => ExtendedInstruction::SetBit(1, Place::Reg(ByteReg::C)),
        0xCA => ExtendedInstruction::SetBit(1, Place::Reg(ByteReg::D)),
        0xCB => ExtendedInstruction::SetBit(1, Place::Reg(ByteReg::E)),
        0xCC => ExtendedInstruction::SetBit(1, Place::Reg(ByteReg::H)),
        0xCD => ExtendedInstruction::SetBit(1, Place::Reg(ByteReg::L)),
        0xCE => ExtendedInstruction::SetBit(1, Place::Memory),
        0xCF => ExtendedInstruction::SetBit(1, Place::Reg(ByteReg::A)),
        0xD0 => ExtendedInstruction::SetBit(2, Place::Reg(ByteReg::B)),
        0xD1 => ExtendedInstruction::SetBit(2, Place::Reg(ByteReg::C)),
        0xD2 => ExtendedInstruction::SetBit(2, Place::Reg(ByteReg::D)),
        0xD3 => ExtendedInstruction::SetBit(2, Place::Reg(ByteReg::E)),
        0xD4 => ExtendedInstruction::SetBit(2, Place::Reg(ByteReg::H)),
        0xD5 => ExtendedInstruction::SetBit(2, Place::Reg(ByteReg::L)),
        0xD6 => ExtendedInstruction::SetBit(2, Place::Memory),
        0xD7 => ExtendedInstruction::SetBit(2, Place::Reg(ByteReg::A)),
        0xD8 => ExtendedInstruction::SetBit(3, Place::Reg(ByteReg::B)),
        0xD9 => ExtendedInstruction::SetBit(3, Place::Reg(ByteReg::C)),
        0xDA => ExtendedInstruction::SetBit(3, Place::Reg(ByteReg::D)),
        0xDB => ExtendedInstruction::SetBit(3, Place::Reg(ByteReg::E)),
        0xDC => ExtendedInstruction::SetBit(3, Place::Reg(ByteReg::H)),
        0xDD => ExtendedInstruction::SetBit(3, Place::Reg(ByteReg::L)),
        0xDE => ExtendedInstruction::SetBit(3, Place::Memory),
        0xDF => ExtendedInstruction::SetBit(3, Place::Reg(ByteReg::A)),
        0xE0 => ExtendedInstruction::SetBit(4, Place::Reg(ByteReg::B)),
        0xE1 => ExtendedInstruction::SetBit(4, Place::Reg(ByteReg::C)),
        0xE2 => ExtendedInstruction::SetBit(4, Place::Reg(ByteReg::D)),
        0xE3 => ExtendedInstruction::SetBit(4, Place::Reg(ByteReg::E)),
        0xE4 => ExtendedInstruction::SetBit(4, Place::Reg(ByteReg::H)),
        0xE5 => ExtendedInstruction::SetBit(4, Place::Reg(ByteReg::L)),
        0xE6 => ExtendedInstruction::SetBit(4, Place::Memory),
        0xE7 => ExtendedInstruction::SetBit(4, Place::Reg(ByteReg::A)),
        0xE8 => ExtendedInstruction::SetBit(5, Place::Reg(ByteReg::B)),
        0xE9 => ExtendedInstruction::SetBit(5, Place::Reg(ByteReg::C)),
        0xEA => ExtendedInstruction::SetBit(5, Place::Reg(ByteReg::D)),
        0xEB => ExtendedInstruction::SetBit(5, Place::Reg(ByteReg::E)),
        0xEC => ExtendedInstruction::SetBit(5, Place::Reg(ByteReg::H)),
        0xED => ExtendedInstruction::SetBit(5, Place::Reg(ByteReg::L)),
        0xEE => ExtendedInstruction::SetBit(5, Place::Memory),
        0xEF => ExtendedInstruction::SetBit(5, Place::Reg(ByteReg::A)),
        0xF0 => ExtendedInstruction::SetBit(6, Place::Reg(ByteReg::B)),
        0xF1 => ExtendedInstruction::SetBit(6, Place::Reg(ByteReg::C)),
        0xF2 => ExtendedInstruction::SetBit(6, Place::Reg(ByteReg::D)),
        0xF3 => ExtendedInstruction::SetBit(6, Place::Reg(ByteReg::E)),
        0xF4 => ExtendedInstruction::SetBit(6, Place::Reg(ByteReg::H)),
        0xF5 => ExtendedInstruction::SetBit(6, Place::Reg(ByteReg::L)),
        0xF6 => ExtendedInstruction::SetBit(6, Place::Memory),
        0xF7 => ExtendedInstruction::SetBit(6, Place::Reg(ByteReg::A)),
        0xF8 => ExtendedInstruction::SetBit(7, Place::Reg(ByteReg::B)),
        0xF9 => ExtendedInstruction::SetBit(7, Place::Reg(ByteReg::C)),
        0xFA => ExtendedInstruction::SetBit(7, Place::Reg(ByteReg::D)),
        0xFB => ExtendedInstruction::SetBit(7, Place::Reg(ByteReg::E)),
        0xFC => ExtendedInstruction::SetBit(7, Place::Reg(ByteReg::H)),
        0xFD => ExtendedInstruction::SetBit(7, Place::Reg(ByteReg::L)),
        0xFE => ExtendedInstruction::SetBit(7, Place::Memory),
        0xFF => ExtendedInstruction::SetBit(7, Place::Reg(ByteReg::A)),
    }
}

} // verus!
