//! An interpreter core for the Sharp LR35902, the 8080/Z80 derivative that
//! drives the Game Boy.
//!
//! The core fetches an opcode from memory, looks it up in one of two
//! instruction tables, executes it on the register file and the memory, and
//! reports how many clock cycles the instruction took.
//!
//! * [`util`]: bytes, words, nibbles and rotations
//! * [`register`]: the register file with its pairs and flags
//! * [`memory`]: the 64 KiB address space with its echo window
//! * [`instruction`]: the base table and the extended table
//! * [`alu`]: what the arithmetic and bit operations compute
//! * [`machine`]: the machine as a mathematical value, and its step
//! * [`cpu`]: the engine, proved to do what [`machine`] says

pub mod alu;
pub mod cpu;
pub mod instruction;
pub mod machine;
pub mod memory;
pub mod register;
pub mod util;

pub use cpu::Cpu;
pub use instruction::{
    decode, decode_extended, AluOp, DecodeError, ExtendedInstruction, Instruction, Place, Pointer, ShiftOp, Source,
    StackReg, WordReg,
};
pub use memory::{ColorMode, LoadError, Mmu};
pub use register::{ByteReg, Flag, Register};
