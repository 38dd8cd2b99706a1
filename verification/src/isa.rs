//! The instruction set: what each opcode byte means.
//!
//! An opcode names an operation, the register it works on and the addressing
//! mode of its operand. The addressing mode alone fixes how many bytes the
//! instruction takes up.

use vstd::prelude::*;

verus! {

/// The 8-bit registers that an instruction can load or store.
pub enum Register {
    /// The accumulator.
    A,
    /// The first index register, which indexed addressing adds to an address.
    X,
    /// The second index register.
    Y,
}

/// What an instruction does with its operand.
pub enum Operation {
    /// Register <- operand value, or memory at the operand's address.
    Load,
    /// Memory at the operand's address <- register.
    Store,
}

/// How the bytes after an opcode are turned into an operand.
pub enum Mode {
    /// One byte, which is the value itself.
    Immediate,
    /// One byte, an address in 0x00..=0xFF.
    ZeroPage,
    /// One byte, to which X is added within 8 bits.
    ZeroPageX,
    /// Two bytes, low then high, a full 16-bit address.
    Absolute,
    /// Two bytes, low then high, to which X is added once they are composed.
    AbsoluteX,
}

/// An entry of the opcode table.
pub struct Instruction {
    pub op: Operation,
    pub reg: Register,
    pub mode: Mode,
}

impl Mode {
    /// Bytes that an instruction in this mode occupies, opcode included.
    pub open spec fn length(self) -> int {
        match self {
            Mode::Immediate | Mode::ZeroPage | Mode::ZeroPageX => 2,
            Mode::Absolute | Mode::AbsoluteX => 3,
        }
    }
}

/// The entry for a load of `reg` in `mode`.
pub open spec fn load(reg: Register, mode: Mode) -> Instruction {
    Instruction { op: Operation::Load, reg, mode }
}

/// The entry for a store of `reg` in `mode`.
pub open spec fn store(reg: Register, mode: Mode) -> Instruction {
    Instruction { op: Operation::Store, reg, mode }
}

/// The opcode table. `None` is an opcode that the machine does not know.
pub open spec fn decode(opcode: u8) -> Option<Instruction> {
    match opcode {
        0xA9 => Some(load(Register::A, Mode::Immediate)),
        0xA2 => Some(load(Register::X, Mode::Immediate)),
        0xA0 => Some(load(Register::Y, Mode::Immediate)),
        0xA5 => Some(load(Register::A, Mode::ZeroPage)),
        0xA6 => Some(load(Register::X, Mode::ZeroPage)),
        0xA4 => Some(load(Register::Y, Mode::ZeroPage)),
        0xB5 => Some(load(Register::A, Mode::ZeroPageX)),
        0xB4 => Some(load(Register::Y, Mode::ZeroPageX)),
        0xAD => Some(load(Register::A, Mode::Absolute)),
        0xAE => Some(load(Register::X, Mode::Absolute)),
        0xAC => Some(load(Register::Y, Mode::Absolute)),
        0xBD => Some(load(Register::A, Mode::AbsoluteX)),
        0xBC => Some(load(Register::Y, Mode::AbsoluteX)),
        0x85 => Some(store(Register::A, Mode::ZeroPage)),
        0x86 => Some(store(Register::X, Mode::ZeroPage)),
        0x84 => Some(store(Register::Y, Mode::ZeroPage)),
        _ => None,
    }
}

/// Whether `opcode` is in the table as operation `op` in mode `mode`.
pub open spec fn in_family(opcode: u8, op: Operation, mode: Mode) -> bool {
    match decode(opcode) {
        Some(ins) => ins.op == op && ins.mode == mode,
        None => false,
    }
}

} // verus!
