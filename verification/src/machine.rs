//! The machine as a mathematical value, and what one instruction does to it.

use vstd::prelude::*;
use crate::isa::{decode, load, store, Instruction, Mode, Operation, Register};
use crate::memory::{read_at, written, MEMORY_SIZE};

verus! {

/// Address at which a program image is placed and at which execution starts.
pub const ORIGIN: u16 = 0x0C00;

/// Value of the stack pointer at reset.
pub const STACK_RESET: u16 = 0x0100;

/// The register file and the bus contents.
pub struct Machine {
    pub a: u8,
    pub x: u8,
    pub y: u8,
    pub sp: u16,
    pub pc: u16,
    pub mem: Seq<u8>,
}

/// What addressing-mode resolution yields.
pub enum Operand {
    /// The operand is this value.
    Value(u8),
    /// The operand is the byte at this effective address.
    Address(u16),
}

impl Machine {
    /// The bus has one byte per address.
    pub open spec fn wf(self) -> bool {
        self.mem.len() == MEMORY_SIZE
    }

    /// The machine at reset, on a bus holding `mem`.
    pub open spec fn reset(mem: Seq<u8>) -> Machine {
        Machine { a: 0, x: 0, y: 0, sp: STACK_RESET, pc: ORIGIN, mem }
    }

    /// The byte `offset` places after the one the program counter addresses.
    pub open spec fn fetch(self, offset: int) -> u8 {
        read_at(self.mem, self.pc + offset)
    }

    /// The value of a register.
    pub open spec fn reg(self, r: Register) -> u8 {
        match r {
            Register::A => self.a,
            Register::X => self.x,
            Register::Y => self.y,
        }
    }

    /// This machine with `val` in register `r`.
    pub open spec fn with_reg(self, r: Register, val: u8) -> Machine {
        match r {
            Register::A => Machine { a: val, ..self },
            Register::X => Machine { x: val, ..self },
            Register::Y => Machine { y: val, ..self },
        }
    }

    /// The operand of an instruction in `mode` whose first operand byte is
    /// `arg`. A second operand byte is taken from the bus, two places after
    /// the opcode.
    ///
    /// The zero-page index is added within 8 bits, so the address stays in
    /// the zero page. The absolute index is added to the composed 16-bit
    /// address, within 16 bits.
    pub open spec fn resolve(self, mode: Mode, arg: u8) -> Operand {
        match mode {
            Mode::Immediate => Operand::Value(arg),
            Mode::ZeroPage => Operand::Address(arg as u16),
            Mode::ZeroPageX => Operand::Address(((arg + self.x) % 0x100) as u16),
            Mode::Absolute => Operand::Address((arg + 0x100 * self.fetch(2)) as u16),
            Mode::AbsoluteX => Operand::Address(
                ((arg + 0x100 * self.fetch(2) + self.x) % 0x10000) as u16,
            ),
        }
    }

    /// The program counter after an instruction in `mode`.
    pub open spec fn next_pc(self, mode: Mode) -> u16 {
        ((self.pc + mode.length()) % 0x10000) as u16
    }

    /// The machine after instruction `ins` with first operand byte `arg`.
    ///
    /// A load puts the operand in the register, a store puts the register at
    /// the operand's address, and either moves the program counter past the
    /// instruction. A store has no use for an immediate operand and leaves
    /// the bus as it is.
    pub open spec fn execute(self, ins: Instruction, arg: u8) -> Machine {
        let after = match (ins.op, self.resolve(ins.mode, arg)) {
            (Operation::Load, Operand::Value(val)) => self.with_reg(ins.reg, val),
            (Operation::Load, Operand::Address(addr)) => self.with_reg(
                ins.reg,
                read_at(self.mem, addr as int),
            ),
            (Operation::Store, Operand::Address(addr)) => Machine {
                mem: written(self.mem, addr as int, self.reg(ins.reg)),
                ..self
            },
            (Operation::Store, Operand::Value(_)) => self,
        };
        Machine { pc: self.next_pc(ins.mode), ..after }
    }

    /// One turn of the fetch-decode-execute cycle: the machine after the
    /// instruction at the program counter, or `None` where the byte there is
    /// no known opcode and the machine halts.
    pub open spec fn step(self) -> Option<Machine> {
        match decode(self.fetch(0)) {
            Some(ins) => Some(self.execute(ins, self.fetch(1))),
            None => None,
        }
    }
}

/// No instruction resizes the bus or touches the stack pointer.
pub proof fn lemma_execute_keeps_wf(s: Machine, ins: Instruction, arg: u8)
    requires
        s.wf(),
    ensures
        s.execute(ins, arg).wf(),
        s.execute(ins, arg).sp == s.sp,
{
}

/// A register stored to a zero-page address and loaded back from it into any
/// register arrives unchanged.
pub proof fn lemma_store_load_round_trip(s: Machine, from: Register, to: Register, z: u8)
    requires
        s.wf(),
    ensures
        s.execute(store(from, Mode::ZeroPage), z).execute(load(to, Mode::ZeroPage), z).reg(to)
            == s.reg(from),
{
}

} // verus!
