//! The executable machine: the register file, the bus, and the
//! fetch-decode-execute step.

use vstd::prelude::*;
use crate::isa::{decode, in_family, Mode, Operation};
use crate::machine::{Machine, ORIGIN, STACK_RESET};
use crate::memory::{loaded, zeroed, Ram};

verus! {

/// The register file and the memory bus of one machine.
///
/// The registers are plain state: any value is valid in any of them. Only
/// the low 8 bits of `sp` mean anything to the architecture, and no
/// instruction of the table touches it.
pub struct Vm {
    /// Accumulator.
    pub a: u8,
    /// Index register X.
    pub x: u8,
    /// Index register Y.
    pub y: u8,
    /// Stack pointer.
    pub sp: u16,
    /// Program counter: the address of the next opcode.
    pub pc: u16,
    /// The memory bus.
    pub ram: Ram,
}

impl View for Vm {
    type V = Machine;

    open spec fn view(&self) -> Machine {
        Machine { a: self.a, x: self.x, y: self.y, sp: self.sp, pc: self.pc, mem: self.ram@ }
    }
}

impl Vm {
    /// The view of a machine is well formed.
    pub proof fn lemma_view_wf(self)
        ensures
            self@.wf(),
    {
        self.ram.lemma_view_len();
    }

    /// A machine at reset with `program` on an otherwise zeroed bus, placed
    /// at `ORIGIN`, where execution starts.
    pub fn new(program: Vec<u8>) -> (vm: Vm)
        ensures
            vm@ == Machine::reset(loaded(zeroed(), ORIGIN as int, program@)),
    {
        let mut ram = Ram::new();
        ram.load_data(ORIGIN, program);
        Vm { a: 0, x: 0, y: 0, sp: STACK_RESET, pc: ORIGIN, ram }
    }

    /// Runs the instruction at the program counter. Returns `false`, with
    /// the machine untouched, where the byte there is no known opcode: the
    /// machine has halted, and stays so.
    pub fn exec_opcode(&mut self) -> (running: bool)
        ensures
            running == old(self)@.step().is_some(),
            running ==> final(self)@ == old(self)@.step().unwrap(),
            !running ==> *final(self) == *old(self),
    {
        let opcode = self.ram.read(self.pc);
        let arg = self.ram.read(self.pc.wrapping_add(1));
        match opcode {
            0xA0 | 0xA2 | 0xA9 => self.exec_ld_reg_imm(opcode, arg),
            0x84 | 0x85 | 0x86 => self.exec_st_reg_zp(opcode, arg),
            0xA4 | 0xA5 | 0xA6 => self.exec_ld_reg_zp(opcode, arg),
            0xB4 | 0xB5 => self.exec_ld_reg_zpx(opcode, arg),
            0xAC | 0xAD | 0xAE => self.exec_ld_reg_abs(opcode, arg),
            0xBC | 0xBD => self.exec_ld_reg_abs_x(opcode, arg),
            _ => false,
        }
    }

    /// LDY, LDX, LDA with an immediate operand `arg`.
    ///
    /// Returns `false`, with the machine untouched, for any other opcode.
    pub fn exec_ld_reg_imm(&mut self, opcode: u8, arg: u8) -> (done: bool)
        ensures
            done == in_family(opcode, Operation::Load, Mode::Immediate),
            done ==> final(self)@ == old(self)@.execute(decode(opcode).unwrap(), arg),
            !done ==> *final(self) == *old(self),
    {
        match opcode {
            0xA0 => self.y = arg,
            0xA2 => self.x = arg,
            0xA9 => self.a = arg,
            _ => return false,
        }
        self.pc = self.pc.wrapping_add(2);
        true
    }

    /// LDY, LDX, LDA from the zero-page address `arg`.
    ///
    /// Returns `false`, with the machine untouched, for any other opcode.
    pub fn exec_ld_reg_zp(&mut self, opcode: u8, arg: u8) -> (done: bool)
        ensures
            done == in_family(opcode, Operation::Load, Mode::ZeroPage),
            done ==> final(self)@ == old(self)@.execute(decode(opcode).unwrap(), arg),
            !done ==> *final(self) == *old(self),
    {
        match opcode {
            0xA4 => self.y = self.ram.read(arg as u16),
            0xA6 => self.x = self.ram.read(arg as u16),
            0xA5 => self.a = self.ram.read(arg as u16),
            _ => return false,
        }
        self.pc = self.pc.wrapping_add(2);
        true
    }

    /// LDY, LDA from the zero-page address `arg + X`. The sum wraps within
    /// 8 bits, so the address is in the zero page whatever X holds.
    ///
    /// Returns `false`, with the machine untouched, for any other opcode.
    pub fn exec_ld_reg_zpx(&mut self, opcode: u8, arg: u8) -> (done: bool)
        ensures
            done == in_family(opcode, Operation::Load, Mode::ZeroPageX),
            done ==> final(self)@ == old(self)@.execute(decode(opcode).unwrap(), arg),
            !done ==> *final(self) == *old(self),
    {
        match opcode {
            0xB4 => self.y = self.ram.read(arg.wrapping_add(self.x) as u16),
            0xB5 => self.a = self.ram.read(arg.wrapping_add(self.x) as u16),
            _ => return false,
        }
        self.pc = self.pc.wrapping_add(2);
        true
    }

    /// LDY, LDX, LDA from the absolute address whose low byte is `arg` and
    /// whose high byte follows it on the bus.
    ///
    /// Returns `false`, with the machine untouched, for any other opcode.
    pub fn exec_ld_reg_abs(&mut self, opcode: u8, arg: u8) -> (done: bool)
        ensures
            done == in_family(opcode, Operation::Load, Mode::Absolute),
            done ==> final(self)@ == old(self)@.execute(decode(opcode).unwrap(), arg),
            !done ==> *final(self) == *old(self),
    {
        let addr = self.absolute(arg);
        match opcode {
            0xAC => self.y = self.ram.read(addr),
            0xAE => self.x = self.ram.read(addr),
            0xAD => self.a = self.ram.read(addr),
            _ => return false,
        }
        self.pc = self.pc.wrapping_add(3);
        true
    }

    /// LDY, LDA from the absolute address whose low byte is `arg` and whose
    /// high byte follows it on the bus, plus X. X is added to the composed
    /// address, and the sum wraps within 16 bits.
    ///
    /// Returns `false`, with the machine untouched, for any other opcode.
    pub fn exec_ld_reg_abs_x(&mut self, opcode: u8, arg: u8) -> (done: bool)
        ensures
            done == in_family(opcode, Operation::Load, Mode::AbsoluteX),
            done ==> final(self)@ == old(self)@.execute(decode(opcode).unwrap(), arg),
            !done ==> *final(self) == *old(self),
    {
        let addr = self.absolute(arg).wrapping_add(self.x as u16);
        match opcode {
            0xBC => self.y = self.ram.read(addr),
            0xBD => self.a = self.ram.read(addr),
            _ => return false,
        }
        self.pc = self.pc.wrapping_add(3);
        true
    }

    /// STY, STA, STX to the zero-page address `arg`.
    ///
    /// Returns `false`, with the machine untouched, for any other opcode.
    pub fn exec_st_reg_zp(&mut self, opcode: u8, arg: u8) -> (done: bool)
        ensures
            done == in_family(opcode, Operation::Store, Mode::ZeroPage),
            done ==> final(self)@ == old(self)@.execute(decode(opcode).unwrap(), arg),
            !done ==> *final(self) == *old(self),
    {
        match opcode {
            0x84 => self.ram.write(arg as u16, self.y),
            0x85 => self.ram.write(arg as u16, self.a),
            0x86 => self.ram.write(arg as u16, self.x),
            _ => return false,
        }
        self.pc = self.pc.wrapping_add(2);
        true
    }

    /// The 16-bit address with low byte `lo` and, as its high byte, the byte
    /// two places after the opcode.
    fn absolute(&self, lo: u8) -> (addr: u16)
        ensures
            addr == lo + 0x100 * self@.fetch(2),
    {
        let hi = self.ram.read(self.pc.wrapping_add(2));
        assert((lo as u16) | ((hi as u16) << 8) == lo + 0x100 * hi) by (bit_vector);
        (lo as u16) | ((hi as u16) << 8)
    }
}

} // verus!
