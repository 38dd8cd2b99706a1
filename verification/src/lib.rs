//! An interpreter core for an 8-bit load/store machine in the style of the
//! MOS 6502.
//!
//! * [`memory`] is the bus: 65536 bytes, addressed modulo their number.
//! * [`isa`] is the opcode table: operation, register and addressing mode of
//!   each opcode the machine knows.
//! * [`machine`] is the machine as a mathematical value, with the meaning of
//!   addressing modes, of single instructions and of one
//!   fetch-decode-execute step.
//! * [`vm`] is the machine that runs: registers, bus and the step, each
//!   proved to do what [`machine`] says.
//! * [`dump`] renders the registers as text.
//!
//! The machine halts at the first byte that is no opcode of the table. A
//! halt carries no reason: the end of a program and a stray byte look alike.

pub mod dump;
pub mod isa;
pub mod machine;
pub mod memory;
pub mod vm;
