//! The diagnostic register dump: the register file as text.
//!
//! Each register is one line: its name, a colon, a space, `0x`, and its
//! value in lower-case hexadecimal, padded with zeros to two digits for an
//! 8-bit register and to four for a 16-bit one.

use vstd::prelude::*;
use vstd::string::{StrSliceExecFns, StringExecFns};
use crate::machine::Machine;
use crate::vm::Vm;

verus! {

/// The hexadecimal digit for a value below 16.
pub open spec fn hex_digit(n: int) -> char {
    "0123456789abcdef"@[n]
}

/// A byte as two hexadecimal digits.
pub open spec fn hex_byte(val: u8) -> Seq<char> {
    seq![hex_digit(val as int / 16), hex_digit(val as int % 16)]
}

/// A 16-bit word as four hexadecimal digits, high byte first.
pub open spec fn hex_word(val: u16) -> Seq<char> {
    hex_byte((val / 0x100) as u8) + hex_byte((val % 0x100) as u8)
}

/// One line of the dump: the register's name, its value, a line feed.
pub open spec fn line(name: Seq<char>, digits: Seq<char>) -> Seq<char> {
    name + ": 0x"@ + digits + "\n"@
}

/// The dump of a register file: A, X, Y, SP and PC, a line each.
pub open spec fn dump(m: Machine) -> Seq<char> {
    line("A"@, hex_byte(m.a)) + line("X"@, hex_byte(m.x)) + line("Y"@, hex_byte(m.y)) + line(
        "SP"@,
        hex_word(m.sp),
    ) + line("PC"@, hex_word(m.pc))
}

/// Appends the two hexadecimal digits of `val`.
fn push_hex_byte(out: &mut String, val: u8)
    ensures
        final(out)@ == old(out)@ + hex_byte(val),
{
    let digits = "0123456789abcdef";
    proof {
        reveal_strlit("0123456789abcdef");
    }
    let hi: usize = (val / 16) as usize;
    let lo: usize = (val % 16) as usize;
    out.append(digits.substring_ascii(hi, hi + 1));
    out.append(digits.substring_ascii(lo, lo + 1));
    assert(out@ =~= old(out)@ + hex_byte(val));
}

/// Appends the line of an 8-bit register.
fn push_byte_line(out: &mut String, name: &str, val: u8)
    ensures
        final(out)@ == old(out)@ + line(name@, hex_byte(val)),
{
    out.append(name);
    out.append(": 0x");
    push_hex_byte(out, val);
    out.append("\n");
    assert(out@ =~= old(out)@ + line(name@, hex_byte(val)));
}

/// Appends the line of a 16-bit register.
fn push_word_line(out: &mut String, name: &str, val: u16)
    ensures
        final(out)@ == old(out)@ + line(name@, hex_word(val)),
{
    out.append(name);
    out.append(": 0x");
    push_hex_byte(out, (val / 0x100) as u8);
    push_hex_byte(out, (val % 0x100) as u8);
    out.append("\n");
    assert(out@ =~= old(out)@ + line(name@, hex_word(val)));
}

impl Vm {
    /// The register file as text, one register per line.
    pub fn dump_regs(&self) -> (text: String)
        ensures
            text@ == dump(self@),
    {
        let mut text = String::new();
        push_byte_line(&mut text, "A", self.a);
        push_byte_line(&mut text, "X", self.x);
        push_byte_line(&mut text, "Y", self.y);
        push_word_line(&mut text, "SP", self.sp);
        push_word_line(&mut text, "PC", self.pc);
        assert(text@ =~= dump(self@));
        text
    }
}

} // verus!
