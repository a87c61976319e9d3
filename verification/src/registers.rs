//! The register file of one processing unit, and the flag bits.

use crate::memory::Word;
use vstd::prelude::*;

verus! {

/// Flag bit: the last comparison found its operands equal.
pub const FLAG_E: Word = 0b0010;

/// Flag bit: the unit has halted.
pub const FLAG_H: Word = 0b1000;

/// Whether any bit of `flag` is set in `flags`.
pub open spec fn has_flag(flags: Word, flag: Word) -> bool {
    flags & flag != 0
}

/// `flags` with every bit of `flag` set.
pub open spec fn with_flag(flags: Word, flag: Word) -> Word {
    flags | flag
}

/// `flags` with every bit of `flag` cleared.
pub open spec fn without_flag(flags: Word, flag: Word) -> Word {
    flags & !flag
}

/// Setting a flag makes it read as set, clearing it makes it read as clear,
/// and neither touches the other of the two defined flags.
pub proof fn lemma_flag_bits(flags: Word)
    ensures
        has_flag(with_flag(flags, FLAG_E), FLAG_E),
        has_flag(with_flag(flags, FLAG_H), FLAG_H),
        !has_flag(without_flag(flags, FLAG_E), FLAG_E),
        !has_flag(without_flag(flags, FLAG_H), FLAG_H),
        has_flag(with_flag(flags, FLAG_E), FLAG_H) == has_flag(flags, FLAG_H),
        has_flag(without_flag(flags, FLAG_E), FLAG_H) == has_flag(flags, FLAG_H),
        has_flag(with_flag(flags, FLAG_H), FLAG_E) == has_flag(flags, FLAG_E),
        has_flag(without_flag(flags, FLAG_H), FLAG_E) == has_flag(flags, FLAG_E),
        !has_flag(0, FLAG_E),
        !has_flag(0, FLAG_H),
{
    assert((flags | 2u16) & 2u16 != 0) by (bit_vector);
    assert((flags | 8u16) & 8u16 != 0) by (bit_vector);
    assert((flags & !2u16) & 2u16 == 0) by (bit_vector);
    assert((flags & !8u16) & 8u16 == 0) by (bit_vector);
    assert((flags | 2u16) & 8u16 == flags & 8u16) by (bit_vector);
    assert((flags & !2u16) & 8u16 == flags & 8u16) by (bit_vector);
    assert((flags | 8u16) & 2u16 == flags & 2u16) by (bit_vector);
    assert((flags & !8u16) & 2u16 == flags & 2u16) by (bit_vector);
    assert(0u16 & 2u16 == 0) by (bit_vector);
    assert(0u16 & 8u16 == 0) by (bit_vector);
}

/// A register that an instruction can name as an operand: one of the four
/// general-purpose registers. The other registers are reached only through
/// what instructions do by themselves.
#[derive(Clone, Copy, Debug, PartialEq, Eq, Structural)]
pub enum Reg {
    Gp1,
    Gp2,
    Gp3,
    Gp4,
}

/// The register that the two low bits of `selector` name.
pub open spec fn reg_of(selector: u8) -> Reg {
    if selector % 4 == 0 {
        Reg::Gp1
    } else if selector % 4 == 1 {
        Reg::Gp2
    } else if selector % 4 == 2 {
        Reg::Gp3
    } else {
        Reg::Gp4
    }
}

impl Reg {
    /// The register that the two low bits of `selector` name; the other bits
    /// are not looked at.
    pub fn from_selector(selector: u8) -> (r: Reg)
        ensures
            r == reg_of(selector),
    {
        let low: u8 = selector % 4;
        if low == 0 {
            Reg::Gp1
        } else if low == 1 {
            Reg::Gp2
        } else if low == 2 {
            Reg::Gp3
        } else {
            Reg::Gp4
        }
    }

    /// The selector, from 0 to 3, that names this register.
    pub open spec fn selector_spec(self) -> u8 {
        match self {
            Reg::Gp1 => 0,
            Reg::Gp2 => 1,
            Reg::Gp3 => 2,
            Reg::Gp4 => 3,
        }
    }

    /// The selector, from 0 to 3, that names this register.
    pub fn selector(self) -> (s: u8)
        ensures
            s == self.selector_spec(),
            reg_of(s) == self,
    {
        match self {
            Reg::Gp1 => 0,
            Reg::Gp2 => 1,
            Reg::Gp3 => 2,
            Reg::Gp4 => 3,
        }
    }
}

/// The registers of one processing unit, each one word wide.
#[derive(Clone, Copy, Debug, PartialEq, Eq, Structural)]
pub struct Registers {
    /// Instruction pointer: the address of the next instruction.
    pub ip: Word,
    /// Stack pointer.
    pub sp: Word,
    /// Base pointer.
    pub bp: Word,
    /// Accumulator.
    pub ac: Word,
    /// General-purpose registers.
    pub gp1: Word,
    pub gp2: Word,
    pub gp3: Word,
    pub gp4: Word,
    /// Flag bits.
    pub flags: Word,
}

impl Registers {
    /// The register file in which every register is zero.
    pub open spec fn zeroed() -> Registers {
        Registers { ip: 0, sp: 0, bp: 0, ac: 0, gp1: 0, gp2: 0, gp3: 0, gp4: 0, flags: 0 }
    }

    /// The value of register `r`.
    pub open spec fn reg(self, r: Reg) -> Word {
        match r {
            Reg::Gp1 => self.gp1,
            Reg::Gp2 => self.gp2,
            Reg::Gp3 => self.gp3,
            Reg::Gp4 => self.gp4,
        }
    }

    /// This register file with `value` in register `r`.
    pub open spec fn with_reg(self, r: Reg, value: Word) -> Registers {
        match r {
            Reg::Gp1 => Registers { gp1: value, ..self },
            Reg::Gp2 => Registers { gp2: value, ..self },
            Reg::Gp3 => Registers { gp3: value, ..self },
            Reg::Gp4 => Registers { gp4: value, ..self },
        }
    }

    /// Whether the halt flag is set.
    pub open spec fn halted(self) -> bool {
        has_flag(self.flags, FLAG_H)
    }

    /// Whether the equal flag is set.
    pub open spec fn equal(self) -> bool {
        has_flag(self.flags, FLAG_E)
    }

    /// A register file in which every register is zero.
    pub fn new() -> (r: Self)
        ensures
            r == Registers::zeroed(),
    {
        Registers { ip: 0, sp: 0, bp: 0, ac: 0, gp1: 0, gp2: 0, gp3: 0, gp4: 0, flags: 0 }
    }

    /// Reads register `r`.
    pub fn get(&self, r: Reg) -> (value: Word)
        ensures
            value == self.reg(r),
    {
        match r {
            Reg::Gp1 => self.gp1,
            Reg::Gp2 => self.gp2,
            Reg::Gp3 => self.gp3,
            Reg::Gp4 => self.gp4,
        }
    }

    /// Writes `value` to register `r` and leaves every other register alone.
    pub fn set(&mut self, r: Reg, value: Word)
        ensures
            *final(self) == old(self).with_reg(r, value),
    {
        match r {
            Reg::Gp1 => { self.gp1 = value; },
            Reg::Gp2 => { self.gp2 = value; },
            Reg::Gp3 => { self.gp3 = value; },
            Reg::Gp4 => { self.gp4 = value; },
        }
    }
}

impl Default for Registers {
    fn default() -> (r: Self)
        ensures
            r == Registers::zeroed(),
    {
        Registers::new()
    }
}

} // verus!
