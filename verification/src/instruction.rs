//! The instruction set and its binary encoding.
//!
//! An instruction is one or two consecutive words. The low byte of the first
//! word is the opcode; its high byte is the operand byte. The opcode alone
//! decides whether a second word, the operand word, follows.
//!
//! The operand byte holds up to two register selectors: the first in the two
//! low bits of its high nibble, the second in the two low bits of its low
//! nibble. The other bits of the operand byte are not looked at. An opcode
//! that names fewer registers does not look at the selectors left over.
//!
//! | opcode | mnemonic | operand byte | operand word | effect                        |
//! |--------|----------|--------------|--------------|-------------------------------|
//! | 0x01   | lrm      | dest         | address      | dest = memory[address]        |
//! | 0x02   | lra      | dest         | value        | dest = value                  |
//! | 0x03   | srm      | src          | address      | memory[address] = src         |
//! | 0x04   | mvr      | src, dest    |              | dest = src                    |
//! | 0x05   | add      | a, b         |              | a = a + b, wrapping           |
//! | 0x06   | sub      | a, b         |              | a = a - b, wrapping           |
//! | 0x07   | mul      | a, b         |              | a = a * b, wrapping           |
//! | 0x08   | div      | a, b         |              | a = a / b; b = 0 is a fault   |
//! | 0x09   | cmp      | a, b         |              | equal flag = (a == b)         |
//! | 0x0A   | jmp      |              | address      | ip = address                  |
//! | 0x0B   | je       |              | address      | ip = address if equal flag    |
//! | 0x0C   | jne      |              | address      | ip = address if no equal flag |
//! | 0x0D   | sys      |              | call number  | hands the call number out     |
//! | 0x0E   | hlt      |              |              | sets the halt flag            |
//!
//! The call number of `sys` is an immediate operand: it is read from the
//! operand word, never from a register.

use crate::fault::Fault;
use crate::memory::Word;
use crate::registers::{reg_of, Reg};
use vstd::prelude::*;

verus! {

/// What an instruction does, without its operands.
#[derive(Clone, Copy, Debug, PartialEq, Eq, Structural)]
pub enum Opcode {
    LoadReg,
    LoadRegAbsolute,
    StoreReg,
    MovReg,
    Add,
    Sub,
    Mul,
    Div,
    Cmp,
    Jmp,
    Je,
    Jne,
    Sys,
    Halt,
}

/// The opcode that `byte` encodes, if it encodes one.
pub open spec fn opcode_of(byte: u8) -> Option<Opcode> {
    if byte == 0x01 {
        Some(Opcode::LoadReg)
    } else if byte == 0x02 {
        Some(Opcode::LoadRegAbsolute)
    } else if byte == 0x03 {
        Some(Opcode::StoreReg)
    } else if byte == 0x04 {
        Some(Opcode::MovReg)
    } else if byte == 0x05 {
        Some(Opcode::Add)
    } else if byte == 0x06 {
        Some(Opcode::Sub)
    } else if byte == 0x07 {
        Some(Opcode::Mul)
    } else if byte == 0x08 {
        Some(Opcode::Div)
    } else if byte == 0x09 {
        Some(Opcode::Cmp)
    } else if byte == 0x0A {
        Some(Opcode::Jmp)
    } else if byte == 0x0B {
        Some(Opcode::Je)
    } else if byte == 0x0C {
        Some(Opcode::Jne)
    } else if byte == 0x0D {
        Some(Opcode::Sys)
    } else if byte == 0x0E {
        Some(Opcode::Halt)
    } else {
        None
    }
}

impl Opcode {
    /// The byte that encodes this opcode.
    pub open spec fn code_spec(self) -> u8 {
        match self {
            Opcode::LoadReg => 0x01,
            Opcode::LoadRegAbsolute => 0x02,
            Opcode::StoreReg => 0x03,
            Opcode::MovReg => 0x04,
            Opcode::Add => 0x05,
            Opcode::Sub => 0x06,
            Opcode::Mul => 0x07,
            Opcode::Div => 0x08,
            Opcode::Cmp => 0x09,
            Opcode::Jmp => 0x0A,
            Opcode::Je => 0x0B,
            Opcode::Jne => 0x0C,
            Opcode::Sys => 0x0D,
            Opcode::Halt => 0x0E,
        }
    }

    /// How many words an instruction with this opcode occupies: two where an
    /// operand word follows the first word, else one.
    pub open spec fn width_spec(self) -> Word {
        match self {
            Opcode::LoadReg
            | Opcode::LoadRegAbsolute
            | Opcode::StoreReg
            | Opcode::Jmp
            | Opcode::Je
            | Opcode::Jne
            | Opcode::Sys => 2,
            _ => 1,
        }
    }

    /// How many operands this opcode takes.
    pub open spec fn operand_count_spec(self) -> u8 {
        match self {
            Opcode::LoadReg
            | Opcode::LoadRegAbsolute
            | Opcode::StoreReg
            | Opcode::MovReg
            | Opcode::Add
            | Opcode::Sub
            | Opcode::Mul
            | Opcode::Div
            | Opcode::Cmp => 2,
            Opcode::Jmp | Opcode::Je | Opcode::Jne | Opcode::Sys => 1,
            Opcode::Halt => 0,
        }
    }

    /// The mnemonic of this opcode.
    pub open spec fn name_spec(self) -> Seq<char> {
        match self {
            Opcode::LoadReg => "lrm"@,
            Opcode::LoadRegAbsolute => "lra"@,
            Opcode::StoreReg => "srm"@,
            Opcode::MovReg => "mvr"@,
            Opcode::Add => "add"@,
            Opcode::Sub => "sub"@,
            Opcode::Mul => "mul"@,
            Opcode::Div => "div"@,
            Opcode::Cmp => "cmp"@,
            Opcode::Jmp => "jmp"@,
            Opcode::Je => "je"@,
            Opcode::Jne => "jne"@,
            Opcode::Sys => "sys"@,
            Opcode::Halt => "hlt"@,
        }
    }

    /// A short description of this opcode.
    pub open spec fn desc_spec(self) -> Seq<char> {
        match self {
            Opcode::LoadReg => "load a register from a memory location"@,
            Opcode::LoadRegAbsolute => "load a register with an absolute (integer) value"@,
            Opcode::StoreReg => "store a register value to a memory location"@,
            Opcode::MovReg => "move a value from one register to another"@,
            Opcode::Add => "add values in two registers together"@,
            Opcode::Sub => "subtract values in two registers together"@,
            Opcode::Mul => "multiply values in two registers together"@,
            Opcode::Div => "divide values in two registers together"@,
            Opcode::Cmp =>
                "compare values in two registers together, setting 'E' flag to 1 in FLAGS if the values are equal"@,
            Opcode::Jmp => "unconditional jump to memory address"@,
            Opcode::Je => "jump to memory address if 'E' flag in FLAGS is 1"@,
            Opcode::Jne => "jump to memory address if 'E' flag in FLAGS is 0"@,
            Opcode::Sys => "make system call"@,
            Opcode::Halt => "halt execution"@,
        }
    }

    /// Decodes an opcode byte. A byte that encodes no opcode gives `None`.
    pub fn from_byte(byte: u8) -> (r: Option<Opcode>)
        ensures
            r == opcode_of(byte),
    {
        match byte {
            0x01 => Some(Opcode::LoadReg),
            0x02 => Some(Opcode::LoadRegAbsolute),
            0x03 => Some(Opcode::StoreReg),
            0x04 => Some(Opcode::MovReg),
            0x05 => Some(Opcode::Add),
            0x06 => Some(Opcode::Sub),
            0x07 => Some(Opcode::Mul),
            0x08 => Some(Opcode::Div),
            0x09 => Some(Opcode::Cmp),
            0x0A => Some(Opcode::Jmp),
            0x0B => Some(Opcode::Je),
            0x0C => Some(Opcode::Jne),
            0x0D => Some(Opcode::Sys),
            0x0E => Some(Opcode::Halt),
            _ => None,
        }
    }

    /// The byte that encodes this opcode.
    pub fn code(self) -> (byte: u8)
        ensures
            byte == self.code_spec(),
    {
        match self {
            Opcode::LoadReg => 0x01,
            Opcode::LoadRegAbsolute => 0x02,
            Opcode::StoreReg => 0x03,
            Opcode::MovReg => 0x04,
            Opcode::Add => 0x05,
            Opcode::Sub => 0x06,
            Opcode::Mul => 0x07,
            Opcode::Div => 0x08,
            Opcode::Cmp => 0x09,
            Opcode::Jmp => 0x0A,
            Opcode::Je => 0x0B,
            Opcode::Jne => 0x0C,
            Opcode::Sys => 0x0D,
            Opcode::Halt => 0x0E,
        }
    }

    /// How many words an instruction with this opcode occupies.
    pub fn width(self) -> (w: Word)
        ensures
            w == self.width_spec(),
    {
        match self {
            Opcode::LoadReg
            | Opcode::LoadRegAbsolute
            | Opcode::StoreReg
            | Opcode::Jmp
            | Opcode::Je
            | Opcode::Jne
            | Opcode::Sys => 2,
            _ => 1,
        }
    }

    /// How many operands this opcode takes.
    pub fn operand_count(self) -> (n: u8)
        ensures
            n == self.operand_count_spec(),
    {
        match self {
            Opcode::Halt => 0,
            Opcode::Jmp | Opcode::Je | Opcode::Jne | Opcode::Sys => 1,
            _ => 2,
        }
    }

    /// The mnemonic of this opcode.
    pub fn name(self) -> (s: &'static str)
        ensures
            s@ == self.name_spec(),
    {
        match self {
            Opcode::LoadReg => "lrm",
            Opcode::LoadRegAbsolute => "lra",
            Opcode::StoreReg => "srm",
            Opcode::MovReg => "mvr",
            Opcode::Add => "add",
            Opcode::Sub => "sub",
            Opcode::Mul => "mul",
            Opcode::Div => "div",
            Opcode::Cmp => "cmp",
            Opcode::Jmp => "jmp",
            Opcode::Je => "je",
            Opcode::Jne => "jne",
            Opcode::Sys => "sys",
            Opcode::Halt => "hlt",
        }
    }

    /// A short description of this opcode.
    pub fn desc(self) -> (s: &'static str)
        ensures
            s@ == self.desc_spec(),
    {
        match self {
            Opcode::LoadReg => "load a register from a memory location",
            Opcode::LoadRegAbsolute => "load a register with an absolute (integer) value",
            Opcode::StoreReg => "store a register value to a memory location",
            Opcode::MovReg => "move a value from one register to another",
            Opcode::Add => "add values in two registers together",
            Opcode::Sub => "subtract values in two registers together",
            Opcode::Mul => "multiply values in two registers together",
            Opcode::Div => "divide values in two registers together",
            Opcode::Cmp =>
                "compare values in two registers together, setting 'E' flag to 1 in FLAGS if the values are equal",
            Opcode::Jmp => "unconditional jump to memory address",
            Opcode::Je => "jump to memory address if 'E' flag in FLAGS is 1",
            Opcode::Jne => "jump to memory address if 'E' flag in FLAGS is 0",
            Opcode::Sys => "make system call",
            Opcode::Halt => "halt execution",
        }
    }
}

/// A decoded instruction: an opcode together with its operands.
#[derive(Clone, Copy, Debug, PartialEq, Eq, Structural)]
pub enum Instruction {
    LoadReg { dest: Reg, address: Word },
    LoadRegAbsolute { dest: Reg, value: Word },
    StoreReg { src: Reg, address: Word },
    MovReg { src: Reg, dest: Reg },
    Add { a: Reg, b: Reg },
    Sub { a: Reg, b: Reg },
    Mul { a: Reg, b: Reg },
    Div { a: Reg, b: Reg },
    Cmp { a: Reg, b: Reg },
    Jmp { address: Word },
    Je { address: Word },
    Jne { address: Word },
    Sys { number: Word },
    Halt,
}

/// The first register selector in an operand byte.
pub open spec fn first_selector(operand_byte: u8) -> u8 {
    operand_byte / 16
}

/// The second register selector in an operand byte.
pub open spec fn second_selector(operand_byte: u8) -> u8 {
    operand_byte % 16
}

/// The instruction made of `opcode`, the registers that `operand_byte` names
/// and `operand_word`. Operands that the opcode does not take are dropped.
pub open spec fn instruction_of(opcode: Opcode, operand_byte: u8, operand_word: Word)
    -> Instruction {
    let first = reg_of(first_selector(operand_byte));
    let second = reg_of(second_selector(operand_byte));
    match opcode {
        Opcode::LoadReg => Instruction::LoadReg { dest: first, address: operand_word },
        Opcode::LoadRegAbsolute => Instruction::LoadRegAbsolute {
            dest: first,
            value: operand_word,
        },
        Opcode::StoreReg => Instruction::StoreReg { src: first, address: operand_word },
        Opcode::MovReg => Instruction::MovReg { src: first, dest: second },
        Opcode::Add => Instruction::Add { a: first, b: second },
        Opcode::Sub => Instruction::Sub { a: first, b: second },
        Opcode::Mul => Instruction::Mul { a: first, b: second },
        Opcode::Div => Instruction::Div { a: first, b: second },
        Opcode::Cmp => Instruction::Cmp { a: first, b: second },
        Opcode::Jmp => Instruction::Jmp { address: operand_word },
        Opcode::Je => Instruction::Je { address: operand_word },
        Opcode::Jne => Instruction::Jne { address: operand_word },
        Opcode::Sys => Instruction::Sys { number: operand_word },
        Opcode::Halt => Instruction::Halt,
    }
}

/// What decoding the opcode byte `byte`, fetched from `address`, gives: the
/// opcode, or the fault that reports the byte and where it was found.
pub open spec fn decode_spec(byte: u8, address: Word) -> Result<Opcode, Fault> {
    match opcode_of(byte) {
        Some(opcode) => Ok(opcode),
        None => Err(Fault::UnknownOpcode(byte, address)),
    }
}

/// Decodes the opcode byte `byte`, fetched from `address`. Every byte gives
/// either its opcode or an `UnknownOpcode` fault.
pub fn decode(byte: u8, address: Word) -> (r: Result<Opcode, Fault>)
    ensures
        r == decode_spec(byte, address),
{
    match Opcode::from_byte(byte) {
        Some(opcode) => Ok(opcode),
        None => Err(Fault::UnknownOpcode(byte, address)),
    }
}

impl Instruction {
    /// The opcode of this instruction.
    pub open spec fn opcode_spec(self) -> Opcode {
        match self {
            Instruction::LoadReg { .. } => Opcode::LoadReg,
            Instruction::LoadRegAbsolute { .. } => Opcode::LoadRegAbsolute,
            Instruction::StoreReg { .. } => Opcode::StoreReg,
            Instruction::MovReg { .. } => Opcode::MovReg,
            Instruction::Add { .. } => Opcode::Add,
            Instruction::Sub { .. } => Opcode::Sub,
            Instruction::Mul { .. } => Opcode::Mul,
            Instruction::Div { .. } => Opcode::Div,
            Instruction::Cmp { .. } => Opcode::Cmp,
            Instruction::Jmp { .. } => Opcode::Jmp,
            Instruction::Je { .. } => Opcode::Je,
            Instruction::Jne { .. } => Opcode::Jne,
            Instruction::Sys { .. } => Opcode::Sys,
            Instruction::Halt => Opcode::Halt,
        }
    }

    /// The opcode of this instruction.
    pub fn opcode(self) -> (opcode: Opcode)
        ensures
            opcode == self.opcode_spec(),
    {
        match self {
            Instruction::LoadReg { .. } => Opcode::LoadReg,
            Instruction::LoadRegAbsolute { .. } => Opcode::LoadRegAbsolute,
            Instruction::StoreReg { .. } => Opcode::StoreReg,
            Instruction::MovReg { .. } => Opcode::MovReg,
            Instruction::Add { .. } => Opcode::Add,
            Instruction::Sub { .. } => Opcode::Sub,
            Instruction::Mul { .. } => Opcode::Mul,
            Instruction::Div { .. } => Opcode::Div,
            Instruction::Cmp { .. } => Opcode::Cmp,
            Instruction::Jmp { .. } => Opcode::Jmp,
            Instruction::Je { .. } => Opcode::Je,
            Instruction::Jne { .. } => Opcode::Jne,
            Instruction::Sys { .. } => Opcode::Sys,
            Instruction::Halt => Opcode::Halt,
        }
    }

    /// Puts an instruction together from its opcode, the operand byte and the
    /// operand word. For an opcode of width one the operand word is not
    /// looked at.
    pub fn assemble(opcode: Opcode, operand_byte: u8, operand_word: Word) -> (i: Instruction)
        ensures
            i == instruction_of(opcode, operand_byte, operand_word),
            i.opcode_spec() == opcode,
    {
        let first = Reg::from_selector(operand_byte / 16);
        let second = Reg::from_selector(operand_byte % 16);
        match opcode {
            Opcode::LoadReg => Instruction::LoadReg { dest: first, address: operand_word },
            Opcode::LoadRegAbsolute => Instruction::LoadRegAbsolute {
                dest: first,
                value: operand_word,
            },
            Opcode::StoreReg => Instruction::StoreReg { src: first, address: operand_word },
            Opcode::MovReg => Instruction::MovReg { src: first, dest: second },
            Opcode::Add => Instruction::Add { a: first, b: second },
            Opcode::Sub => Instruction::Sub { a: first, b: second },
            Opcode::Mul => Instruction::Mul { a: first, b: second },
            Opcode::Div => Instruction::Div { a: first, b: second },
            Opcode::Cmp => Instruction::Cmp { a: first, b: second },
            Opcode::Jmp => Instruction::Jmp { address: operand_word },
            Opcode::Je => Instruction::Je { address: operand_word },
            Opcode::Jne => Instruction::Jne { address: operand_word },
            Opcode::Sys => Instruction::Sys { number: operand_word },
            Opcode::Halt => Instruction::Halt,
        }
    }
}

/// Decoding is total and exact: a byte from 0x01 to 0x0E gives the one
/// opcode whose code it is, and every other byte gives the fault that names
/// the byte and the address.
pub proof fn lemma_decode_total(byte: u8, address: Word)
    ensures
        0x01 <= byte <= 0x0E ==> decode_spec(byte, address) is Ok && decode_spec(
            byte,
            address,
        )->Ok_0.code_spec() == byte,
        !(0x01 <= byte <= 0x0E) ==> decode_spec(byte, address) == Err::<Opcode, Fault>(
            Fault::UnknownOpcode(byte, address),
        ),
{
}

/// Every opcode is the decoding of its own code, and of no other byte.
pub proof fn lemma_opcode_code(opcode: Opcode, byte: u8)
    ensures
        opcode_of(opcode.code_spec()) == Some(opcode),
        opcode_of(byte) == Some(opcode) ==> byte == opcode.code_spec(),
{
}

/// An instruction put together from an opcode has that opcode, whatever the
/// operand byte and operand word hold, and it occupies one word more than it
/// has operand words.
pub proof fn lemma_instruction_shape(opcode: Opcode, operand_byte: u8, operand_word: Word)
    ensures
        instruction_of(opcode, operand_byte, operand_word).opcode_spec() == opcode,
        1 <= opcode.width_spec() <= 2,
        opcode.operand_count_spec() <= 2,
{
}

} // verus!
