//! One processing unit: a register file and the fetch-decode-execute step.
//!
//! What a step does is defined once, as a function from the registers and the
//! memory image before the step to those after it. The executable step is
//! proved to compute exactly that function.

use crate::fault::Fault;
use crate::instruction::{decode, decode_spec, instruction_of, Instruction, Opcode};
use crate::memory::{high_byte, in_bounds, low_byte, store_word, word_at, Memory, Word};
use crate::registers::{with_flag, without_flag, Registers, FLAG_E, FLAG_H};
use vstd::prelude::*;

verus! {

/// How a step that did not fault ended.
#[derive(Clone, Copy, Debug, PartialEq, Eq, Structural)]
pub enum StepOutcome {
    /// An instruction was executed and the unit can take another step.
    Continue,
    /// The halt flag is set: the unit takes no further instruction.
    Halted,
    /// A `sys` instruction was executed. The caller performs the call with
    /// this number before the unit takes its next step.
    Syscall(Word),
}

/// The registers and the memory image after a step, and how the step ended.
pub struct Effect {
    pub regs: Registers,
    pub mem: Seq<u8>,
    pub outcome: StepOutcome,
}

/// `a + b` on words, wrapping round on overflow.
pub open spec fn wrap_add(a: Word, b: Word) -> Word {
    ((a as int + b as int) % 0x1_0000) as Word
}

/// `a - b` on words, wrapping round on underflow.
pub open spec fn wrap_sub(a: Word, b: Word) -> Word {
    ((a as int - b as int) % 0x1_0000) as Word
}

/// `a * b` on words, wrapping round on overflow.
pub open spec fn wrap_mul(a: Word, b: Word) -> Word {
    ((a as int * b as int) % 0x1_0000) as Word
}

/// `regs` with the instruction pointer moved on by `width` words.
pub open spec fn advance(regs: Registers, width: Word) -> Registers {
    Registers { ip: wrap_add(regs.ip, width), ..regs }
}

/// `regs` with the equal flag set if `equal` holds and cleared if not; every
/// other flag bit stays.
pub open spec fn with_equal(regs: Registers, equal: bool) -> Registers {
    Registers {
        flags: if equal {
            with_flag(regs.flags, FLAG_E)
        } else {
            without_flag(regs.flags, FLAG_E)
        },
        ..regs
    }
}

/// The instruction that the image `mem` holds at address `ip`, or the fault
/// that fetching it raises: the address of the first word outside memory, an
/// unknown opcode byte, or the address of the operand word outside memory.
pub open spec fn fetch_spec(mem: Seq<u8>, ip: Word) -> Result<Instruction, Fault> {
    if !in_bounds(ip) {
        Err(Fault::OutOfBoundsAccess(ip))
    } else {
        let first = word_at(mem, ip);
        match decode_spec(low_byte(first), ip) {
            Err(fault) => Err(fault),
            Ok(opcode) => if opcode.width_spec() == 1 {
                Ok(instruction_of(opcode, high_byte(first), 0))
            } else if !in_bounds((ip + 1) as Word) {
                Err(Fault::OutOfBoundsAccess((ip + 1) as Word))
            } else {
                Ok(instruction_of(opcode, high_byte(first), word_at(mem, (ip + 1) as Word)))
            },
        }
    }
}

/// What executing `instruction` does to the registers `regs` and to the
/// memory image `mem`, or the fault that it raises. The instruction's own
/// address is `regs.ip`.
pub open spec fn execute_spec(instruction: Instruction, regs: Registers, mem: Seq<u8>) -> Result<
    Effect,
    Fault,
> {
    let width = instruction.opcode_spec().width_spec();
    match instruction {
        Instruction::LoadReg { dest, address } => if in_bounds(address) {
            Ok(
                Effect {
                    regs: advance(regs.with_reg(dest, word_at(mem, address)), width),
                    mem,
                    outcome: StepOutcome::Continue,
                },
            )
        } else {
            Err(Fault::OutOfBoundsAccess(address))
        },
        Instruction::LoadRegAbsolute { dest, value } => Ok(
            Effect {
                regs: advance(regs.with_reg(dest, value), width),
                mem,
                outcome: StepOutcome::Continue,
            },
        ),
        Instruction::StoreReg { src, address } => if in_bounds(address) {
            Ok(
                Effect {
                    regs: advance(regs, width),
                    mem: store_word(mem, address, regs.reg(src)),
                    outcome: StepOutcome::Continue,
                },
            )
        } else {
            Err(Fault::OutOfBoundsAccess(address))
        },
        Instruction::MovReg { src, dest } => Ok(
            Effect {
                regs: advance(regs.with_reg(dest, regs.reg(src)), width),
                mem,
                outcome: StepOutcome::Continue,
            },
        ),
        Instruction::Add { a, b } => Ok(
            Effect {
                regs: advance(regs.with_reg(a, wrap_add(regs.reg(a), regs.reg(b))), width),
                mem,
                outcome: StepOutcome::Continue,
            },
        ),
        Instruction::Sub { a, b } => Ok(
            Effect {
                regs: advance(regs.with_reg(a, wrap_sub(regs.reg(a), regs.reg(b))), width),
                mem,
                outcome: StepOutcome::Continue,
            },
        ),
        Instruction::Mul { a, b } => Ok(
            Effect {
                regs: advance(regs.with_reg(a, wrap_mul(regs.reg(a), regs.reg(b))), width),
                mem,
                outcome: StepOutcome::Continue,
            },
        ),
        Instruction::Div { a, b } => if regs.reg(b) == 0 {
            Err(Fault::DivisionByZero(regs.ip))
        } else {
            Ok(
                Effect {
                    regs: advance(regs.with_reg(a, regs.reg(a) / regs.reg(b)), width),
                    mem,
                    outcome: StepOutcome::Continue,
                },
            )
        },
        Instruction::Cmp { a, b } => Ok(
            Effect {
                regs: advance(with_equal(regs, regs.reg(a) == regs.reg(b)), width),
                mem,
                outcome: StepOutcome::Continue,
            },
        ),
        Instruction::Jmp { address } => Ok(
            Effect { regs: Registers { ip: address, ..regs }, mem, outcome: StepOutcome::Continue },
        ),
        Instruction::Je { address } => Ok(
            Effect {
                regs: if regs.equal() {
                    Registers { ip: address, ..regs }
                } else {
                    advance(regs, width)
                },
                mem,
                outcome: StepOutcome::Continue,
            },
        ),
        Instruction::Jne { address } => Ok(
            Effect {
                regs: if !regs.equal() {
                    Registers { ip: address, ..regs }
                } else {
                    advance(regs, width)
                },
                mem,
                outcome: StepOutcome::Continue,
            },
        ),
        Instruction::Sys { number } => Ok(
            Effect { regs: advance(regs, width), mem, outcome: StepOutcome::Syscall(number) },
        ),
        Instruction::Halt => Ok(
            Effect {
                regs: Registers { flags: with_flag(regs.flags, FLAG_H), ..regs },
                mem,
                outcome: StepOutcome::Halted,
            },
        ),
    }
}

/// One fetch-decode-execute step from the registers `regs` and the memory
/// image `mem`. A halted unit stays as it is and reports `Halted`. Otherwise
/// the instruction at `regs.ip` is fetched and executed.
pub open spec fn step_spec(regs: Registers, mem: Seq<u8>) -> Result<Effect, Fault> {
    if regs.halted() {
        Ok(Effect { regs, mem, outcome: StepOutcome::Halted })
    } else {
        match fetch_spec(mem, regs.ip) {
            Err(fault) => Err(fault),
            Ok(instruction) => execute_spec(instruction, regs, mem),
        }
    }
}

/// Adds two words, wrapping round on overflow.
pub fn add_words(a: Word, b: Word) -> (r: Word)
    ensures
        r == wrap_add(a, b),
{
    a.wrapping_add(b)
}

/// Subtracts `b` from `a`, wrapping round on underflow.
pub fn sub_words(a: Word, b: Word) -> (r: Word)
    ensures
        r == wrap_sub(a, b),
{
    a.wrapping_sub(b)
}

/// Multiplies two words, wrapping round on overflow.
pub fn mul_words(a: Word, b: Word) -> (r: Word)
    ensures
        r == wrap_mul(a, b),
{
    assert(a as nat * b as nat == a as int * b as int) by (nonlinear_arith);
    a.wrapping_mul(b)
}

/// A processing unit. Its view is its register file.
pub struct Cpu {
    num: u8,
    registers: Registers,
}

impl View for Cpu {
    type V = Registers;

    closed spec fn view(&self) -> Registers {
        self.registers
    }
}

impl Cpu {
    /// The number that identifies this unit.
    pub closed spec fn id_spec(&self) -> u8 {
        self.num
    }

    /// A unit with the number `num` and every register zero.
    pub fn new(num: u8) -> (cpu: Self)
        ensures
            cpu.id_spec() == num,
            cpu@ == Registers::zeroed(),
    {
        Self { num, registers: Registers::new() }
    }

    /// The number that identifies this unit.
    pub fn id(&self) -> (num: u8)
        ensures
            num == self.id_spec(),
    {
        self.num
    }

    /// Sets every bit of `flag` in the flags register.
    pub fn set_flag(&mut self, flag: Word)
        ensures
            final(self)@ == (Registers { flags: with_flag(old(self)@.flags, flag), ..old(self)@ }),
            final(self).id_spec() == old(self).id_spec(),
    {
        self.registers.flags = self.registers.flags | flag;
    }

    /// Clears every bit of `flag` in the flags register.
    pub fn clear_flag(&mut self, flag: Word)
        ensures
            final(self)@ == (Registers {
                flags: without_flag(old(self)@.flags, flag),
                ..old(self)@
            }),
            final(self).id_spec() == old(self).id_spec(),
    {
        self.registers.flags = self.registers.flags & !flag;
    }

    /// Whether the halt flag is set.
    pub fn is_halt(&self) -> (halted: bool)
        ensures
            halted == self@.halted(),
    {
        self.registers.flags & FLAG_H != 0
    }

    /// Whether the equal flag is set.
    pub fn is_equal(&self) -> (equal: bool)
        ensures
            equal == self@.equal(),
    {
        self.registers.flags & FLAG_E != 0
    }

    /// A copy of the register file as it stands.
    pub fn dump(&self) -> (regs: Registers)
        ensures
            regs == self@,
    {
        self.registers
    }

    /// Fetches and decodes the instruction at the instruction pointer.
    pub fn fetch(&self, memory: &Memory) -> (r: Result<Instruction, Fault>)
        ensures
            r == fetch_spec(memory@, self@.ip),
    {
        let ip: Word = self.registers.ip;
        let first: Word = match memory.read(ip) {
            Ok(word) => word,
            Err(fault) => { return Err(fault); },
        };
        let opcode_byte: u8 = (first % 256) as u8;
        let operand_byte: u8 = (first / 256) as u8;
        let opcode: Opcode = match decode(opcode_byte, ip) {
            Ok(opcode) => opcode,
            Err(fault) => { return Err(fault); },
        };
        if opcode.width() == 1 {
            return Ok(Instruction::assemble(opcode, operand_byte, 0));
        }
        let operand_word: Word = match memory.read(ip + 1) {
            Ok(word) => word,
            Err(fault) => { return Err(fault); },
        };
        Ok(Instruction::assemble(opcode, operand_byte, operand_word))
    }

    /// Moves the instruction pointer on by `width` words.
    fn advance_ip(&mut self, width: Word)
        ensures
            final(self)@ == advance(old(self)@, width),
            final(self).num == old(self).num,
    {
        self.registers.ip = add_words(self.registers.ip, width);
    }

    /// Executes `instruction`, which was fetched from the address in the
    /// instruction pointer. On a fault neither the registers nor memory
    /// change.
    pub fn execute(&mut self, instruction: Instruction, memory: &mut Memory) -> (r: Result<
        StepOutcome,
        Fault,
    >)
        ensures
            final(self).id_spec() == old(self).id_spec(),
            match execute_spec(instruction, old(self)@, old(memory)@) {
                Ok(effect) => r == Ok::<StepOutcome, Fault>(effect.outcome) && final(self)@
                    == effect.regs && final(memory)@ == effect.mem,
                Err(fault) => r == Err::<StepOutcome, Fault>(fault) && final(self)@ == old(self)@
                    && final(memory)@ == old(memory)@,
            },
    {
        let width: Word = instruction.opcode().width();
        match instruction {
            Instruction::LoadReg { dest, address } => {
                let value: Word = match memory.read(address) {
                    Ok(word) => word,
                    Err(fault) => { return Err(fault); },
                };
                self.registers.set(dest, value);
                self.advance_ip(width);
                Ok(StepOutcome::Continue)
            },
            Instruction::LoadRegAbsolute { dest, value } => {
                self.registers.set(dest, value);
                self.advance_ip(width);
                Ok(StepOutcome::Continue)
            },
            Instruction::StoreReg { src, address } => {
                let value: Word = self.registers.get(src);
                match memory.write(address, value) {
                    Ok(()) => {},
                    Err(fault) => { return Err(fault); },
                }
                self.advance_ip(width);
                Ok(StepOutcome::Continue)
            },
            Instruction::MovReg { src, dest } => {
                let value: Word = self.registers.get(src);
                self.registers.set(dest, value);
                self.advance_ip(width);
                Ok(StepOutcome::Continue)
            },
            Instruction::Add { a, b } => {
                let value: Word = add_words(self.registers.get(a), self.registers.get(b));
                self.registers.set(a, value);
                self.advance_ip(width);
                Ok(StepOutcome::Continue)
            },
            Instruction::Sub { a, b } => {
                let value: Word = sub_words(self.registers.get(a), self.registers.get(b));
                self.registers.set(a, value);
                self.advance_ip(width);
                Ok(StepOutcome::Continue)
            },
            Instruction::Mul { a, b } => {
                let value: Word = mul_words(self.registers.get(a), self.registers.get(b));
                self.registers.set(a, value);
                self.advance_ip(width);
                Ok(StepOutcome::Continue)
            },
            Instruction::Div { a, b } => {
                let divisor: Word = self.registers.get(b);
                if divisor == 0 {
                    return Err(Fault::DivisionByZero(self.registers.ip));
                }
                let value: Word = self.registers.get(a) / divisor;
                self.registers.set(a, value);
                self.advance_ip(width);
                Ok(StepOutcome::Continue)
            },
            Instruction::Cmp { a, b } => {
                if self.registers.get(a) == self.registers.get(b) {
                    self.set_flag(FLAG_E);
                } else {
                    self.clear_flag(FLAG_E);
                }
                self.advance_ip(width);
                Ok(StepOutcome::Continue)
            },
            Instruction::Jmp { address } => {
                self.registers.ip = address;
                Ok(StepOutcome::Continue)
            },
            Instruction::Je { address } => {
                if self.is_equal() {
                    self.registers.ip = address;
                } else {
                    self.advance_ip(width);
                }
                Ok(StepOutcome::Continue)
            },
            Instruction::Jne { address } => {
                if !self.is_equal() {
                    self.registers.ip = address;
                } else {
                    self.advance_ip(width);
                }
                Ok(StepOutcome::Continue)
            },
            Instruction::Sys { number } => {
                self.advance_ip(width);
                Ok(StepOutcome::Syscall(number))
            },
            Instruction::Halt => {
                self.set_flag(FLAG_H);
                Ok(StepOutcome::Halted)
            },
        }
    }

    /// Takes one fetch-decode-execute step. A halted unit does nothing and
    /// reports `Halted`. On a fault neither the registers nor memory change.
    pub fn step(&mut self, memory: &mut Memory) -> (r: Result<StepOutcome, Fault>)
        ensures
            final(self).id_spec() == old(self).id_spec(),
            match step_spec(old(self)@, old(memory)@) {
                Ok(effect) => r == Ok::<StepOutcome, Fault>(effect.outcome) && final(self)@
                    == effect.regs && final(memory)@ == effect.mem,
                Err(fault) => r == Err::<StepOutcome, Fault>(fault) && final(self)@ == old(self)@
                    && final(memory)@ == old(memory)@,
            },
    {
        if self.is_halt() {
            return Ok(StepOutcome::Halted);
        }
        let instruction: Instruction = match self.fetch(memory) {
            Ok(instruction) => instruction,
            Err(fault) => { return Err(fault); },
        };
        self.execute(instruction, memory)
    }
}

} // verus!
