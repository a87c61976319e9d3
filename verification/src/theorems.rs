//! What holds of every step: theorems about the step function, proved from
//! its definition.

use crate::cpu::{
    execute_spec, fetch_spec, step_spec, wrap_add, wrap_mul, wrap_sub, Effect, StepOutcome,
};
use crate::fault::Fault;
use crate::instruction::{opcode_of, Instruction};
use crate::machine::{first_running, lemma_first_running, run_spec, RunEffect, RunOutcome};
use crate::memory::{in_bounds, low_byte, store_word, word_at, Word, MEM_SIZE, MEM_WORDS};
use crate::registers::{lemma_flag_bits, Reg, Registers};
use vstd::prelude::*;

verus! {

/// The addresses inside memory are exactly those up to `MEM_WORDS - 1`: the
/// last word can be read and written, the address one past it cannot.
pub proof fn lemma_memory_bounds(addr: Word)
    ensures
        in_bounds(addr) <==> addr <= MEM_WORDS - 1,
        in_bounds((MEM_WORDS - 1) as Word),
        !in_bounds(MEM_WORDS as Word),
{
}

/// A word that was stored is read back, every other word is as it was, and
/// the image keeps its length.
pub proof fn lemma_store_then_read(mem: Seq<u8>, addr: Word, value: Word, other: Word)
    requires
        mem.len() == MEM_SIZE,
        in_bounds(addr),
        in_bounds(other),
    ensures
        store_word(mem, addr, value).len() == MEM_SIZE,
        word_at(store_word(mem, addr, value), addr) == value,
        other != addr ==> word_at(store_word(mem, addr, value), other) == word_at(mem, other),
{
}

/// Where the opcode byte at `ip` is known and the whole instruction lies
/// inside memory, the fetch gives an instruction with exactly that opcode.
/// Where the byte is not known, the fetch gives the fault that names it.
pub proof fn lemma_fetch_decodes(mem: Seq<u8>, ip: Word)
    requires
        in_bounds(ip),
    ensures
        opcode_of(low_byte(word_at(mem, ip))) is None ==> fetch_spec(mem, ip) == Err::<
            Instruction,
            Fault,
        >(Fault::UnknownOpcode(low_byte(word_at(mem, ip)), ip)),
        opcode_of(low_byte(word_at(mem, ip))) matches Some(opcode) ==> {
            if opcode.width_spec() == 2 && !in_bounds((ip + 1) as Word) {
                fetch_spec(mem, ip) == Err::<Instruction, Fault>(
                    Fault::OutOfBoundsAccess((ip + 1) as Word),
                )
            } else {
                fetch_spec(mem, ip) is Ok && fetch_spec(mem, ip)->Ok_0.opcode_spec() == opcode
            }
        },
{
}

/// A comparison never faults and changes no register that an instruction can
/// name, whichever registers it compares and whatever they hold, also where
/// both operands are the same register. It changes nothing but the equal flag
/// and the instruction pointer: the flag tells whether the operands were
/// equal, and the halt flag, the other registers and memory stay.
pub proof fn lemma_compare_changes_flags_only(regs: Registers, mem: Seq<u8>, a: Reg, b: Reg)
    ensures
        execute_spec(Instruction::Cmp { a, b }, regs, mem) matches Ok(effect) && {
            &&& forall|r: Reg| effect.regs.reg(r) == regs.reg(r)
            &&& effect.regs.sp == regs.sp
            &&& effect.regs.bp == regs.bp
            &&& effect.regs.ac == regs.ac
            &&& effect.regs.ip == wrap_add(regs.ip, 1)
            &&& effect.regs.equal() == (regs.reg(a) == regs.reg(b))
            &&& effect.regs.halted() == regs.halted()
            &&& effect.mem == mem
            &&& effect.outcome == StepOutcome::Continue
        },
{
    lemma_flag_bits(regs.flags);
}

/// Wrapping arithmetic gives the exact result where it fits into a word.
/// Where it does not, a sum is 65536 too large and a difference 65536 too
/// small, and a product is replaced by its remainder on division by 65536.
pub proof fn lemma_wrapping(x: Word, y: Word)
    ensures
        wrap_add(x, y) == if x + y > Word::MAX {
            x + y - 0x1_0000
        } else {
            x + y
        },
        wrap_sub(x, y) == if x - y < 0 {
            x - y + 0x1_0000
        } else {
            x - y
        },
        wrap_mul(x, y) == (x * y) % 0x1_0000,
        x * y <= Word::MAX ==> wrap_mul(x, y) == x * y,
{
    let product: int = x * y;
    assert(0 <= product) by (nonlinear_arith)
        requires
            product == x * y,
            0 <= x,
            0 <= y,
    ;
    assert(0 <= product % 0x1_0000 < 0x1_0000);
}

/// Addition, subtraction and multiplication never fault: the first operand
/// register receives the wrapped sum, difference or product, and memory
/// stays as it is.
pub proof fn lemma_arithmetic_never_faults(regs: Registers, mem: Seq<u8>, a: Reg, b: Reg)
    ensures
        execute_spec(Instruction::Add { a, b }, regs, mem) matches Ok(effect)
            && effect.regs.reg(a) == wrap_add(regs.reg(a), regs.reg(b)) && effect.mem == mem,
        execute_spec(Instruction::Sub { a, b }, regs, mem) matches Ok(effect)
            && effect.regs.reg(a) == wrap_sub(regs.reg(a), regs.reg(b)) && effect.mem == mem,
        execute_spec(Instruction::Mul { a, b }, regs, mem) matches Ok(effect)
            && effect.regs.reg(a) == wrap_mul(regs.reg(a), regs.reg(b)) && effect.mem == mem,
{
}

/// Division by zero is a fault that names the address of the instruction,
/// whatever the dividend; a step that meets it faults in the same way.
pub proof fn lemma_divide_by_zero(regs: Registers, mem: Seq<u8>, a: Reg, b: Reg)
    requires
        regs.reg(b) == 0,
    ensures
        execute_spec(Instruction::Div { a, b }, regs, mem) == Err::<Effect, Fault>(
            Fault::DivisionByZero(regs.ip),
        ),
        !regs.halted() && fetch_spec(mem, regs.ip) == Ok::<Instruction, Fault>(
            Instruction::Div { a, b },
        ) ==> step_spec(regs, mem) == Err::<Effect, Fault>(Fault::DivisionByZero(regs.ip)),
{
}

/// Division by a divisor other than zero never faults and gives the
/// quotient, rounded down.
pub proof fn lemma_divide(regs: Registers, mem: Seq<u8>, a: Reg, b: Reg)
    requires
        regs.reg(b) != 0,
    ensures
        execute_spec(Instruction::Div { a, b }, regs, mem) matches Ok(effect)
            && effect.regs.reg(a) == regs.reg(a) / regs.reg(b) && effect.mem == mem,
{
}

/// Once the halt instruction has been executed the unit is halted, and every
/// later step leaves registers and memory as they are and reports `Halted`.
pub proof fn lemma_halt_is_final(regs: Registers, mem: Seq<u8>)
    ensures
        execute_spec(Instruction::Halt, regs, mem) matches Ok(effect) && {
            &&& effect.regs.halted()
            &&& effect.outcome == StepOutcome::Halted
            &&& effect.mem == mem
            &&& effect.regs.ip == regs.ip
            &&& step_spec(effect.regs, effect.mem) == Ok::<Effect, Fault>(
                Effect { regs: effect.regs, mem: effect.mem, outcome: StepOutcome::Halted },
            )
        },
        regs.halted() ==> step_spec(regs, mem) == Ok::<Effect, Fault>(
            Effect { regs, mem, outcome: StepOutcome::Halted },
        ),
{
    lemma_flag_bits(regs.flags);
}

/// After any instruction but a jump or a halt, the instruction pointer has
/// moved on by the width of that instruction. A conditional jump that is not
/// taken moves it on in the same way, and a jump that is taken puts the
/// target in it.
pub proof fn lemma_ip_follows_width(instruction: Instruction, regs: Registers, mem: Seq<u8>)
    requires
        execute_spec(instruction, regs, mem) is Ok,
    ensures
        ({
            let after = execute_spec(instruction, regs, mem)->Ok_0.regs;
            let next = wrap_add(regs.ip, instruction.opcode_spec().width_spec());
            match instruction {
                Instruction::Jmp { address } => after.ip == address,
                Instruction::Je { address } => after.ip == if regs.equal() {
                    address
                } else {
                    next
                },
                Instruction::Jne { address } => after.ip == if regs.equal() {
                    next
                } else {
                    address
                },
                Instruction::Halt => after.ip == regs.ip,
                _ => after.ip == next,
            }
        }),
        in_bounds(regs.ip) ==> wrap_add(regs.ip, instruction.opcode_spec().width_spec())
            == regs.ip + instruction.opcode_spec().width_spec(),
{
}

/// No instruction touches the stack pointer, the base pointer or the
/// accumulator, and only a store changes memory.
pub proof fn lemma_untouched_state(instruction: Instruction, regs: Registers, mem: Seq<u8>)
    requires
        execute_spec(instruction, regs, mem) is Ok,
    ensures
        ({
            let effect = execute_spec(instruction, regs, mem)->Ok_0;
            &&& effect.regs.sp == regs.sp
            &&& effect.regs.bp == regs.bp
            &&& effect.regs.ac == regs.ac
            &&& !(instruction is StoreReg) ==> effect.mem == mem
        }),
{
}

/// A machine in which every unit has halted is at rest: a run changes
/// nothing and reports `Halted`, however many steps it may take.
pub proof fn lemma_run_at_rest(ids: Seq<u8>, regs: Seq<Registers>, mem: Seq<u8>, steps: nat)
    requires
        forall|i: int| 0 <= i < regs.len() ==> regs[i].halted(),
    ensures
        run_spec(ids, regs, mem, steps) == (RunEffect { regs, mem, outcome: RunOutcome::Halted }),
{
    lemma_first_running(regs, 0);
}

/// A run without a budget takes no step: it reports `Halted` where every
/// unit has halted and `OutOfSteps` where one has not, and changes nothing.
pub proof fn lemma_run_without_steps(ids: Seq<u8>, regs: Seq<Registers>, mem: Seq<u8>)
    ensures
        run_spec(ids, regs, mem, 0).regs == regs,
        run_spec(ids, regs, mem, 0).mem == mem,
        run_spec(ids, regs, mem, 0).outcome == if first_running(regs, 0) >= regs.len() {
            RunOutcome::Halted
        } else {
            RunOutcome::OutOfSteps
        },
{
}

/// A run keeps the number of units: the register files after a run are as
/// many as before it.
pub proof fn lemma_run_keeps_units(ids: Seq<u8>, regs: Seq<Registers>, mem: Seq<u8>, steps: nat)
    ensures
        run_spec(ids, regs, mem, steps).regs.len() == regs.len(),
    decreases steps,
{
    lemma_first_running(regs, 0);
    let i = first_running(regs, 0);
    if i < regs.len() && steps > 0 {
        match step_spec(regs[i], mem) {
            Err(_) => {},
            Ok(effect) => match effect.outcome {
                StepOutcome::Syscall(_) => {},
                _ => {
                    lemma_run_keeps_units(
                        ids,
                        regs.update(i, effect.regs),
                        effect.mem,
                        (steps - 1) as nat,
                    );
                },
            },
        }
    }
}

} // verus!
