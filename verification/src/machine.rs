//! The machine: one memory image, a fixed set of processing units, and the
//! loop that drives them.
//!
//! The units run one after the other. At every point the unit that takes the
//! next step is the first one, in the order of their numbers, that has not
//! halted; a unit's registers are its own, so a unit that has halted stays
//! halted. The loop ends when every unit has halted, when a step faults, when
//! a `sys` instruction hands a call out, or when the budget of steps is used
//! up.

use crate::cpu::{step_spec, Cpu, StepOutcome};
use crate::fault::Fault;
use crate::memory::{overlay, Memory, Word, MEM_SIZE};
use crate::registers::Registers;
use vstd::prelude::*;

verus! {

/// How a run ended.
#[derive(Clone, Copy, Debug, PartialEq, Eq, Structural)]
pub enum RunOutcome {
    /// Every unit has halted.
    Halted,
    /// The unit with the number `cpu` faulted; the faulting step changed
    /// nothing.
    Faulted { cpu: u8, fault: Fault },
    /// The unit with the number `cpu` executed a `sys` instruction with this
    /// call number. Running again goes on behind that instruction.
    Syscall { cpu: u8, number: Word },
    /// The budget of steps was used up before any of the above happened.
    OutOfSteps,
}

/// The registers of every unit and the memory image after a run, and how the
/// run ended.
pub struct RunEffect {
    pub regs: Seq<Registers>,
    pub mem: Seq<u8>,
    pub outcome: RunOutcome,
}

/// The registers of every unit, each with the unit's number, and the memory
/// image, all taken at one point between two instructions.
pub struct Snapshot {
    pub cpus: Vec<(u8, Registers)>,
    pub memory: Vec<u8>,
}

/// The numbers of `count` units: 1, 2, and so on.
pub open spec fn unit_ids(count: nat) -> Seq<u8> {
    Seq::new(count, |i: int| (i + 1) as u8)
}

/// The first index from `from` on whose unit has not halted, or the number of
/// units if there is none.
pub open spec fn first_running(regs: Seq<Registers>, from: int) -> int
    decreases regs.len() - from,
{
    if from < 0 || from >= regs.len() {
        regs.len() as int
    } else if !regs[from].halted() {
        from
    } else {
        first_running(regs, from + 1)
    }
}

/// A run of at most `steps` steps from the registers `regs` of the units with
/// the numbers `ids` and the memory image `mem`.
pub open spec fn run_spec(ids: Seq<u8>, regs: Seq<Registers>, mem: Seq<u8>, steps: nat)
    -> RunEffect
    decreases steps,
{
    let i = first_running(regs, 0);
    if i >= regs.len() {
        RunEffect { regs, mem, outcome: RunOutcome::Halted }
    } else if steps == 0 {
        RunEffect { regs, mem, outcome: RunOutcome::OutOfSteps }
    } else {
        match step_spec(regs[i], mem) {
            Err(fault) => RunEffect {
                regs,
                mem,
                outcome: RunOutcome::Faulted { cpu: ids[i], fault },
            },
            Ok(effect) => match effect.outcome {
                StepOutcome::Syscall(number) => RunEffect {
                    regs: regs.update(i, effect.regs),
                    mem: effect.mem,
                    outcome: RunOutcome::Syscall { cpu: ids[i], number },
                },
                _ => run_spec(ids, regs.update(i, effect.regs), effect.mem, (steps - 1) as nat),
            },
        }
    }
}

/// The first running unit from `from` on lies between `from` and the number
/// of units, has not halted, and every unit between `from` and it has.
pub proof fn lemma_first_running(regs: Seq<Registers>, from: int)
    requires
        0 <= from <= regs.len(),
    ensures
        from <= first_running(regs, from) <= regs.len(),
        first_running(regs, from) < regs.len() ==> !regs[first_running(regs, from)].halted(),
        forall|j: int| from <= j < first_running(regs, from) ==> regs[j].halted(),
    decreases regs.len() - from,
{
    if from < regs.len() && regs[from].halted() {
        lemma_first_running(regs, from + 1);
    }
}

/// Units that have halted do not count: where every unit before `from` has
/// halted, the first running unit is the first one from `from` on.
pub proof fn lemma_first_running_skips(regs: Seq<Registers>, from: int)
    requires
        0 <= from <= regs.len(),
        forall|j: int| 0 <= j < from ==> regs[j].halted(),
    ensures
        first_running(regs, 0) == first_running(regs, from),
    decreases from,
{
    if from > 0 {
        lemma_first_running_skips(regs, from - 1);
    }
}

/// A machine: a memory image and its processing units.
pub struct Machine {
    cpus: Vec<Cpu>,
    memory: Memory,
}

impl Machine {
    /// The numbers of the units, in order.
    pub closed spec fn ids(&self) -> Seq<u8> {
        Seq::new(self.cpus@.len(), |i: int| self.cpus@[i].id_spec())
    }

    /// The register files of the units, in order.
    pub closed spec fn regs(&self) -> Seq<Registers> {
        Seq::new(self.cpus@.len(), |i: int| self.cpus@[i]@)
    }

    /// The memory image.
    pub closed spec fn mem(&self) -> Seq<u8> {
        self.memory@
    }

    /// A machine with `cpu_count` units, numbered from 1, in which every
    /// register and every byte of memory is zero.
    pub fn start(cpu_count: u8) -> (m: Self)
        ensures
            m.ids() == unit_ids(cpu_count as nat),
            m.regs() == Seq::new(cpu_count as nat, |i: int| Registers::zeroed()),
            m.mem() == Seq::new(MEM_SIZE as nat, |i: int| 0u8),
    {
        let mut cpus: Vec<Cpu> = Vec::new();
        let mut n: u8 = 0;
        while n < cpu_count
            invariant
                n <= cpu_count,
                cpus@.len() == n,
                forall|i: int| 0 <= i < n ==> cpus@[i].id_spec() == i + 1,
                forall|i: int| 0 <= i < n ==> cpus@[i]@ == Registers::zeroed(),
            decreases cpu_count - n,
        {
            n += 1;
            cpus.push(Cpu::new(n));
        }
        let m = Machine { cpus, memory: Memory::new() };
        assert(m.ids() =~= unit_ids(cpu_count as nat));
        assert(m.regs() =~= Seq::new(cpu_count as nat, |i: int| Registers::zeroed()));
        m
    }

    /// How many units the machine has.
    pub fn cpu_count(&self) -> (n: usize)
        ensures
            n == self.regs().len(),
            n == self.ids().len(),
    {
        self.cpus.len()
    }

    /// The memory image, to read.
    pub fn memory(&self) -> (memory: &Memory)
        ensures
            memory@ == self.mem(),
    {
        &self.memory
    }

    /// Copies a program image to the start of memory. An image larger than
    /// memory is refused and memory stays as it was. The units are not
    /// touched.
    pub fn load_program(&mut self, bytes: &[u8]) -> (r: Result<(), Fault>)
        ensures
            final(self).ids() == old(self).ids(),
            final(self).regs() == old(self).regs(),
            bytes@.len() <= MEM_SIZE ==> r == Ok::<(), Fault>(()) && final(self).mem() == overlay(
                old(self).mem(),
                bytes@,
            ),
            bytes@.len() > MEM_SIZE ==> r == Err::<(), Fault>(
                Fault::ProgramTooLarge(bytes@.len() as usize, MEM_SIZE),
            ) && final(self).mem() == old(self).mem(),
    {
        match self.memory.load(bytes) {
            Ok(_) => Ok(()),
            Err(fault) => Err(fault),
        }
    }

    /// Runs the units for at most `max_steps` steps in all and reports how
    /// the run ended.
    pub fn exec(&mut self, max_steps: u64) -> (outcome: RunOutcome)
        ensures
            final(self).ids() == old(self).ids(),
            final(self).regs() == run_spec(
                old(self).ids(),
                old(self).regs(),
                old(self).mem(),
                max_steps as nat,
            ).regs,
            final(self).mem() == run_spec(
                old(self).ids(),
                old(self).regs(),
                old(self).mem(),
                max_steps as nat,
            ).mem,
            outcome == run_spec(
                old(self).ids(),
                old(self).regs(),
                old(self).mem(),
                max_steps as nat,
            ).outcome,
    {
        let ghost ids = self.ids();
        let ghost goal = run_spec(ids, self.regs(), self.mem(), max_steps as nat);
        let count: usize = self.cpus.len();
        let mut remaining: u64 = max_steps;
        let mut i: usize = 0;
        loop
            invariant
                i <= count,
                count == self.cpus@.len(),
                self.ids() == ids,
                ids == old(self).ids(),
                goal == run_spec(ids, old(self).regs(), old(self).mem(), max_steps as nat),
                forall|j: int| 0 <= j < i ==> self.regs()[j].halted(),
                goal == run_spec(ids, self.regs(), self.mem(), remaining as nat),
            decreases remaining, count - i,
        {
            proof {
                lemma_first_running_skips(self.regs(), i as int);
                lemma_first_running(self.regs(), i as int);
            }
            if i >= count {
                return RunOutcome::Halted;
            }
            if self.cpus[i].is_halt() {
                i += 1;
                continue;
            }
            if remaining == 0 {
                return RunOutcome::OutOfSteps;
            }
            let cpu: u8 = self.cpus[i].id();
            let ghost before = self.regs();
            let stepped = self.cpus[i].step(&mut self.memory);
            proof {
                assert(self.regs() =~= before.update(i as int, self.cpus@[i as int]@));
                assert(self.ids() =~= ids);
            }
            match stepped {
                Err(fault) => {
                    assert(self.regs() =~= before);
                    return RunOutcome::Faulted { cpu, fault };
                },
                Ok(StepOutcome::Syscall(number)) => {
                    return RunOutcome::Syscall { cpu, number };
                },
                Ok(_) => {
                    remaining -= 1;
                },
            }
        }
    }

    /// A copy of every unit's registers, each with the unit's number, and of
    /// the memory image.
    pub fn debug_dump_state(&self) -> (s: Snapshot)
        ensures
            s.cpus@.len() == self.regs().len(),
            forall|i: int|
                0 <= i < s.cpus@.len() ==> s.cpus@[i] == (self.ids()[i], self.regs()[i]),
            s.memory@ == self.mem(),
    {
        let mut cpus: Vec<(u8, Registers)> = Vec::new();
        let mut i: usize = 0;
        while i < self.cpus.len()
            invariant
                i <= self.cpus@.len(),
                cpus@.len() == i,
                forall|j: int|
                    0 <= j < i ==> cpus@[j] == (self.cpus@[j].id_spec(), self.cpus@[j]@),
            decreases self.cpus@.len() - i,
        {
            cpus.push((self.cpus[i].id(), self.cpus[i].dump()));
            i += 1;
        }
        Snapshot { cpus, memory: self.memory.dump() }
    }
}

} // verus!
