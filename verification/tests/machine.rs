use vcpu::fault::Fault;
use vcpu::machine::{Machine, RunOutcome};
use vcpu::memory::MEM_SIZE;
use vcpu::registers::{Registers, FLAG_E, FLAG_H};

#[test]
fn started_machine_is_zeroed() {
    let m = Machine::start(3);
    assert_eq!(m.cpu_count(), 3);
    let s = m.debug_dump_state();
    assert_eq!(s.cpus, vec![(1, Registers::new()), (2, Registers::new()), (3, Registers::new())]);
    assert_eq!(s.memory.len(), MEM_SIZE);
    assert!(s.memory.iter().all(|b| *b == 0));
}

#[test]
fn machine_without_units_is_halted() {
    let mut m = Machine::start(0);
    assert_eq!(m.cpu_count(), 0);
    assert_eq!(m.exec(0), RunOutcome::Halted);
    assert_eq!(m.exec(10), RunOutcome::Halted);
    assert!(m.debug_dump_state().cpus.is_empty());
}

#[test]
fn machine_can_have_255_units() {
    let m = Machine::start(255);
    let s = m.debug_dump_state();
    assert_eq!(s.cpus.len(), 255);
    assert_eq!(s.cpus[0].0, 1);
    assert_eq!(s.cpus[254].0, 255);
}

#[test]
fn halt_program_halts_at_once() {
    let mut m = Machine::start(1);
    assert_eq!(m.load_program(&[0x00, 0x0E]), Ok(()));
    assert_eq!(m.exec(1000), RunOutcome::Halted);
    let s = m.debug_dump_state();
    assert_eq!(s.cpus, vec![(1, Registers { flags: FLAG_H, ..Registers::new() })]);
    assert_eq!(s.cpus[0].1.flags & FLAG_H, FLAG_H);
    assert_eq!(&s.memory[..2], &[0x00, 0x0E]);
    assert!(s.memory[2..].iter().all(|b| *b == 0));
}

#[test]
fn adds_five_and_three() {
    let mut m = Machine::start(1);
    // lra gp1, 5; lra gp2, 3; add gp1, gp2; hlt
    let program =
        [0x00, 0x02, 0x00, 0x05, 0x10, 0x02, 0x00, 0x03, 0x01, 0x05, 0x00, 0x0E];
    assert_eq!(m.load_program(&program), Ok(()));
    assert_eq!(m.exec(1000), RunOutcome::Halted);
    let s = m.debug_dump_state();
    assert_eq!(s.cpus[0].1.gp1, 8);
    assert_eq!(
        s.cpus[0].1,
        Registers { ip: 5, gp1: 8, gp2: 3, flags: FLAG_H, ..Registers::new() }
    );
    assert_eq!(&s.memory[..12], &program);
    assert!(s.memory[12..].iter().all(|b| *b == 0));
}

#[test]
fn jump_out_of_bounds_faults_on_the_next_fetch() {
    let mut m = Machine::start(1);
    // jmp 0x1000
    assert_eq!(m.load_program(&[0x00, 0x0A, 0x10, 0x00]), Ok(()));
    assert_eq!(
        m.exec(1000),
        RunOutcome::Faulted { cpu: 1, fault: Fault::OutOfBoundsAccess(0x1000) }
    );
    let s = m.debug_dump_state();
    assert_eq!(s.cpus[0].1, Registers { ip: 0x1000, ..Registers::new() });
    // running again meets the same fault
    assert_eq!(
        m.exec(1000),
        RunOutcome::Faulted { cpu: 1, fault: Fault::OutOfBoundsAccess(0x1000) }
    );
}

#[test]
fn oversized_program_is_refused() {
    let mut m = Machine::start(1);
    let program = vec![0x0E_u8; MEM_SIZE + 1];
    assert_eq!(m.load_program(&program), Err(Fault::ProgramTooLarge(MEM_SIZE + 1, MEM_SIZE)));
    let s = m.debug_dump_state();
    assert!(s.memory.iter().all(|b| *b == 0));
    assert_eq!(s.cpus, vec![(1, Registers::new())]);
}

#[test]
fn program_of_exactly_the_capacity_loads() {
    let mut m = Machine::start(1);
    let program = vec![0x00_u8; MEM_SIZE];
    assert_eq!(m.load_program(&program), Ok(()));
}

#[test]
fn running_off_the_end_of_memory_faults() {
    let mut m = Machine::start(1);
    // memory full of "mvr gp1, gp1"
    let mut program = Vec::new();
    for _ in 0..4096 {
        program.push(0x00);
        program.push(0x04);
    }
    assert_eq!(m.load_program(&program), Ok(()));
    assert_eq!(
        m.exec(10_000),
        RunOutcome::Faulted { cpu: 1, fault: Fault::OutOfBoundsAccess(4096) }
    );
    assert_eq!(m.debug_dump_state().cpus[0].1.ip, 4096);
}

#[test]
fn unknown_opcode_ends_the_run() {
    let mut m = Machine::start(1);
    // lra gp1, 1; then an unknown opcode 0x55
    assert_eq!(m.load_program(&[0x00, 0x02, 0x00, 0x01, 0x00, 0x55]), Ok(()));
    assert_eq!(
        m.exec(1000),
        RunOutcome::Faulted { cpu: 1, fault: Fault::UnknownOpcode(0x55, 2) }
    );
    let s = m.debug_dump_state();
    assert_eq!(s.cpus[0].1, Registers { ip: 2, gp1: 1, ..Registers::new() });
}

#[test]
fn empty_memory_is_an_unknown_opcode() {
    let mut m = Machine::start(1);
    assert_eq!(
        m.exec(1000),
        RunOutcome::Faulted { cpu: 1, fault: Fault::UnknownOpcode(0x00, 0) }
    );
    assert_eq!(m.debug_dump_state().cpus[0].1, Registers::new());
}

#[test]
fn division_by_zero_ends_the_run() {
    let mut m = Machine::start(1);
    // lra gp1, 9; div gp1, gp2; hlt
    assert_eq!(m.load_program(&[0x00, 0x02, 0x00, 0x09, 0x01, 0x08, 0x00, 0x0E]), Ok(()));
    assert_eq!(m.exec(1000), RunOutcome::Faulted { cpu: 1, fault: Fault::DivisionByZero(2) });
    let s = m.debug_dump_state();
    assert_eq!(s.cpus[0].1, Registers { ip: 2, gp1: 9, ..Registers::new() });
}

#[test]
fn endless_loop_runs_out_of_steps() {
    let mut m = Machine::start(1);
    // jmp 0
    assert_eq!(m.load_program(&[0x00, 0x0A, 0x00, 0x00]), Ok(()));
    assert_eq!(m.exec(500), RunOutcome::OutOfSteps);
    assert_eq!(m.debug_dump_state().cpus[0].1, Registers::new());
    assert_eq!(m.exec(0), RunOutcome::OutOfSteps);
}

#[test]
fn budget_counts_every_step() {
    // lra gp1, 5; lra gp2, 3; add gp1, gp2; hlt
    let program =
        [0x00, 0x02, 0x00, 0x05, 0x10, 0x02, 0x00, 0x03, 0x01, 0x05, 0x00, 0x0E];
    let mut m = Machine::start(1);
    assert_eq!(m.load_program(&program), Ok(()));
    assert_eq!(m.exec(3), RunOutcome::OutOfSteps);
    assert_eq!(
        m.debug_dump_state().cpus[0].1,
        Registers { ip: 5, gp1: 8, gp2: 3, ..Registers::new() }
    );
    assert_eq!(m.exec(1), RunOutcome::Halted);
    let mut m = Machine::start(1);
    assert_eq!(m.load_program(&program), Ok(()));
    assert_eq!(m.exec(4), RunOutcome::Halted);
    assert_eq!(m.exec(0), RunOutcome::Halted);
}

#[test]
fn sys_pauses_the_run_and_the_next_run_goes_on() {
    let mut m = Machine::start(1);
    // lra gp1, 2; sys 7; add gp1, gp1; sys 8; hlt
    let program = [
        0x00, 0x02, 0x00, 0x02, 0x00, 0x0D, 0x00, 0x07, 0x00, 0x05, 0x00, 0x0D, 0x00, 0x08, 0x00,
        0x0E,
    ];
    assert_eq!(m.load_program(&program), Ok(()));
    assert_eq!(m.exec(100), RunOutcome::Syscall { cpu: 1, number: 7 });
    assert_eq!(m.debug_dump_state().cpus[0].1, Registers { ip: 4, gp1: 2, ..Registers::new() });
    assert_eq!(m.exec(100), RunOutcome::Syscall { cpu: 1, number: 8 });
    assert_eq!(m.debug_dump_state().cpus[0].1, Registers { ip: 7, gp1: 4, ..Registers::new() });
    assert_eq!(m.exec(100), RunOutcome::Halted);
    assert_eq!(
        m.debug_dump_state().cpus[0].1,
        Registers { ip: 7, gp1: 4, flags: FLAG_H, ..Registers::new() }
    );
}

#[test]
fn loop_counts_down_with_compare_and_jump() {
    let mut m = Machine::start(1);
    // 0: lra gp1, 3      gp1 = 3 (counter)
    // 2: lra gp2, 1      gp2 = 1
    // 4: lra gp4, 0      gp4 = 0
    // 6: add gp3, gp1    gp3 += gp1
    // 7: sub gp1, gp2    gp1 -= 1
    // 8: cmp gp1, gp4
    // 9: jne 6
    // 11: srm gp3, 0x0200
    // 13: hlt
    let program = [
        0x00, 0x02, 0x00, 0x03, 0x10, 0x02, 0x00, 0x01, 0x30, 0x02, 0x00, 0x00, 0x20, 0x05, 0x01,
        0x06, 0x03, 0x09, 0x00, 0x0C, 0x00, 0x06, 0x20, 0x03, 0x02, 0x00, 0x00, 0x0E,
    ];
    assert_eq!(m.load_program(&program), Ok(()));
    assert_eq!(m.exec(1000), RunOutcome::Halted);
    let s = m.debug_dump_state();
    assert_eq!(
        s.cpus[0].1,
        Registers { ip: 13, gp1: 0, gp2: 1, gp3: 6, gp4: 0, flags: FLAG_E | FLAG_H, ..Registers::new() }
    );
    assert_eq!(&s.memory[0x400..0x402], &[0x00, 0x06]);
}

#[test]
fn load_from_memory_then_multiply_and_divide() {
    let mut m = Machine::start(1);
    // 0: lrm gp1, 8      gp1 = mem[8] = 0x0102
    // 2: lrm gp2, 9      gp2 = mem[9] = 0x0003
    // 4: mul gp1, gp2    gp1 = 0x0306
    // 5: div gp1, gp2    gp1 = 0x0102
    // 6: mvr gp1, gp4
    // 7: hlt
    let program = [
        0x00, 0x01, 0x00, 0x08, 0x10, 0x01, 0x00, 0x09, 0x01, 0x07, 0x01, 0x08, 0x03, 0x04, 0x00,
        0x0E, 0x01, 0x02, 0x00, 0x03,
    ];
    assert_eq!(m.load_program(&program), Ok(()));
    assert_eq!(m.exec(1000), RunOutcome::Halted);
    assert_eq!(
        m.debug_dump_state().cpus[0].1,
        Registers { ip: 7, gp1: 0x0102, gp2: 3, gp4: 0x0102, flags: FLAG_H, ..Registers::new() }
    );
}

#[test]
fn units_run_one_after_the_other() {
    let mut m = Machine::start(2);
    // 0: lrm gp1, 0x0100; 2: lra gp2, 1; 4: add gp1, gp2; 5: srm gp1, 0x0100; 7: hlt
    let program = [
        0x00, 0x01, 0x01, 0x00, 0x10, 0x02, 0x00, 0x01, 0x01, 0x05, 0x00, 0x03, 0x01, 0x00, 0x00,
        0x0E,
    ];
    assert_eq!(m.load_program(&program), Ok(()));
    assert_eq!(m.exec(5), RunOutcome::OutOfSteps);
    let s = m.debug_dump_state();
    assert!(s.cpus[0].1.flags & FLAG_H != 0);
    assert_eq!(s.cpus[1], (2, Registers::new()));
    assert_eq!(m.exec(1000), RunOutcome::Halted);
    let s = m.debug_dump_state();
    assert_eq!(s.cpus[0], (1, Registers { ip: 7, gp1: 1, gp2: 1, flags: FLAG_H, ..Registers::new() }));
    assert_eq!(s.cpus[1], (2, Registers { ip: 7, gp1: 2, gp2: 1, flags: FLAG_H, ..Registers::new() }));
    assert_eq!(&s.memory[0x200..0x202], &[0x00, 0x02]);
}

#[test]
fn fault_names_the_unit_that_faulted() {
    let mut m = Machine::start(2);
    // 0: lrm gp1, 0x0100; 2: srm gp3, 0x0100; 4: div gp2, gp1; 5: hlt
    let program = [
        0x00, 0x01, 0x01, 0x00, 0x20, 0x03, 0x01, 0x00, 0x10, 0x08, 0x00, 0x0E,
    ];
    assert_eq!(m.load_program(&program), Ok(()));
    assert_eq!(m.exec(1000), RunOutcome::Faulted { cpu: 1, fault: Fault::DivisionByZero(4) });
    let s = m.debug_dump_state();
    assert_eq!(s.cpus[0], (1, Registers { ip: 4, ..Registers::new() }));
    assert_eq!(s.cpus[1], (2, Registers::new()));
}

#[test]
fn snapshot_does_not_change_the_machine() {
    let mut m = Machine::start(1);
    assert_eq!(m.load_program(&[0x00, 0x02, 0x00, 0x05, 0x00, 0x0E]), Ok(()));
    let first = m.debug_dump_state();
    let second = m.debug_dump_state();
    assert_eq!(first.cpus, second.cpus);
    assert_eq!(first.memory, second.memory);
    assert_eq!(m.exec(10), RunOutcome::Halted);
    assert_eq!(m.debug_dump_state().cpus[0].1.gp1, 5);
}

#[test]
fn two_machines_do_not_share_memory() {
    let mut a = Machine::start(1);
    let b = Machine::start(1);
    assert_eq!(a.load_program(&[0x00, 0x0E]), Ok(()));
    assert_eq!(&a.debug_dump_state().memory[..2], &[0x00, 0x0E]);
    assert!(b.debug_dump_state().memory.iter().all(|x| *x == 0));
}
