//! The full engine, driven through its public surface: loads, transfers,
//! arithmetic, shifts, stack discipline, branches, and the terminal outcomes
//! of the dispatch loop.

use nes_cpu::cpu::CPU;
use nes_cpu::flags::{CARRY, NEGATIVE, OVERFLOW, ZERO};
use nes_cpu::isa::StepOutcome;

#[test]
fn test_test_0xa9_lda() {
    let mut cpu = CPU::new();
    cpu.mem_write(0x10, 0x55);
    println!("THIS IS THE MEM READ");
    println!("{}", cpu.mem_read(0x10));
    cpu.load_and_run(vec![0xa5, 0x10, 0x00]);
    assert_eq!(cpu.register_a, 0x55);
}

#[test]
fn test_test_0xa9_lda_zero_flag() {
    let mut cpu = CPU::new();
    cpu.load_and_run(vec![0xa9, 0x00, 0x00]);
    assert_eq!(cpu.status.bits() & 0b0000_0010, 0b10);
}

#[test]
fn test_test_moving_register_a_to_reg_x() {
    let mut cpu = CPU::new();
    cpu.load_and_run(vec![0xa9, 0x04, 0xaa, 0x00]);
    assert_eq!(cpu.register_x, cpu.register_a);
    assert_eq!(cpu.register_x, 0x04);
}

#[test]
fn test_increment_reg_x() {
    let mut cpu = CPU::new();
    cpu.load_and_run(vec![0xa9, 0x03, 0xaa, 0xe8, 0x00]);
    assert_eq!(cpu.register_x, 4);
}

#[test]
fn test_5_operations_working_together() {
    let mut cpu = CPU::new();
    cpu.load_and_run(vec![0xa9, 0xc0, 0xaa, 0xe8, 0x00]);
    assert_eq!(cpu.register_x, 0xc1);
}

#[test]
fn test_decrement_reg_x() {
    let mut cpu = CPU::new();
    cpu.load_and_run(vec![0xa9, 0x05, 0xaa, 0xca, 0x00]);
    assert_eq!(cpu.register_x, 4);
}

#[test]
fn test_add_with_carry() {
    let mut cpu = CPU::new();
    cpu.load_and_run(vec![0xa9, 0x10, 0x69, 0x01, 0x00]);
    assert_eq!(cpu.register_a, 0x11);
}

#[test]
fn lda_immediate_sets_value_and_clears_flags() {
    let mut cpu = CPU::new();
    let outcome = cpu.load_and_run(vec![0xa9, 0x05, 0x00]);
    assert_eq!(outcome, StepOutcome::Halted);
    assert_eq!(cpu.register_a, 0x05);
    assert_eq!(cpu.status.bits() & ZERO, 0);
    assert_eq!(cpu.status.bits() & NEGATIVE, 0);
}

#[test]
fn inx_wraps_to_zero_and_sets_zero_flag() {
    let mut cpu = CPU::new();
    cpu.load_and_run(vec![0xa9, 0xff, 0xaa, 0xe8, 0x00]);
    assert_eq!(cpu.register_x, 0x00);
    assert_ne!(cpu.status.bits() & ZERO, 0);
}

#[test]
fn jsr_rts_round_trip_restores_stack_and_continues_after_call() {
    let mut cpu = CPU::new();
    // JSR $0604; halt at $0603; the subroutine at $0604 returns at once.
    let outcome = cpu.load_and_run(vec![0x20, 0x04, 0x06, 0x00, 0x60]);
    assert_eq!(outcome, StepOutcome::Halted);
    // The halt at $0603 — the instruction following the 3-byte call — was
    // executed, leaving the program counter one past it.
    assert_eq!(cpu.program_counter, 0x0604);
    assert_eq!(cpu.stack_pointer, 0xfd);
}

#[test]
fn jsr_runs_the_subroutine_body_before_returning() {
    let mut cpu = CPU::new();
    // JSR $0604; halt at $0603; the subroutine loads the accumulator and
    // returns.
    let outcome = cpu.load_and_run(vec![0x20, 0x04, 0x06, 0x00, 0xa9, 0x05, 0x60]);
    assert_eq!(outcome, StepOutcome::Halted);
    assert_eq!(cpu.register_a, 0x05);
    assert_eq!(cpu.program_counter, 0x0604);
    assert_eq!(cpu.stack_pointer, 0xfd);
}

#[test]
fn adc_carry_out_wraps_to_zero() {
    let mut cpu = CPU::new();
    cpu.load_and_run(vec![0xa9, 0xff, 0x69, 0x01, 0x00]);
    assert_eq!(cpu.register_a, 0x00);
    assert_ne!(cpu.status.bits() & CARRY, 0);
    assert_ne!(cpu.status.bits() & ZERO, 0);
}

#[test]
fn adc_signed_overflow_sets_overflow_flag() {
    let mut cpu = CPU::new();
    cpu.load_and_run(vec![0xa9, 0x7f, 0x69, 0x01, 0x00]);
    assert_eq!(cpu.register_a, 0x80);
    assert_ne!(cpu.status.bits() & OVERFLOW, 0);
    assert_ne!(cpu.status.bits() & NEGATIVE, 0);
    assert_eq!(cpu.status.bits() & CARRY, 0);
}

#[test]
fn adc_zero_page_adds_memory_operand() {
    let mut cpu = CPU::new();
    cpu.mem_write(0x10, 0x20);
    cpu.load_and_run(vec![0xa9, 0x22, 0x65, 0x10, 0x00]);
    assert_eq!(cpu.register_a, 0x42);
}

#[test]
fn asl_accumulator_takes_carry_from_high_bit() {
    let mut cpu = CPU::new();
    cpu.load_and_run(vec![0xa9, 0x80, 0x0a, 0x00]);
    assert_eq!(cpu.register_a, 0x00);
    assert_ne!(cpu.status.bits() & CARRY, 0);
    assert_ne!(cpu.status.bits() & ZERO, 0);
}

#[test]
fn asl_accumulator_without_carry() {
    let mut cpu = CPU::new();
    cpu.load_and_run(vec![0xa9, 0x41, 0x0a, 0x00]);
    assert_eq!(cpu.register_a, 0x82);
    assert_eq!(cpu.status.bits() & CARRY, 0);
    assert_ne!(cpu.status.bits() & NEGATIVE, 0);
}

#[test]
fn asl_zero_page_writes_shifted_value_back() {
    let mut cpu = CPU::new();
    cpu.mem_write(0x10, 0x81);
    cpu.load_and_run(vec![0x06, 0x10, 0x00]);
    assert_eq!(cpu.mem_read(0x10), 0x02);
    assert_ne!(cpu.status.bits() & CARRY, 0);
    assert_eq!(cpu.status.bits() & NEGATIVE, 0);
}

#[test]
fn lsr_accumulator_halves_and_reuses_high_bit_carry_test() {
    let mut cpu = CPU::new();
    cpu.load_and_run(vec![0xa9, 0x80, 0x4a, 0x00]);
    assert_eq!(cpu.register_a, 0x40);
    // Carry comes from the pre-shift high bit — the documented reuse of the
    // left shift's test, not canonical bit 0.
    assert_ne!(cpu.status.bits() & CARRY, 0);
}

#[test]
fn rol_accumulator_rotates_carry_in_and_flags_pre_shift_value() {
    let mut cpu = CPU::new();
    cpu.load_and_run(vec![0xa9, 0x80, 0x38, 0x2a, 0x00]);
    assert_eq!(cpu.register_a, 0x01);
    assert_ne!(cpu.status.bits() & CARRY, 0);
    // Zero and Negative follow the pre-shift value 0x80, the documented
    // deviation: Negative set although the rotated result is 0x01.
    assert_ne!(cpu.status.bits() & NEGATIVE, 0);
    assert_eq!(cpu.status.bits() & ZERO, 0);
}

#[test]
fn rol_zero_page_writes_rotated_value_back() {
    let mut cpu = CPU::new();
    cpu.mem_write(0x10, 0x81);
    cpu.load_and_run(vec![0x26, 0x10, 0x00]);
    assert_eq!(cpu.mem_read(0x10), 0x02);
    assert_ne!(cpu.status.bits() & CARRY, 0);
    assert_ne!(cpu.status.bits() & NEGATIVE, 0);
}

#[test]
fn and_immediate_with_disjoint_bits_gives_zero() {
    let mut cpu = CPU::new();
    cpu.load_and_run(vec![0xa9, 0x0f, 0x29, 0xf0, 0x00]);
    assert_eq!(cpu.register_a, 0x00);
    assert_ne!(cpu.status.bits() & ZERO, 0);
}

#[test]
fn ora_immediate_merges_bits() {
    let mut cpu = CPU::new();
    cpu.load_and_run(vec![0xa9, 0x0f, 0x09, 0xf0, 0x00]);
    assert_eq!(cpu.register_a, 0xff);
    assert_ne!(cpu.status.bits() & NEGATIVE, 0);
}

#[test]
fn ora_indirect_x_reads_through_zero_page_pointer() {
    let mut cpu = CPU::new();
    cpu.mem_write(0x24, 0x34);
    cpu.mem_write(0x25, 0x12);
    cpu.mem_write(0x1234, 0x0f);
    cpu.load_and_run(vec![0xa2, 0x04, 0xa9, 0xf0, 0x01, 0x20, 0x00]);
    assert_eq!(cpu.register_a, 0xff);
}

#[test]
fn ora_indirect_y_indexes_the_dereferenced_base() {
    let mut cpu = CPU::new();
    cpu.mem_write(0x40, 0x00);
    cpu.mem_write(0x41, 0x20);
    cpu.mem_write(0x2003, 0x0f);
    cpu.load_and_run(vec![0xa0, 0x03, 0xa9, 0xf0, 0x11, 0x40, 0x00]);
    assert_eq!(cpu.register_a, 0xff);
}

#[test]
fn bit_zero_page_sets_zero_when_mask_is_nonzero() {
    let mut cpu = CPU::new();
    cpu.mem_write(0x10, 0xc0);
    cpu.load_and_run(vec![0xa9, 0xff, 0x24, 0x10, 0x00]);
    // Inverted polarity, kept as documented: the masked value is nonzero,
    // and that is when Zero goes on.
    assert_ne!(cpu.status.bits() & ZERO, 0);
    assert_ne!(cpu.status.bits() & OVERFLOW, 0);
    assert_ne!(cpu.status.bits() & NEGATIVE, 0);
}

#[test]
fn bit_zero_page_clears_flags_from_operand_bits() {
    let mut cpu = CPU::new();
    cpu.mem_write(0x10, 0x0f);
    cpu.load_and_run(vec![0xa9, 0xf0, 0x24, 0x10, 0x00]);
    assert_eq!(cpu.status.bits() & ZERO, 0);
    assert_eq!(cpu.status.bits() & OVERFLOW, 0);
    assert_eq!(cpu.status.bits() & NEGATIVE, 0);
}

#[test]
fn compare_flags_follow_register_minus_one() {
    let mut cpu = CPU::new();
    cpu.load_and_run(vec![0xa9, 0x00, 0xc9, 0x00, 0x00]);
    // Operand 0 <= register 0 sets Carry; Zero and Negative follow the
    // register less one — 0xff — so Zero stays off although the compared
    // values are equal, the documented deviation.
    assert_ne!(cpu.status.bits() & CARRY, 0);
    assert_eq!(cpu.status.bits() & ZERO, 0);
    assert_ne!(cpu.status.bits() & NEGATIVE, 0);
}

#[test]
fn compare_clears_carry_when_operand_is_larger() {
    let mut cpu = CPU::new();
    cpu.load_and_run(vec![0xa9, 0x03, 0xc9, 0x05, 0x00]);
    assert_eq!(cpu.status.bits() & CARRY, 0);
}

#[test]
fn compare_x_with_zero_page_operand() {
    let mut cpu = CPU::new();
    cpu.mem_write(0x10, 0x03);
    cpu.load_and_run(vec![0xa2, 0x05, 0xe4, 0x10, 0x00]);
    assert_ne!(cpu.status.bits() & CARRY, 0);
    assert_eq!(cpu.status.bits() & ZERO, 0);
}

#[test]
fn inc_zero_page_wraps_and_sets_zero() {
    let mut cpu = CPU::new();
    cpu.mem_write(0x10, 0xff);
    cpu.load_and_run(vec![0xe6, 0x10, 0x00]);
    assert_eq!(cpu.mem_read(0x10), 0x00);
    assert_ne!(cpu.status.bits() & ZERO, 0);
}

#[test]
fn inc_absolute_x_indexes_by_register_x() {
    let mut cpu = CPU::new();
    cpu.mem_write(0x0010, 0x05);
    cpu.load_and_run(vec![0xa2, 0x01, 0xfe, 0x0f, 0x00, 0x00]);
    assert_eq!(cpu.mem_read(0x0010), 0x06);
}

#[test]
fn dec_zero_page_wraps_and_sets_negative() {
    let mut cpu = CPU::new();
    cpu.mem_write(0x10, 0x00);
    cpu.load_and_run(vec![0xc6, 0x10, 0x00]);
    assert_eq!(cpu.mem_read(0x10), 0xff);
    assert_ne!(cpu.status.bits() & NEGATIVE, 0);
}

#[test]
fn sta_zero_page_stores_accumulator_without_flags() {
    let mut cpu = CPU::new();
    cpu.load_and_run(vec![0xa9, 0x42, 0x85, 0x10, 0x00]);
    assert_eq!(cpu.mem_read(0x10), 0x42);
    assert_eq!(cpu.status.bits() & ZERO, 0);
}

#[test]
fn ldx_and_ldy_immediate() {
    let mut cpu = CPU::new();
    cpu.load_and_run(vec![0xa2, 0x07, 0xa0, 0x09, 0x00]);
    assert_eq!(cpu.register_x, 0x07);
    assert_eq!(cpu.register_y, 0x09);
}

#[test]
fn lda_absolute_reads_16_bit_address() {
    let mut cpu = CPU::new();
    cpu.mem_write(0x1234, 0x77);
    cpu.load_and_run(vec![0xad, 0x34, 0x12, 0x00]);
    assert_eq!(cpu.register_a, 0x77);
}

#[test]
fn opcode_0xb5_is_tabled_as_plain_zero_page() {
    let mut cpu = CPU::new();
    cpu.mem_write(0x10, 0x55);
    cpu.mem_write(0x11, 0x66);
    // The table pairs 0xb5 with plain zero-page addressing, so register X
    // does not offset the operand.
    cpu.load_and_run(vec![0xa2, 0x01, 0xb5, 0x10, 0x00]);
    assert_eq!(cpu.register_a, 0x55);
}

#[test]
fn php_pushes_status_with_break_bits_forced() {
    let mut cpu = CPU::new();
    cpu.load_and_run(vec![0x38, 0x08, 0x00]);
    // Status after reset is 0x24; SEC makes it 0x25; the pushed copy adds
    // both break bits, the live register keeps them off.
    assert_eq!(cpu.mem_read(0x10fd), 0x35);
    assert_eq!(cpu.stack_pointer, 0xfc);
    assert_eq!(cpu.status.bits(), 0x25);
}

#[test]
fn branch_not_taken_steps_past_offset() {
    let mut cpu = CPU::new();
    cpu.load_and_run(vec![0xa9, 0x00, 0xd0, 0x01, 0x00, 0xa9, 0x42, 0x00]);
    assert_eq!(cpu.register_a, 0x00);
}

#[test]
fn branch_taken_skips_by_offset() {
    let mut cpu = CPU::new();
    cpu.load_and_run(vec![0xa9, 0x01, 0xd0, 0x01, 0x00, 0xa9, 0x42, 0x00]);
    assert_eq!(cpu.register_a, 0x42);
}

#[test]
fn branch_backward_with_negative_offset() {
    let mut cpu = CPU::new();
    let outcome = cpu.load_and_run(vec![0xa9, 0x00, 0xf0, 0x02, 0xa9, 0x01, 0xf0, 0xfc, 0x00]);
    assert_eq!(outcome, StepOutcome::Halted);
    assert_eq!(cpu.register_a, 0x01);
}

#[test]
fn bcs_follows_carry_and_bpl_follows_negative() {
    let mut cpu = CPU::new();
    cpu.load_and_run(vec![0x38, 0xb0, 0x01, 0x00, 0xa9, 0x42, 0x00]);
    assert_eq!(cpu.register_a, 0x42);

    let mut cpu = CPU::new();
    cpu.load_and_run(vec![0xa9, 0x01, 0x10, 0x01, 0x00, 0xa9, 0x43, 0x00]);
    assert_eq!(cpu.register_a, 0x43);
}

#[test]
fn jmp_absolute_redirects_without_flags() {
    let mut cpu = CPU::new();
    let outcome = cpu.load_and_run(vec![0x4c, 0x05, 0x06, 0xa9, 0x01, 0x00]);
    assert_eq!(outcome, StepOutcome::Halted);
    assert_eq!(cpu.register_a, 0x00);
    assert_eq!(cpu.program_counter, 0x0606);
}

#[test]
fn sec_and_clc_toggle_only_carry() {
    let mut cpu = CPU::new();
    cpu.load_and_run(vec![0x38, 0x00]);
    assert_eq!(cpu.status.bits(), 0x25);

    let mut cpu = CPU::new();
    cpu.load_and_run(vec![0x38, 0x18, 0x00]);
    assert_eq!(cpu.status.bits(), 0x24);
}

#[test]
fn nop_changes_nothing_but_the_program_counter() {
    let mut cpu = CPU::new();
    cpu.load_and_run(vec![0xea, 0x00]);
    assert_eq!(cpu.register_a, 0x00);
    assert_eq!(cpu.status.bits(), 0x24);
    assert_eq!(cpu.program_counter, 0x0602);
}

#[test]
fn illegal_opcode_reports_the_byte() {
    let mut cpu = CPU::new();
    let outcome = cpu.load_and_run(vec![0xff]);
    assert_eq!(outcome, StepOutcome::IllegalOpcode(0xff));
}

#[test]
fn load_writes_image_and_reset_vector() {
    let mut cpu = CPU::new();
    cpu.load(vec![0xa9, 0x05, 0x00]);
    assert_eq!(cpu.mem_read(0x0600), 0xa9);
    assert_eq!(cpu.mem_read(0x0601), 0x05);
    assert_eq!(cpu.mem_read(0x0602), 0x00);
    assert_eq!(cpu.mem_read(0xfffc), 0x00);
    assert_eq!(cpu.mem_read(0xfffd), 0x06);
}

#[test]
fn reset_reloads_program_counter_and_initial_registers() {
    let mut cpu = CPU::new();
    cpu.load(vec![0xea, 0x00]);
    cpu.reset();
    assert_eq!(cpu.program_counter, 0x0600);
    assert_eq!(cpu.register_a, 0);
    assert_eq!(cpu.register_x, 0);
    assert_eq!(cpu.stack_pointer, 0xfd);
    assert_eq!(cpu.status.bits(), 0x24);
}

#[test]
fn identical_runs_produce_identical_snapshots() {
    let program = vec![
        0xa9, 0x80, 0x85, 0x10, 0x20, 0x0b, 0x06, 0xe6, 0x10, 0xaa, 0x00, 0x69, 0x41, 0x60,
    ];
    let mut cpu1 = CPU::new();
    cpu1.mem_write(0x40, 0x99);
    let outcome1 = cpu1.load_and_run(program.clone());

    let mut cpu2 = CPU::new();
    cpu2.mem_write(0x40, 0x99);
    let outcome2 = cpu2.load_and_run(program);

    assert_eq!(outcome1, outcome2);
    assert_eq!(cpu1.register_a, cpu2.register_a);
    assert_eq!(cpu1.register_x, cpu2.register_x);
    assert_eq!(cpu1.register_y, cpu2.register_y);
    assert_eq!(cpu1.stack_pointer, cpu2.stack_pointer);
    assert_eq!(cpu1.program_counter, cpu2.program_counter);
    assert_eq!(cpu1.status.bits(), cpu2.status.bits());
    for addr in 0..=0xffffu16 {
        assert_eq!(cpu1.mem_read(addr), cpu2.mem_read(addr));
    }
}

#[test]
fn run_for_respects_the_step_budget() {
    let mut cpu = CPU::new();
    cpu.load(vec![0xa9, 0x05, 0xaa, 0x00]);
    cpu.reset();
    assert_eq!(cpu.run_for(1), StepOutcome::Running);
    assert_eq!(cpu.register_a, 0x05);
    assert_eq!(cpu.register_x, 0x00);
    assert_eq!(cpu.run_for(10), StepOutcome::Halted);
    assert_eq!(cpu.register_x, 0x05);
}

#[test]
fn run_for_bounds_a_program_that_never_halts() {
    let mut cpu = CPU::new();
    // An absolute jump to its own address: the dispatch loop would never
    // return, so only bounded execution can drive it.
    cpu.load(vec![0x4c, 0x00, 0x06]);
    cpu.reset();
    assert_eq!(cpu.run_for(100), StepOutcome::Running);
    assert_eq!(cpu.program_counter, 0x0600);
}

#[test]
fn step_reports_running_then_halted() {
    let mut cpu = CPU::new();
    cpu.load(vec![0xa9, 0x05, 0x00]);
    cpu.reset();
    assert_eq!(cpu.step(), StepOutcome::Running);
    assert_eq!(cpu.register_a, 0x05);
    assert_eq!(cpu.step(), StepOutcome::Halted);
}
