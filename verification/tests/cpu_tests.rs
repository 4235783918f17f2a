//! Behavioural tests of the CPU instruction set on the machine-state model.

use gb_rs::cpu::instructions::{self, cb, Instruction};
use gb_rs::cpu::Cpu;

fn fresh() -> Cpu {
    Cpu::new()
}

#[test]
fn nop_changes_nothing() {
    let mut cpu = fresh();
    cpu.a = 0x12;
    cpu.pc = 0x345;
    cpu.carry = true;

    instructions::nop(&mut cpu);

    assert_eq!(cpu.a, 0x12);
    assert_eq!(cpu.pc, 0x345);
    assert!(cpu.carry);
}

#[test]
fn ld_a_n_reads_the_immediate() {
    let mut cpu = fresh();
    cpu.pc = 0x100;
    cpu.mem[0x100] = 0x42;

    instructions::ld_a_n(&mut cpu);

    assert_eq!(cpu.a, 0x42);
    assert_eq!(cpu.pc, 0x101);
}

#[test]
fn ld_b_a_moves_the_accumulator() {
    let mut cpu = fresh();
    cpu.a = 0x99;
    cpu.b = 0x01;

    instructions::ld_b_a(&mut cpu);

    assert_eq!(cpu.b, 0x99);
    assert_eq!(cpu.a, 0x99);
}

#[test]
fn ld_a_mhl_reads_memory() {
    let mut cpu = fresh();
    cpu.h = 0xc0;
    cpu.l = 0x05;
    cpu.mem[0xc005] = 0x77;

    instructions::ld_a_mhl(&mut cpu);

    assert_eq!(cpu.a, 0x77);
}

#[test]
fn ld_mhl_n_stores_the_immediate() {
    let mut cpu = fresh();
    cpu.pc = 0x200;
    cpu.mem[0x200] = 0x5a;
    cpu.h = 0xc1;
    cpu.l = 0x00;

    instructions::ld_mhl_n(&mut cpu);

    assert_eq!(cpu.mem[0xc100], 0x5a);
    assert_eq!(cpu.pc, 0x201);
}

#[test]
fn ld_bc_nn_reads_little_endian() {
    let mut cpu = fresh();
    cpu.pc = 0x150;
    cpu.mem[0x150] = 0x34;
    cpu.mem[0x151] = 0x12;

    instructions::ld_bc_nn(&mut cpu);

    assert_eq!(cpu.b, 0x12);
    assert_eq!(cpu.c, 0x34);
    assert_eq!(cpu.pc, 0x152);
}

#[test]
fn dec_a_wraps_at_zero() {
    let mut cpu = fresh();
    cpu.a = 0;

    instructions::dec_a(&mut cpu);

    assert_eq!(cpu.a, 0xff);
    assert!(!cpu.zero);
    assert!(cpu.substract);
    assert!(cpu.halfcarry);
}

#[test]
fn dec_b_sets_zero_flag() {
    let mut cpu = fresh();
    cpu.b = 1;

    instructions::dec_b(&mut cpu);

    assert_eq!(cpu.b, 0);
    assert!(cpu.zero);
    assert!(!cpu.halfcarry);
}

#[test]
fn sub_a_b_sets_borrow_flags() {
    let mut cpu = fresh();
    cpu.a = 0x10;
    cpu.b = 0x01;

    instructions::sub_a_b(&mut cpu);

    assert_eq!(cpu.a, 0x0f);
    assert!(!cpu.carry);
    assert!(cpu.halfcarry);
    assert!(cpu.substract);
    assert!(!cpu.zero);
}

#[test]
fn sub_a_b_wraps_below_zero() {
    let mut cpu = fresh();
    cpu.a = 0x01;
    cpu.b = 0x02;

    instructions::sub_a_b(&mut cpu);

    assert_eq!(cpu.a, 0xff);
    assert!(cpu.carry);
}

#[test]
fn cp_a_n_compares_without_writing_a() {
    let mut cpu = fresh();
    cpu.a = 0x20;
    cpu.pc = 0x300;
    cpu.mem[0x300] = 0x20;

    instructions::cp_a_n(&mut cpu);

    assert_eq!(cpu.a, 0x20);
    assert!(cpu.zero);
    assert!(!cpu.carry);
    assert_eq!(cpu.pc, 0x301);
}

#[test]
fn and_a_n_masks_and_sets_halfcarry() {
    let mut cpu = fresh();
    cpu.a = 0b1100_1010;
    cpu.pc = 0x400;
    cpu.mem[0x400] = 0b1010_1111;

    instructions::and_a_n(&mut cpu);

    assert_eq!(cpu.a, 0b1000_1010);
    assert!(cpu.halfcarry);
    assert!(!cpu.zero);
    assert!(!cpu.carry);
}

#[test]
fn xor_a_a_clears_the_accumulator() {
    let mut cpu = fresh();
    cpu.a = 0x5c;
    cpu.carry = true;

    instructions::xor_a_a(&mut cpu);

    assert_eq!(cpu.a, 0);
    assert!(cpu.zero);
    assert!(!cpu.carry);
}

#[test]
fn jr_n_takes_a_negative_offset() {
    let mut cpu = fresh();
    cpu.pc = 0x100;
    cpu.mem[0x100] = 0xfe; // -2

    instructions::jr_n(&mut cpu);

    assert_eq!(cpu.pc, 0xff);
}

#[test]
fn jr_nz_n_not_taken_when_zero_set() {
    let mut cpu = fresh();
    cpu.pc = 0x100;
    cpu.mem[0x100] = 0x10;
    cpu.zero = true;

    instructions::jr_nz_n(&mut cpu);

    assert_eq!(cpu.pc, 0x101);
}

#[test]
fn jp_z_nn_taken_when_zero_set() {
    let mut cpu = fresh();
    cpu.pc = 0x100;
    cpu.mem[0x100] = 0x00;
    cpu.mem[0x101] = 0x80;
    cpu.zero = true;

    instructions::jp_z_nn(&mut cpu);

    assert_eq!(cpu.pc, 0x8000);
}

#[test]
fn call_pushes_the_return_address() {
    let mut cpu = fresh();
    cpu.pc = 0x210;
    cpu.sp = 0xfffe;
    cpu.mem[0x210] = 0x34;
    cpu.mem[0x211] = 0x12;

    instructions::call(&mut cpu);

    assert_eq!(cpu.pc, 0x1234);
    assert_eq!(cpu.sp, 0xfffc);
    assert_eq!(cpu.mem[0xfffd], 0x02); // high byte of 0x0212
    assert_eq!(cpu.mem[0xfffc], 0x12); // low byte of 0x0212
}

#[test]
fn push_then_pop_word_round_trips() {
    let mut cpu = fresh();
    cpu.sp = 0xd000;

    instructions::push_word(&mut cpu, 0xbeef);
    let w = instructions::pop_word(&mut cpu);

    assert_eq!(w, 0xbeef);
    assert_eq!(cpu.sp, 0xd000);
}

#[test]
fn pop_af_unpacks_the_flags() {
    let mut cpu = fresh();
    cpu.sp = 0xc800;
    cpu.mem[0xc800] = 0xf0;
    cpu.mem[0xc801] = 0xab;

    instructions::pop_af(&mut cpu);

    assert_eq!(cpu.a, 0xab);
    assert!(cpu.zero);
    assert!(cpu.substract);
    assert!(cpu.halfcarry);
    assert!(cpu.carry);
    assert_eq!(cpu.sp, 0xc802);
}

#[test]
fn ldd_mhl_a_wraps_hl_downward() {
    let mut cpu = fresh();
    cpu.h = 0;
    cpu.l = 0;
    cpu.a = 0x11;

    instructions::ldd_mhl_a(&mut cpu);

    assert_eq!(cpu.mem[0], 0x11);
    assert_eq!(cpu.h, 0xff);
    assert_eq!(cpu.l, 0xff);
}

#[test]
fn ldi_mhl_a_steps_hl_upward() {
    let mut cpu = fresh();
    cpu.h = 0xc0;
    cpu.l = 0xff;
    cpu.a = 0x22;

    instructions::ldi_mhl_a(&mut cpu);

    assert_eq!(cpu.mem[0xc0ff], 0x22);
    assert_eq!(cpu.h, 0xc1);
    assert_eq!(cpu.l, 0x00);
}

#[test]
fn ldh_writes_into_the_high_page() {
    let mut cpu = fresh();
    cpu.pc = 0x100;
    cpu.mem[0x100] = 0x47;
    cpu.a = 0x3c;

    instructions::ldh_mn_a(&mut cpu);

    assert_eq!(cpu.mem[0xff47], 0x3c);
}

#[test]
fn di_clears_the_interrupt_latch() {
    let mut cpu = fresh();
    assert!(cpu.iten);

    instructions::di(&mut cpu);

    assert!(!cpu.iten);
}

#[test]
fn res_a_3_clears_one_bit() {
    let mut cpu = fresh();
    cpu.a = 0xff;

    cb::res_a_3(&mut cpu);

    assert_eq!(cpu.a, 0xf7);
}

#[test]
fn next_instruction_decodes_nop() {
    let mut cpu = fresh();
    cpu.pc = 0;
    cpu.mem[0] = 0x00;

    let (delay, instruction) = instructions::next_instruction(&mut cpu);

    assert_eq!(delay, 1);
    assert_eq!(instruction, Instruction::Nop);
    assert_eq!(cpu.pc, 1);
}

#[test]
fn next_instruction_decodes_a_cb_opcode() {
    let mut cpu = fresh();
    cpu.pc = 0x50;
    cpu.mem[0x50] = 0xcb;
    cpu.mem[0x51] = 0x87;

    let (delay, instruction) = instructions::next_instruction(&mut cpu);

    assert_eq!(delay, 2);
    assert_eq!(instruction, Instruction::ResA0);
    assert_eq!(cpu.pc, 0x52);
}

#[test]
fn fetch_and_execute_runs_a_small_program() {
    let mut cpu = fresh();
    // LD A, 5 ; DEC A ; DEC A
    cpu.mem[0] = 0x3e;
    cpu.mem[1] = 0x05;
    cpu.mem[2] = 0x3d;
    cpu.mem[3] = 0x3d;

    let mut cycles = 0u32;
    for _ in 0..3 {
        let (delay, instruction) = instructions::next_instruction(&mut cpu);
        instructions::execute(&mut cpu, instruction);
        cycles += delay;
    }

    assert_eq!(cpu.a, 3);
    assert_eq!(cpu.pc, 4);
    assert_eq!(cycles, 2 + 1 + 1);
    assert!(!cpu.zero);
    assert!(cpu.substract);
}

#[test]
fn next_byte_wraps_the_program_counter() {
    let mut cpu = fresh();
    cpu.pc = 0xffff;
    cpu.mem[0xffff] = 0x07;

    let b = instructions::next_byte(&mut cpu);

    assert_eq!(b, 0x07);
    assert_eq!(cpu.pc, 0x0000);
}

#[test]
fn push_byte_wraps_the_stack_pointer() {
    let mut cpu = fresh();
    cpu.sp = 0x0000;

    instructions::push_byte(&mut cpu, 0x9a);

    assert_eq!(cpu.sp, 0xffff);
    assert_eq!(cpu.mem[0xffff], 0x9a);
}
