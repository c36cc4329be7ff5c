use pcxt::cpu8086::{start, CpuError, CPU};
use pcxt::ibm_xt;
use pcxt::instructions::lookup::{run_next_instruction, step};
use pcxt::memory::calculate_addr;
use pcxt::memory1mb::Memory;

fn machine() -> CPU {
    start(Memory::zeroed(), ibm_xt::start())
}

fn load(cpu: &mut CPU, cs: u16, ip: u16, code: &[u8]) {
    cpu.memory.cs = cs;
    cpu.memory.ip = ip;
    let base = calculate_addr(cs, ip);
    for (i, b) in code.iter().enumerate() {
        cpu.memory.ram.set_byte(base + i, *b);
    }
}

#[test]
fn mov_then_add() {
    let mut cpu = machine();
    cpu.regs.ax = 0x0001;
    cpu.regs.bx = 0x0002;
    load(&mut cpu, 0x0000, 0x0500, &[0xB8, 0x34, 0x12, 0x01, 0xD8]);
    run_next_instruction(&mut cpu).unwrap();
    assert_eq!(cpu.regs.ax, 0x1234);
    run_next_instruction(&mut cpu).unwrap();
    assert_eq!(cpu.regs.ax, 0x1236);
    assert_eq!(cpu.regs.bx, 0x0002);
    assert!(!cpu.flags.zero);
    assert!(!cpu.flags.sign);
    assert!(!cpu.flags.carry);
    assert!(!cpu.flags.overflow);
    assert!(cpu.flags.parity);
    assert_eq!(cpu.memory.ip, 0x0505);
}

#[test]
fn add_signed_overflow_edge() {
    let mut cpu = machine();
    cpu.regs.ax = 0x7FFF;
    load(&mut cpu, 0x0000, 0x0500, &[0x05, 0x01, 0x00]);
    run_next_instruction(&mut cpu).unwrap();
    assert_eq!(cpu.regs.ax, 0x8000);
    assert!(cpu.flags.sign);
    assert!(!cpu.flags.zero);
    assert!(cpu.flags.overflow);
    assert!(!cpu.flags.carry);
    assert!(cpu.flags.adjust);
    assert!(cpu.flags.parity);
}

#[test]
fn segmented_byte_write() {
    let mut cpu = machine();
    cpu.memory.ds = 0x1000;
    cpu.regs.bx = 0x0004;
    load(&mut cpu, 0x0000, 0x0500, &[0xC6, 0x07, 0xAB]);
    run_next_instruction(&mut cpu).unwrap();
    assert_eq!(cpu.memory.ram.get_byte(0x10004), 0xAB);
    assert_eq!(cpu.memory.ip, 0x0503);
}

#[test]
fn rep_movsb_copies_four_bytes() {
    let mut cpu = machine();
    cpu.memory.ds = 0;
    cpu.memory.es = 0;
    cpu.regs.si = 0x0100;
    cpu.regs.di = 0x0200;
    cpu.regs.cx = 4;
    cpu.flags.direction = false;
    for (i, b) in [0x11u8, 0x22, 0x33, 0x44].iter().enumerate() {
        cpu.memory.ram.set_byte(0x100 + i, *b);
    }
    load(&mut cpu, 0x0000, 0x0500, &[0xF3, 0xA4, 0x90]);
    let mut steps = 0;
    while cpu.memory.ip < 0x0502 {
        run_next_instruction(&mut cpu).unwrap();
        steps += 1;
        assert!(steps <= 4);
    }
    assert_eq!(steps, 4);
    for (i, b) in [0x11u8, 0x22, 0x33, 0x44].iter().enumerate() {
        assert_eq!(cpu.memory.ram.get_byte(0x200 + i), *b);
    }
    assert_eq!(cpu.regs.cx, 0);
    assert_eq!(cpu.regs.si, 0x0104);
    assert_eq!(cpu.regs.di, 0x0204);
}

#[test]
fn rep_with_zero_count_skips_the_string_instruction() {
    let mut cpu = machine();
    cpu.regs.cx = 0;
    cpu.regs.si = 0x0100;
    cpu.regs.di = 0x0200;
    cpu.memory.ram.set_byte(0x100, 0x5A);
    load(&mut cpu, 0x0000, 0x0500, &[0xF3, 0xA4]);
    run_next_instruction(&mut cpu).unwrap();
    assert_eq!(cpu.memory.ip, 0x0502);
    assert_eq!(cpu.regs.si, 0x0100);
    assert_eq!(cpu.memory.ram.get_byte(0x200), 0);
}

#[test]
fn div_by_zero_takes_interrupt_zero() {
    let mut cpu = machine();
    cpu.regs.ax = 0x1234;
    cpu.regs.bx = 0x0000;
    cpu.regs.sp = 0x0100;
    cpu.memory.ss = 0x0000;
    cpu.flags.interrupt = true;
    cpu.memory.ram.set_word(0x0000, 0x5678);
    cpu.memory.ram.set_word(0x0002, 0x9ABC);
    load(&mut cpu, 0x0000, 0x0500, &[0xF6, 0xF3]);
    let flags_before = cpu.flags.get_bits_word();
    run_next_instruction(&mut cpu).unwrap();
    assert_eq!(cpu.memory.ip, 0x5678);
    assert_eq!(cpu.memory.cs, 0x9ABC);
    assert!(!cpu.flags.interrupt);
    assert_eq!(cpu.regs.sp, 0x00FA);
    assert_eq!(cpu.memory.ram.get_word(0x00FA), 0x0502);
    assert_eq!(cpu.memory.ram.get_word(0x00FC), 0x0000);
    assert_eq!(cpu.memory.ram.get_word(0x00FE), flags_before);
    assert_eq!(cpu.regs.ax, 0x1234);
}

#[test]
fn div_byte_quotient_and_remainder() {
    let mut cpu = machine();
    cpu.regs.ax = 100;
    cpu.regs.bx = 7;
    load(&mut cpu, 0x0000, 0x0500, &[0xF6, 0xF3]);
    run_next_instruction(&mut cpu).unwrap();
    assert_eq!(cpu.regs.ax, 14 + 256 * 2);
}

#[test]
fn push_then_pop_returns_the_value() {
    let mut cpu = machine();
    cpu.memory.ss = 0x2000;
    cpu.regs.sp = 0x0010;
    cpu.regs.ax = 0xBEEF;
    load(&mut cpu, 0x0000, 0x0500, &[0x50, 0x5B]);
    run_next_instruction(&mut cpu).unwrap();
    assert_eq!(cpu.regs.sp, 0x000E);
    run_next_instruction(&mut cpu).unwrap();
    assert_eq!(cpu.regs.bx, 0xBEEF);
    assert_eq!(cpu.regs.sp, 0x0010);
}

#[test]
fn undefined_opcode_is_an_error() {
    let mut cpu = machine();
    load(&mut cpu, 0x0000, 0x0500, &[0x0F]);
    let r = run_next_instruction(&mut cpu);
    assert_eq!(r, Err(CpuError::UndefinedOpcode { address: 0x500, op0: 0x0F }));
}

#[test]
fn undefined_group_field_is_an_error() {
    let mut cpu = machine();
    load(&mut cpu, 0x0000, 0x0500, &[0xFE, 0xD0]);
    let r = run_next_instruction(&mut cpu);
    assert_eq!(r, Err(CpuError::UndefinedModRm { address: 0x500, op0: 0xFE, op1: 0xD0 }));
}

#[test]
fn segment_override_applies_to_one_instruction() {
    let mut cpu = machine();
    cpu.memory.es = 0x3000;
    cpu.regs.bx = 0x0010;
    cpu.memory.ram.set_byte(0x30010, 0x77);
    cpu.memory.ram.set_byte(0x00010, 0x11);
    load(&mut cpu, 0x0000, 0x0500, &[0x26, 0x8A, 0x07, 0x8A, 0x27]);
    run_next_instruction(&mut cpu).unwrap();
    run_next_instruction(&mut cpu).unwrap();
    assert_eq!(cpu.regs.ax & 0xFF, 0x77);
    run_next_instruction(&mut cpu).unwrap();
    assert_eq!(cpu.regs.ax >> 8, 0x11);
}

#[test]
fn bp_based_operand_uses_stack_segment() {
    let mut cpu = machine();
    cpu.memory.ss = 0x4000;
    cpu.regs.bp = 0x0020;
    cpu.memory.ram.set_byte(0x40022, 0x99);
    load(&mut cpu, 0x0000, 0x0500, &[0x8A, 0x46, 0x02]);
    run_next_instruction(&mut cpu).unwrap();
    assert_eq!(cpu.regs.ax & 0xFF, 0x99);
}

#[test]
fn negative_eight_bit_displacement_is_sign_extended() {
    let mut cpu = machine();
    cpu.regs.bx = 0x0010;
    cpu.memory.ram.set_byte(0x0000E, 0x42);
    load(&mut cpu, 0x0000, 0x0500, &[0x8A, 0x47, 0xFE]);
    run_next_instruction(&mut cpu).unwrap();
    assert_eq!(cpu.regs.ax & 0xFF, 0x42);
}

#[test]
fn mul_sets_carry_when_high_half_is_used() {
    let mut cpu = machine();
    cpu.regs.ax = 0x0080;
    cpu.regs.bx = 0x0002;
    load(&mut cpu, 0x0000, 0x0500, &[0xF6, 0xE3, 0xF6, 0xE3]);
    run_next_instruction(&mut cpu).unwrap();
    assert_eq!(cpu.regs.ax, 0x0100);
    assert!(cpu.flags.carry && cpu.flags.overflow);
    cpu.regs.ax = 0x0003;
    run_next_instruction(&mut cpu).unwrap();
    assert_eq!(cpu.regs.ax, 0x0006);
    assert!(!cpu.flags.carry && !cpu.flags.overflow);
}

#[test]
fn imul_flags_follow_sign_extension() {
    let mut cpu = machine();
    cpu.regs.ax = 0x00FF;
    cpu.regs.bx = 0x0002;
    load(&mut cpu, 0x0000, 0x0500, &[0xF6, 0xEB]);
    run_next_instruction(&mut cpu).unwrap();
    assert_eq!(cpu.regs.ax, 0xFFFE);
    assert!(!cpu.flags.carry);
}

#[test]
fn cwd_extends_negative_ax_to_all_ones() {
    let mut cpu = machine();
    cpu.regs.ax = 0x8000;
    load(&mut cpu, 0x0000, 0x0500, &[0x99]);
    run_next_instruction(&mut cpu).unwrap();
    assert_eq!(cpu.regs.dx, 0xFFFF);
}

#[test]
fn into_uses_vector_four() {
    let mut cpu = machine();
    cpu.regs.sp = 0x0100;
    cpu.flags.overflow = true;
    cpu.memory.ram.set_word(0x0010, 0x1111);
    cpu.memory.ram.set_word(0x0012, 0x2222);
    load(&mut cpu, 0x0000, 0x0500, &[0xCE]);
    run_next_instruction(&mut cpu).unwrap();
    assert_eq!(cpu.memory.ip, 0x1111);
    assert_eq!(cpu.memory.cs, 0x2222);
}

#[test]
fn short_jump_backwards() {
    let mut cpu = machine();
    load(&mut cpu, 0x0000, 0x0500, &[0xEB, 0xFE]);
    run_next_instruction(&mut cpu).unwrap();
    assert_eq!(cpu.memory.ip, 0x0500);
}

#[test]
fn shift_left_by_cl() {
    let mut cpu = machine();
    cpu.regs.ax = 0x0081;
    cpu.regs.cx = 0x0002;
    load(&mut cpu, 0x0000, 0x0500, &[0xD2, 0xE0]);
    run_next_instruction(&mut cpu).unwrap();
    assert_eq!(cpu.regs.ax & 0xFF, 0x04);
    assert!(!cpu.flags.carry);
}

#[test]
fn rotate_right_through_carry() {
    let mut cpu = machine();
    cpu.regs.ax = 0x0001;
    cpu.flags.carry = false;
    load(&mut cpu, 0x0000, 0x0500, &[0xD0, 0xD8]);
    run_next_instruction(&mut cpu).unwrap();
    assert_eq!(cpu.regs.ax & 0xFF, 0x00);
    assert!(cpu.flags.carry);
}

#[test]
fn halt_waits_for_an_interrupt() {
    let mut cpu = machine();
    cpu.regs.sp = 0x0100;
    cpu.memory.ram.set_word(0x0020, 0x0600);
    cpu.memory.ram.set_word(0x0022, 0x0000);
    load(&mut cpu, 0x0000, 0x0500, &[0xF4, 0x90]);
    step(&mut cpu).unwrap();
    assert!(cpu.halted);
    assert_eq!(step(&mut cpu), Ok(1));
    assert_eq!(cpu.memory.ip, 0x0501);
    cpu.flags.interrupt = true;
    cpu.interrupt = Some(8);
    step(&mut cpu).unwrap();
    assert!(!cpu.halted);
    assert_eq!(cpu.memory.ip, 0x0600);
}

#[test]
fn physical_address_wraps_at_one_megabyte() {
    assert_eq!(calculate_addr(0xFFFF, 0x0010), 0x00000);
    assert_eq!(calculate_addr(0xFFFF, 0xFFFF), 0x0FFEF);
    assert_eq!(calculate_addr(0xF000, 0xFFF0), 0xFFFF0);
}
