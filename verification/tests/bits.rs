//! Rotates, shifts and the extension opcode space: carry wiring, the
//! forced-zero quirk of the accumulator forms, and BIT/RES/SET.

use lr35902::cpu::Cpu;
use lr35902::mem::{FlatMem, Mem};

fn bits_cpu(prog: &[u8]) -> Cpu<FlatMem> {
    let mut m = FlatMem::new();
    let mut i = 0;
    while i < prog.len() {
        m.storeb(i as u16, prog[i]);
        i += 1;
    }
    Cpu::new(m)
}

#[test]
fn rlca_forces_zero_clear() {
    let mut cpu = bits_cpu(&[0x07]);
    cpu.regs.a = 0x80;
    assert_eq!(cpu.step(), Ok(4));
    assert_eq!(cpu.regs.a, 0x01);
    // Carry takes the rotated-out bit; Zero forced clear.
    assert_eq!(cpu.regs.f, 0x10);
}

#[test]
fn rla_shifts_carry_in() {
    let mut cpu = bits_cpu(&[0x17]);
    cpu.regs.a = 0x00;
    cpu.regs.f = 0x10;
    assert_eq!(cpu.step(), Ok(4));
    assert_eq!(cpu.regs.a, 0x01);
    assert_eq!(cpu.regs.f, 0x00);
}

#[test]
fn rrca_rotates_into_top_bit() {
    let mut cpu = bits_cpu(&[0x0f]);
    cpu.regs.a = 0x01;
    assert_eq!(cpu.step(), Ok(4));
    assert_eq!(cpu.regs.a, 0x80);
    assert_eq!(cpu.regs.f, 0x10);
}

#[test]
fn rra_shifts_carry_into_top_bit() {
    let mut cpu = bits_cpu(&[0x1f]);
    cpu.regs.a = 0x02;
    cpu.regs.f = 0x10;
    assert_eq!(cpu.step(), Ok(4));
    assert_eq!(cpu.regs.a, 0x81);
    assert_eq!(cpu.regs.f, 0x00);
}

#[test]
fn extension_rlc_sets_zero_from_value() {
    // RLC B with B = 0: the general form reports Zero.
    let mut cpu = bits_cpu(&[0xcb, 0x00]);
    assert_eq!(cpu.step(), Ok(8));
    assert_eq!(cpu.regs.b, 0x00);
    assert_eq!(cpu.regs.f, 0x80);
}

#[test]
fn extension_rl_through_memory() {
    // RL (HL): the Carry flag becomes bit 0, bit 7 leaves to Carry.
    let mut cpu = bits_cpu(&[0xcb, 0x16]);
    cpu.regs.h = 0xc0;
    cpu.mem.storeb(0xc000, 0x80);
    cpu.regs.f = 0x10;
    assert_eq!(cpu.step(), Ok(24));
    assert_eq!(cpu.mem.loadb(0xc000), 0x01);
    assert_eq!(cpu.regs.f, 0x10);
}

#[test]
fn sla_shifts_in_zero() {
    // SLA A
    let mut cpu = bits_cpu(&[0xcb, 0x27]);
    cpu.regs.a = 0xc1;
    assert_eq!(cpu.step(), Ok(8));
    assert_eq!(cpu.regs.a, 0x82);
    assert_eq!(cpu.regs.f, 0x10);
}

#[test]
fn sra_preserves_sign_bit() {
    // SRA A
    let mut cpu = bits_cpu(&[0xcb, 0x2f]);
    cpu.regs.a = 0x81;
    assert_eq!(cpu.step(), Ok(8));
    assert_eq!(cpu.regs.a, 0xc0);
    assert_eq!(cpu.regs.f, 0x10);
}

#[test]
fn srl_clears_top_bit() {
    // SRL A
    let mut cpu = bits_cpu(&[0xcb, 0x3f]);
    cpu.regs.a = 0x81;
    assert_eq!(cpu.step(), Ok(8));
    assert_eq!(cpu.regs.a, 0x40);
    assert_eq!(cpu.regs.f, 0x10);
}

#[test]
fn swap_exchanges_nibbles() {
    // SWAP A
    let mut cpu = bits_cpu(&[0xcb, 0x37]);
    cpu.regs.a = 0xab;
    cpu.regs.f = 0x10;
    assert_eq!(cpu.step(), Ok(8));
    assert_eq!(cpu.regs.a, 0xba);
    // All flags cleared for a non-zero value, Carry included.
    assert_eq!(cpu.regs.f, 0x00);
}

#[test]
fn bit_tests_without_touching_carry() {
    // BIT 7,A with the bit clear and Carry set.
    let mut cpu = bits_cpu(&[0xcb, 0x7f]);
    cpu.regs.a = 0x00;
    cpu.regs.f = 0x10;
    assert_eq!(cpu.step(), Ok(8));
    // Zero (bit is 0) and forced HalfCarry; Carry untouched.
    assert_eq!(cpu.regs.f, 0xb0);
    assert_eq!(cpu.regs.a, 0x00);
}

#[test]
fn res_and_set_touch_no_flags() {
    // SET 3,A then RES 3,A
    let mut cpu = bits_cpu(&[0xcb, 0xdf, 0xcb, 0x9f]);
    cpu.regs.f = 0x10;
    assert_eq!(cpu.step(), Ok(8));
    assert_eq!(cpu.regs.a, 0x08);
    assert_eq!(cpu.regs.f, 0x10);
    assert_eq!(cpu.step(), Ok(8));
    assert_eq!(cpu.regs.a, 0x00);
    assert_eq!(cpu.regs.f, 0x10);
}

#[test]
fn extension_uses_low_bits_for_operand() {
    // RRC C with C = 0x01.
    let mut cpu = bits_cpu(&[0xcb, 0x09]);
    cpu.regs.c = 0x01;
    assert_eq!(cpu.step(), Ok(8));
    assert_eq!(cpu.regs.c, 0x80);
    assert_eq!(cpu.regs.f, 0x10);
}
