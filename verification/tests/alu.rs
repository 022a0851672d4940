//! Arithmetic, logic and flag behaviour: the forced-flag quirks, the
//! untouched-carry rule, BCD correction and the SP-relative forms.

use lr35902::cpu::Cpu;
use lr35902::mem::{FlatMem, Mem};
use lr35902::regs::{Reg16, CARRY_FLAG, ZERO_FLAG};

fn alu_cpu(prog: &[u8]) -> Cpu<FlatMem> {
    let mut m = FlatMem::new();
    let mut i = 0;
    while i < prog.len() {
        m.storeb(i as u16, prog[i]);
        i += 1;
    }
    Cpu::new(m)
}

#[test]
fn and_forces_half_carry() {
    let mut cpu = alu_cpu(&[0xe6, 0x00]);
    cpu.regs.a = 0xff;
    assert_eq!(cpu.step(), Ok(8));
    assert_eq!(cpu.regs.a, 0x00);
    // Zero and HalfCarry set, Carry and Subtract clear.
    assert_eq!(cpu.regs.f, 0xa0);
}

#[test]
fn or_clears_half_carry_and_carry() {
    let mut cpu = alu_cpu(&[0xf6, 0x00]);
    cpu.regs.a = 0x00;
    cpu.regs.f = 0x30;
    assert_eq!(cpu.step(), Ok(8));
    // Only Zero set; HalfCarry and Carry forced clear.
    assert_eq!(cpu.regs.f, 0x80);
}

#[test]
fn xor_clears_half_carry_and_carry() {
    let mut cpu = alu_cpu(&[0xee, 0xff]);
    cpu.regs.a = 0x0f;
    cpu.regs.f = 0x30;
    assert_eq!(cpu.step(), Ok(8));
    assert_eq!(cpu.regs.a, 0xf0);
    assert_eq!(cpu.regs.f, 0x00);
}

#[test]
fn inc_wraps_and_keeps_carry() {
    let mut cpu = alu_cpu(&[0x3c]);
    cpu.regs.a = 0xff;
    cpu.regs.f = 0x10;
    assert_eq!(cpu.step(), Ok(4));
    assert_eq!(cpu.regs.a, 0x00);
    // Zero and HalfCarry set; Carry kept from before.
    assert_eq!(cpu.regs.f, 0xb0);
}

#[test]
fn inc_keeps_clear_carry() {
    let mut cpu = alu_cpu(&[0x3c]);
    cpu.regs.a = 0xff;
    assert_eq!(cpu.step(), Ok(4));
    assert_eq!(cpu.regs.a, 0x00);
    assert_eq!(cpu.regs.f, 0xa0);
}

#[test]
fn dec_wraps_and_keeps_carry() {
    let mut cpu = alu_cpu(&[0x3d]);
    cpu.regs.a = 0x00;
    assert_eq!(cpu.step(), Ok(4));
    assert_eq!(cpu.regs.a, 0xff);
    // Subtract and HalfCarry set; Carry untouched (clear).
    assert_eq!(cpu.regs.f, 0x60);
}

#[test]
fn daa_corrects_after_add() {
    let mut cpu = alu_cpu(&[0xc6, 0x01, 0x27]);
    cpu.regs.a = 0x09;
    assert_eq!(cpu.step(), Ok(8));
    assert_eq!(cpu.regs.a, 0x0a);
    assert_eq!(cpu.step(), Ok(4));
    assert_eq!(cpu.regs.a, 0x10);
    // No carry out of the correction.
    assert_eq!(cpu.regs.f & 0x10, 0);
}

#[test]
fn daa_high_correction_sets_carry() {
    // 0x99 + 0x01 = 0x9A; DAA turns it into 0x00 with carry: 99 + 1 = 100.
    let mut cpu = alu_cpu(&[0xc6, 0x01, 0x27]);
    cpu.regs.a = 0x99;
    assert_eq!(cpu.step(), Ok(8));
    assert_eq!(cpu.regs.a, 0x9a);
    assert_eq!(cpu.step(), Ok(4));
    assert_eq!(cpu.regs.a, 0x00);
    assert_eq!(cpu.regs.f, 0x90);
}

#[test]
fn adc_includes_carry_in() {
    let mut cpu = alu_cpu(&[0xce, 0x00]);
    cpu.regs.a = 0x10;
    cpu.regs.f = 0x10;
    assert_eq!(cpu.step(), Ok(8));
    assert_eq!(cpu.regs.a, 0x11);
    assert_eq!(cpu.regs.f, 0x00);
}

#[test]
fn sub_sets_borrow_flags() {
    let mut cpu = alu_cpu(&[0xd6, 0x01]);
    cpu.regs.a = 0x10;
    assert_eq!(cpu.step(), Ok(8));
    assert_eq!(cpu.regs.a, 0x0f);
    // Subtract and the nibble borrow; no full borrow.
    assert_eq!(cpu.regs.f, 0x60);
}

#[test]
fn sbc_borrows_through_carry() {
    let mut cpu = alu_cpu(&[0xde, 0x00]);
    cpu.regs.a = 0x00;
    cpu.regs.f = 0x10;
    assert_eq!(cpu.step(), Ok(8));
    assert_eq!(cpu.regs.a, 0xff);
    // Full and nibble borrow, Subtract set.
    assert_eq!(cpu.regs.f, 0x70);
}

#[test]
fn cp_restores_accumulator() {
    let mut cpu = alu_cpu(&[0xfe, 0x10]);
    cpu.regs.a = 0x10;
    assert_eq!(cpu.step(), Ok(8));
    assert_eq!(cpu.regs.a, 0x10);
    assert_eq!(cpu.regs.f, 0xc0);
}

#[test]
fn add16_uses_bit11_and_bit15_carry() {
    let mut cpu = alu_cpu(&[0x09]);
    cpu.regs.h = 0x0f;
    cpu.regs.l = 0xff;
    cpu.regs.b = 0x00;
    cpu.regs.c = 0x01;
    cpu.regs.f = 0x80;
    assert_eq!(cpu.step(), Ok(8));
    assert_eq!(cpu.regs.h, 0x10);
    assert_eq!(cpu.regs.l, 0x00);
    // HalfCarry from bit 11; Zero kept from before; no bit-15 carry.
    assert_eq!(cpu.regs.f, 0xa0);
}

#[test]
fn addsp_flags_come_from_low_byte() {
    let mut cpu = alu_cpu(&[0xe8, 0xff]);
    cpu.regs.sp = 0x0005;
    assert_eq!(cpu.step(), Ok(16));
    assert_eq!(cpu.regs.sp, 0x0004);
    // Adding 0xFF to low byte 0x05 carries out of bits 3 and 7.
    assert_eq!(cpu.regs.f, 0x30);
}

#[test]
fn ldhl_writes_hl_with_addsp_flags() {
    let mut cpu = alu_cpu(&[0xf8, 0x08]);
    cpu.regs.sp = 0xfff8;
    assert_eq!(cpu.step(), Ok(12));
    assert_eq!(cpu.regs.h, 0x00);
    assert_eq!(cpu.regs.l, 0x00);
    assert_eq!(cpu.regs.f, 0x30);
}

#[test]
fn cpl_sets_subtract_and_half_carry() {
    let mut cpu = alu_cpu(&[0x2f]);
    cpu.regs.a = 0x0f;
    assert_eq!(cpu.step(), Ok(4));
    assert_eq!(cpu.regs.a, 0xf0);
    assert_eq!(cpu.regs.f, 0x60);
}

#[test]
fn scf_and_ccf_drive_carry() {
    let mut cpu = alu_cpu(&[0x37, 0x3f, 0x3f]);
    assert_eq!(cpu.step(), Ok(4));
    assert_eq!(cpu.regs.f, 0x10);
    assert_eq!(cpu.step(), Ok(4));
    assert_eq!(cpu.regs.f, 0x00);
    assert_eq!(cpu.step(), Ok(4));
    assert_eq!(cpu.regs.f, 0x10);
}

#[test]
fn store16_af_masks_low_nibble() {
    let mut cpu = alu_cpu(&[]);
    Reg16::AF.store(&mut cpu, 0x1234);
    assert_eq!(cpu.regs.a, 0x12);
    assert_eq!(cpu.regs.f, 0x30);
}

#[test]
fn pop_af_masks_low_nibble() {
    let mut cpu = alu_cpu(&[0xf1]);
    cpu.regs.sp = 0xfffc;
    cpu.mem.storeb(0xfffc, 0xff);
    cpu.mem.storeb(0xfffd, 0x12);
    assert_eq!(cpu.step(), Ok(12));
    assert_eq!(cpu.regs.a, 0x12);
    assert_eq!(cpu.regs.f, 0xf0);
}

#[test]
fn daa_corrects_after_sub() {
    // 0x42 - 0x05 = 0x3D with a nibble borrow; DAA yields BCD 0x37.
    let mut cpu = alu_cpu(&[0xd6, 0x05, 0x27]);
    cpu.regs.a = 0x42;
    assert_eq!(cpu.step(), Ok(8));
    assert_eq!(cpu.regs.a, 0x3d);
    assert_eq!(cpu.step(), Ok(4));
    assert_eq!(cpu.regs.a, 0x37);
    // Subtract stays set, Carry stays clear.
    assert_eq!(cpu.regs.f, 0x40);
}

#[test]
fn flag_helpers_set_and_clear() {
    let mut cpu = alu_cpu(&[]);
    cpu.set_flag(ZERO_FLAG, true);
    assert!(cpu.get_flag(ZERO_FLAG));
    assert!(!cpu.get_flag(CARRY_FLAG));
    cpu.set_flag(CARRY_FLAG, true);
    cpu.set_flag(ZERO_FLAG, false);
    assert_eq!(cpu.regs.f, 0x10);
}

#[test]
fn register_to_register_load_block() {
    // LD D,E followed by LD A,(HL) out of the 0x40-0x7F block.
    let mut cpu = alu_cpu(&[0x53, 0x7e]);
    cpu.regs.e = 0x5a;
    cpu.regs.h = 0xc0;
    cpu.mem.storeb(0xc000, 0x33);
    assert_eq!(cpu.step(), Ok(4));
    assert_eq!(cpu.regs.d, 0x5a);
    assert_eq!(cpu.step(), Ok(12));
    assert_eq!(cpu.regs.a, 0x33);
}

#[test]
fn inc16_dec16_wrap_without_flags() {
    let mut cpu = alu_cpu(&[0x03, 0x0b, 0x0b]);
    cpu.regs.b = 0xff;
    cpu.regs.c = 0xff;
    cpu.regs.f = 0x10;
    assert_eq!(cpu.step(), Ok(8));
    assert_eq!((cpu.regs.b, cpu.regs.c), (0x00, 0x00));
    assert_eq!(cpu.step(), Ok(8));
    assert_eq!((cpu.regs.b, cpu.regs.c), (0xff, 0xff));
    assert_eq!(cpu.step(), Ok(8));
    assert_eq!((cpu.regs.b, cpu.regs.c), (0xff, 0xfe));
    // 16-bit increments and decrements touch no flags.
    assert_eq!(cpu.regs.f, 0x10);
}
