//! End-to-end step-protocol behaviour: fetch/execute, interrupt
//! dispatch, the halted state, and the fatal path.

use lr35902::cpu::{Cpu, Fault};
use lr35902::mem::{FlatMem, Mem};

fn cpu_with(prog: &[u8]) -> Cpu<FlatMem> {
    let mut m = FlatMem::new();
    let mut i = 0;
    while i < prog.len() {
        m.storeb(i as u16, prog[i]);
        i += 1;
    }
    Cpu::new(m)
}

#[test]
fn ld_a_imm_end_to_end() {
    let mut cpu = cpu_with(&[0x3e, 0x7f]);
    let r = cpu.step();
    assert_eq!(r, Ok(8));
    assert_eq!(cpu.regs.a, 0x7f);
    assert_eq!(cpu.regs.pc, 0x0002);
    assert_eq!(cpu.cycles, 8);
}

#[test]
fn add_a_b_with_carry_out() {
    let mut cpu = cpu_with(&[0x80]);
    cpu.regs.a = 0xff;
    cpu.regs.b = 0x01;
    let r = cpu.step();
    assert_eq!(r, Ok(4));
    assert_eq!(cpu.regs.a, 0x00);
    // Zero, HalfCarry and Carry set; Subtract clear.
    assert_eq!(cpu.regs.f, 0xb0);
}

#[test]
fn interrupt_priority_takes_lowest_bit() {
    let mut cpu = cpu_with(&[]);
    cpu.mem.storeb(0xffff, 0xff);
    cpu.mem.storeb(0xff0f, 0b0000_0110);
    cpu.ime = true;
    cpu.regs.sp = 0xfffe;
    let r = cpu.step();
    assert_eq!(r, Ok(20));
    assert_eq!(cpu.regs.pc, 0x0048);
    assert!(!cpu.ime);
    // Only bit 1 of the request register is cleared.
    assert_eq!(cpu.mem.loadb(0xff0f), 0b0000_0100);
    // The old PC was pushed.
    assert_eq!(cpu.regs.sp, 0xfffc);
    assert_eq!(cpu.mem.loadb(0xfffc), 0x00);
    assert_eq!(cpu.mem.loadb(0xfffd), 0x00);
}

#[test]
fn halted_wakes_without_dispatch() {
    let mut cpu = cpu_with(&[0x00]);
    cpu.halted = true;
    cpu.ime = false;
    cpu.mem.storeb(0xff0f, 0x01);
    let r = cpu.step();
    // The NOP at PC runs; no vector is entered.
    assert_eq!(r, Ok(4));
    assert!(!cpu.halted);
    assert_eq!(cpu.regs.pc, 0x0001);
    assert_eq!(cpu.mem.loadb(0xff0f), 0x01);
}

#[test]
fn halted_idles_without_request() {
    let mut cpu = cpu_with(&[0x00]);
    cpu.halted = true;
    let r = cpu.step();
    assert_eq!(r, Ok(4));
    assert!(cpu.halted);
    assert_eq!(cpu.regs.pc, 0x0000);
    assert_eq!(cpu.cycles, 4);
}

#[test]
fn halt_instruction_halts() {
    let mut cpu = cpu_with(&[0x76]);
    let r = cpu.step();
    assert_eq!(r, Ok(4));
    assert!(cpu.halted);
}

#[test]
fn undefined_opcode_reports_fault() {
    let mut cpu = cpu_with(&[0xd3]);
    let r = cpu.step();
    assert_eq!(r, Err(Fault { opcode: 0xd3, addr: 0x0000 }));
}

#[test]
fn ei_di_toggle_master_enable() {
    let mut cpu = cpu_with(&[0xfb, 0xf3]);
    assert!(!cpu.ime);
    assert_eq!(cpu.step(), Ok(4));
    assert!(cpu.ime);
    assert_eq!(cpu.step(), Ok(4));
    assert!(!cpu.ime);
}

#[test]
fn jp_imm_sets_pc() {
    let mut cpu = cpu_with(&[0xc3, 0x34, 0x12]);
    let r = cpu.step();
    assert_eq!(r, Ok(12));
    assert_eq!(cpu.regs.pc, 0x1234);
}

#[test]
fn jr_negative_offset_wraps_back() {
    let mut cpu = cpu_with(&[0x18, 0xfe]);
    let r = cpu.step();
    assert_eq!(r, Ok(8));
    // Two bytes fetched, then minus two: back at the start.
    assert_eq!(cpu.regs.pc, 0x0000);
}

#[test]
fn jr_condition_false_falls_through() {
    let mut cpu = cpu_with(&[0x28, 0x10]);
    // Zero flag clear: JR Z does not take the branch.
    let r = cpu.step();
    assert_eq!(r, Ok(8));
    assert_eq!(cpu.regs.pc, 0x0002);
}

#[test]
fn push_pop_roundtrip() {
    // LD BC,0x1234; PUSH BC; POP DE
    let mut cpu = cpu_with(&[0x01, 0x34, 0x12, 0xc5, 0xd1]);
    cpu.regs.sp = 0xfffe;
    assert_eq!(cpu.step(), Ok(12));
    assert_eq!(cpu.step(), Ok(16));
    assert_eq!(cpu.mem.loadb(0xfffc), 0x34);
    assert_eq!(cpu.mem.loadb(0xfffd), 0x12);
    assert_eq!(cpu.step(), Ok(12));
    assert_eq!(cpu.regs.d, 0x12);
    assert_eq!(cpu.regs.e, 0x34);
    assert_eq!(cpu.regs.sp, 0xfffe);
}

#[test]
fn call_and_ret_roundtrip() {
    // CALL 0x0010 ... at 0x0010: RET
    let mut cpu = cpu_with(&[0xcd, 0x10, 0x00]);
    cpu.mem.storeb(0x0010, 0xc9);
    cpu.regs.sp = 0xfffe;
    assert_eq!(cpu.step(), Ok(12));
    assert_eq!(cpu.regs.pc, 0x0010);
    assert_eq!(cpu.mem.loadb(0xfffc), 0x03);
    assert_eq!(cpu.step(), Ok(8));
    assert_eq!(cpu.regs.pc, 0x0003);
    assert_eq!(cpu.regs.sp, 0xfffe);
}

#[test]
fn rst_jumps_to_vector() {
    let mut cpu = cpu_with(&[0xef]);
    cpu.regs.sp = 0xfffe;
    let r = cpu.step();
    assert_eq!(r, Ok(32));
    assert_eq!(cpu.regs.pc, 0x0028);
    assert_eq!(cpu.mem.loadb(0xfffc), 0x01);
    assert_eq!(cpu.mem.loadb(0xfffd), 0x00);
}

#[test]
fn reti_pops_pc_and_enables_interrupts() {
    let mut cpu = cpu_with(&[0xd9]);
    cpu.regs.sp = 0xfffc;
    cpu.mem.storeb(0xfffc, 0x34);
    cpu.mem.storeb(0xfffd, 0x12);
    let r = cpu.step();
    assert_eq!(r, Ok(8));
    assert_eq!(cpu.regs.pc, 0x1234);
    assert!(cpu.ime);
    assert_eq!(cpu.regs.sp, 0xfffe);
}

#[test]
fn ldh_writes_high_page() {
    let mut cpu = cpu_with(&[0xe0, 0x80]);
    cpu.regs.a = 0x42;
    let r = cpu.step();
    assert_eq!(r, Ok(8));
    assert_eq!(cpu.mem.loadb(0xff80), 0x42);
}

#[test]
fn ld_hl_minus_decrements_pair() {
    // LD (HL-),A
    let mut cpu = cpu_with(&[0x32]);
    cpu.regs.h = 0xc0;
    cpu.regs.l = 0x00;
    cpu.regs.a = 0x99;
    let r = cpu.step();
    assert_eq!(r, Ok(12));
    assert_eq!(cpu.mem.loadb(0xc000), 0x99);
    assert_eq!(cpu.regs.h, 0xbf);
    assert_eq!(cpu.regs.l, 0xff);
}

#[test]
fn ld_imm16_indirect_stores_sp() {
    // LD (a16),SP
    let mut cpu = cpu_with(&[0x08, 0x00, 0xc0]);
    cpu.regs.sp = 0xbeef;
    let r = cpu.step();
    assert_eq!(r, Ok(20));
    assert_eq!(cpu.mem.loadb(0xc000), 0xef);
    assert_eq!(cpu.mem.loadb(0xc001), 0xbe);
}

#[test]
fn mem_access_cycle_costs() {
    // LD B,(HL): one base access plus a register-pair-indirect read.
    let mut cpu = cpu_with(&[0x46]);
    assert_eq!(cpu.step(), Ok(12));
    // INC (HL): read-modify-write through the pair.
    let mut cpu2 = cpu_with(&[0x34]);
    cpu2.regs.h = 0xc0;
    assert_eq!(cpu2.step(), Ok(20));
    assert_eq!(cpu2.mem.loadb(0xc000), 0x01);
}

#[test]
fn stop_consumes_its_byte() {
    let mut cpu = cpu_with(&[0x10, 0x00]);
    assert_eq!(cpu.step(), Ok(4));
    assert_eq!(cpu.regs.pc, 0x0002);
}

#[test]
fn call_condition_false_skips_push() {
    // CALL Z,a16 with Zero clear: the address bytes are still consumed.
    let mut cpu = cpu_with(&[0xcc, 0x00, 0x10]);
    cpu.regs.sp = 0xfffe;
    assert_eq!(cpu.step(), Ok(12));
    assert_eq!(cpu.regs.pc, 0x0003);
    assert_eq!(cpu.regs.sp, 0xfffe);
}

#[test]
fn dispatch_requires_enable_bit() {
    // A request whose enable bit is clear does not dispatch.
    let mut cpu = cpu_with(&[0x00]);
    cpu.mem.storeb(0xffff, 0x00);
    cpu.mem.storeb(0xff0f, 0x01);
    cpu.ime = true;
    assert_eq!(cpu.step(), Ok(4));
    assert_eq!(cpu.regs.pc, 0x0001);
    assert!(cpu.ime);
}

#[test]
fn ld_hl_plus_increments_pair() {
    // LD A,(HL+)
    let mut cpu = cpu_with(&[0x2a]);
    cpu.regs.h = 0xc0;
    cpu.regs.l = 0xff;
    cpu.mem.storeb(0xc0ff, 0x77);
    assert_eq!(cpu.step(), Ok(12));
    assert_eq!(cpu.regs.a, 0x77);
    assert_eq!((cpu.regs.h, cpu.regs.l), (0xc1, 0x00));
}

#[test]
fn ldh_reads_through_register_c() {
    // LD A,($FF00+C)
    let mut cpu = cpu_with(&[0xf2]);
    cpu.regs.c = 0x80;
    cpu.mem.storeb(0xff80, 0x5c);
    assert_eq!(cpu.step(), Ok(8));
    assert_eq!(cpu.regs.a, 0x5c);
}
