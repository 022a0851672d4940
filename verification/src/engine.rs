//! The execution engine: `Cpu` implements the decoder capability with
//! handlers that mutate machine state, compute flags and return elapsed
//! machine cycles, plus the `step` protocol that resolves the halted
//! state and interrupt dispatch before decoding.

use vstd::prelude::*;

use crate::addr::{Addr16, Addr8, Cond};
use crate::cpu::{spec_mem_loadb, spec_mem_storeb, view_wf, Cpu, CpuView, Fault};
use crate::cpu::{IRQ_ENABLE_ADDR, IRQ_REQUEST_ADDR};
use crate::instr::{decode, spec_decode, Decoder, Instr};
use crate::mem::Mem;
use crate::regs::{ADD_SUB_FLAG, CARRY_FLAG, HALF_CARRY_FLAG, ZERO_FLAG};
use crate::regs::{flags, Reg16, Regs};
use crate::sem::{alu_add, alu_addsp, alu_sub, push_state, sign_ext16};
use crate::sem::{sem_adc, sem_add16, sem_add8, sem_addsp, sem_and, sem_bit, sem_ccf, sem_cp};
use crate::sem::{sem_cpl, sem_daa, sem_dec16, sem_dec8, sem_di, sem_ei, sem_halt, sem_inc16};
use crate::sem::{sem_inc8, sem_jp, sem_jr, sem_call, sem_ld16, sem_ld8, sem_ldh, sem_ldhl};
use crate::sem::{sem_nop, sem_or, sem_pop, sem_push, sem_res, sem_ret, sem_reti, sem_rl};
use crate::sem::{sem_rla, sem_rlc, sem_rlca, sem_rr, sem_rra, sem_rrc, sem_rrca, sem_rst};
use crate::sem::{sem_sbc, sem_scf, sem_setbit, sem_sla, sem_sra, sem_srl, sem_stop, sem_sub};
use crate::sem::{sem_swap, sem_undef, sem_xor};

verus! {

/// Executable form of `sign_ext16`.
pub fn sign_ext(rel: i8) -> (r: u16)
    ensures
        r == sign_ext16(rel),
{
    if rel >= 0 {
        rel as u16
    } else {
        (rel as i32 + 0x10000) as u16
    }
}

/// The index of the lowest set bit, or 8 when no bit is set. The
/// lowest pending interrupt bit is the one with the highest priority.
pub open spec fn spec_lowest_set_bit(x: u8) -> u8 {
    if x & 0x01 != 0 {
        0
    } else if x & 0x02 != 0 {
        1
    } else if x & 0x04 != 0 {
        2
    } else if x & 0x08 != 0 {
        3
    } else if x & 0x10 != 0 {
        4
    } else if x & 0x20 != 0 {
        5
    } else if x & 0x40 != 0 {
        6
    } else if x & 0x80 != 0 {
        7
    } else {
        8
    }
}

/// Executable form of `spec_lowest_set_bit`.
pub fn lowest_set_bit(x: u8) -> (r: u8)
    ensures
        r == spec_lowest_set_bit(x),
{
    if x & 0x01 != 0 {
        0
    } else if x & 0x02 != 0 {
        1
    } else if x & 0x04 != 0 {
        2
    } else if x & 0x08 != 0 {
        3
    } else if x & 0x10 != 0 {
        4
    } else if x & 0x20 != 0 {
        5
    } else if x & 0x40 != 0 {
        6
    } else if x & 0x80 != 0 {
        7
    } else {
        8
    }
}

impl<M: Mem> Cpu<M> {
    /// Addition into the accumulator with the add-family flag rule.
    fn add_(&mut self, a: u8, b: u8, cin: u8)
        requires
            old(self).wf(),
            cin <= 1,
        ensures
            final(self).wf(),
            ({
                let (r, f) = alu_add(a, b, cin);
                final(self)@ == (CpuView {
                    regs: Regs { a: r, f, ..old(self).regs },
                    ..old(self)@
                })
            }),
    {
        let sum: u32 = a as u32 + b as u32 + cin as u32;
        let r = (sum % 256) as u8;
        let h = (a & 0xf) as u32 + (b & 0xf) as u32 + cin as u32 >= 0x10;
        let cy = sum >= 0x100;
        self.regs.a = r;
        self.regs.f = flags(r == 0, false, h, cy);
    }

    /// Subtraction into the accumulator with the subtract-family flag
    /// rule: HalfCarry is the bit-4 borrow, Carry the full borrow.
    fn sub_(&mut self, a: u8, b: u8, cin: u8)
        requires
            old(self).wf(),
            cin <= 1,
        ensures
            final(self).wf(),
            ({
                let (r, f) = alu_sub(a, b, cin);
                final(self)@ == (CpuView {
                    regs: Regs { a: r, f, ..old(self).regs },
                    ..old(self)@
                })
            }),
    {
        let diff: u32 = 256 + a as u32 - b as u32 - cin as u32;
        let r = (diff % 256) as u8;
        let h = ((a & 0xf) as u32) < (b & 0xf) as u32 + cin as u32;
        let cy = (a as u32) < b as u32 + cin as u32;
        self.regs.a = r;
        self.regs.f = flags(r == 0, true, h, cy);
    }

    /// Signed-displacement addition to SP: sets the flags and returns
    /// the sum; the caller decides where the sum lands.
    fn addsp_(&mut self, rel: i8) -> (r: u16)
        requires
            old(self).wf(),
        ensures
            final(self).wf(),
            ({
                let (r2, f) = alu_addsp(old(self).regs.sp, sign_ext16(rel));
                r == r2 && final(self)@ == (CpuView {
                    regs: Regs { f, ..old(self).regs },
                    ..old(self)@
                })
            }),
    {
        let sp = self.regs.sp;
        let off = sign_ext(rel);
        let h = (sp & 0xf) as u32 + (off & 0xf) as u32 >= 0x10;
        let cy = (sp & 0xff) as u32 + (off & 0xff) as u32 >= 0x100;
        self.regs.f = flags(false, false, h, cy);
        sp.wrapping_add(off)
    }
}

impl<M: Mem> Decoder<Result<u8, Fault>> for Cpu<M> {
    type DV = CpuView<M::MV>;

    open spec fn dview(&self) -> CpuView<M::MV> {
        self@
    }

    open spec fn dready(v: CpuView<M::MV>) -> bool {
        view_wf::<M>(v)
    }

    open spec fn fetch_model(v: CpuView<M::MV>) -> (CpuView<M::MV>, u8) {
        let (v1, b) = spec_mem_loadb::<M>(v, v.regs.pc);
        (CpuView { regs: Regs { pc: v.regs.pc.wrapping_add(1), ..v1.regs }, ..v1 }, b)
    }

    open spec fn handle_model(v: CpuView<M::MV>, i: Instr) -> (CpuView<M::MV>, Result<u8, Fault>) {
        match i {
            Instr::Nop => sem_nop::<M>(v),
            Instr::Ei => sem_ei::<M>(v),
            Instr::Di => sem_di::<M>(v),
            Instr::Halt => sem_halt::<M>(v),
            Instr::Stop(val) => sem_stop::<M>(v, val),
            Instr::Jp(cond, addr) => sem_jp::<M>(v, cond, addr),
            Instr::Jr(cond, rel) => sem_jr::<M>(v, cond, rel),
            Instr::Call(cond, addr) => sem_call::<M>(v, cond, addr),
            Instr::Rst(addr) => sem_rst::<M>(v, addr),
            Instr::Ret(cond) => sem_ret::<M>(v, cond),
            Instr::Reti => sem_reti::<M>(v),
            Instr::Ld8(dst, src) => sem_ld8::<M>(v, dst, src),
            Instr::Ld16(dst, src) => sem_ld16::<M>(v, dst, src),
            Instr::Ldh(dst, src) => sem_ldh::<M>(v, dst, src),
            Instr::Ldhl(rel) => sem_ldhl::<M>(v, rel),
            Instr::Push(src) => sem_push::<M>(v, src),
            Instr::Pop(dst) => sem_pop::<M>(v, dst),
            Instr::Add8(src) => sem_add8::<M>(v, src),
            Instr::Add16(dst, src) => sem_add16::<M>(v, dst, src),
            Instr::AddSp(rel) => sem_addsp::<M>(v, rel),
            Instr::Adc(src) => sem_adc::<M>(v, src),
            Instr::Sub(src) => sem_sub::<M>(v, src),
            Instr::Sbc(src) => sem_sbc::<M>(v, src),
            Instr::Inc8(dst) => sem_inc8::<M>(v, dst),
            Instr::Inc16(dst) => sem_inc16::<M>(v, dst),
            Instr::Dec8(dst) => sem_dec8::<M>(v, dst),
            Instr::Dec16(dst) => sem_dec16::<M>(v, dst),
            Instr::And(src) => sem_and::<M>(v, src),
            Instr::Or(src) => sem_or::<M>(v, src),
            Instr::Xor(src) => sem_xor::<M>(v, src),
            Instr::Cp(src) => sem_cp::<M>(v, src),
            Instr::Cpl => sem_cpl::<M>(v),
            Instr::Scf => sem_scf::<M>(v),
            Instr::Ccf => sem_ccf::<M>(v),
            Instr::Daa => sem_daa::<M>(v),
            Instr::Rlca => sem_rlca::<M>(v),
            Instr::Rla => sem_rla::<M>(v),
            Instr::Rrca => sem_rrca::<M>(v),
            Instr::Rra => sem_rra::<M>(v),
            Instr::Rlc(dst) => sem_rlc::<M>(v, dst),
            Instr::Rl(dst) => sem_rl::<M>(v, dst),
            Instr::Rrc(dst) => sem_rrc::<M>(v, dst),
            Instr::Rr(dst) => sem_rr::<M>(v, dst),
            Instr::Sla(dst) => sem_sla::<M>(v, dst),
            Instr::Sra(dst) => sem_sra::<M>(v, dst),
            Instr::Srl(dst) => sem_srl::<M>(v, dst),
            Instr::Bit(b, src) => sem_bit::<M>(v, b, src),
            Instr::Res(b, dst) => sem_res::<M>(v, b, dst),
            Instr::SetBit(b, dst) => sem_setbit::<M>(v, b, dst),
            Instr::Swap(dst) => sem_swap::<M>(v, dst),
            Instr::Undef(opcode) => sem_undef::<M>(v, opcode),
        }
    }

    fn fetch(&mut self) -> (b: u8) {
        let pc = self.regs.pc;
        let b = self.mem_loadb(pc);
        self.regs.pc = pc.wrapping_add(1);
        b
    }

    fn nop(&mut self) -> (r: Result<u8, Fault>) {
        Ok(4)
    }

    fn ei(&mut self) -> (r: Result<u8, Fault>) {
        self.ime = true;
        Ok(4)
    }

    fn di(&mut self) -> (r: Result<u8, Fault>) {
        self.ime = false;
        Ok(4)
    }

    fn halt(&mut self) -> (r: Result<u8, Fault>) {
        self.halted = true;
        Ok(4)
    }

    fn stop(&mut self, val: u8) -> (r: Result<u8, Fault>) {
        Ok(4)
    }

    fn jp(&mut self, cond: Cond, addr: Addr16) -> (r: Result<u8, Fault>) {
        if cond.eval(self) {
            let _ = self.ld16(Addr16::Reg16Dir(Reg16::PC), addr);
        }
        Ok(4 + addr.cycles())
    }

    fn jr(&mut self, cond: Cond, rel: i8) -> (r: Result<u8, Fault>) {
        if cond.eval(self) {
            let off = sign_ext(rel);
            self.regs.pc = self.regs.pc.wrapping_add(off);
        }
        Ok(8)
    }

    fn call(&mut self, cond: Cond, addr: Addr16) -> (r: Result<u8, Fault>) {
        if cond.eval(self) {
            let _ = self.push(Addr16::Reg16Dir(Reg16::PC));
            let _ = self.ld16(Addr16::Reg16Dir(Reg16::PC), addr);
        }
        Ok(12)
    }

    fn rst(&mut self, addr: u8) -> (r: Result<u8, Fault>) {
        let _ = self.call(Cond::CondNone, Addr16::Imm16(addr as u16));
        Ok(32)
    }

    fn ret(&mut self, cond: Cond) -> (r: Result<u8, Fault>) {
        if cond.eval(self) {
            let _ = self.pop(Addr16::Reg16Dir(Reg16::PC));
        }
        Ok(8)
    }

    fn reti(&mut self) -> (r: Result<u8, Fault>) {
        let _ = self.pop(Addr16::Reg16Dir(Reg16::PC));
        let _ = self.ei();
        Ok(8)
    }

    fn ld8(&mut self, dst: Addr8, src: Addr8) -> (r: Result<u8, Fault>) {
        let v = src.load(self);
        dst.store(self, v);
        Ok(4 + dst.cycles() + src.cycles())
    }

    fn ld16(&mut self, dst: Addr16, src: Addr16) -> (r: Result<u8, Fault>) {
        let v = src.load(self);
        dst.store(self, v);
        Ok(4 + dst.cycles() + src.cycles())
    }

    fn ldh(&mut self, dst: Addr8, src: Addr8) -> (r: Result<u8, Fault>) {
        let _ = self.ld8(dst, src);
        Ok(4 + dst.cycles() + src.cycles())
    }

    fn ldhl(&mut self, rel: i8) -> (r: Result<u8, Fault>) {
        let v = self.addsp_(rel);
        self.regs.h = (v / 256) as u8;
        self.regs.l = (v % 256) as u8;
        Ok(12)
    }

    fn push(&mut self, src: Addr16) -> (r: Result<u8, Fault>) {
        self.regs.sp = self.regs.sp.wrapping_sub(2);
        let v = src.load(self);
        let sp = self.regs.sp;
        self.mem_storew(sp, v);
        Ok(16 + src.cycles())
    }

    fn pop(&mut self, dst: Addr16) -> (r: Result<u8, Fault>) {
        let sp = self.regs.sp;
        let v = self.mem_loadw(sp);
        dst.store(self, v);
        self.regs.sp = self.regs.sp.wrapping_add(2);
        Ok(12 + dst.cycles())
    }

    fn add8(&mut self, src: Addr8) -> (r: Result<u8, Fault>) {
        let a = self.regs.a;
        let b = src.load(self);
        self.add_(a, b, 0);
        Ok(4 + src.cycles())
    }

    fn add16(&mut self, dst: Addr16, src: Addr16) -> (r: Result<u8, Fault>) {
        let v1 = dst.load(self);
        let v2 = src.load(self);
        let sum = v1.wrapping_add(v2);
        dst.store(self, sum);
        let h = (v1 & 0xfff) as u32 + (v2 & 0xfff) as u32 >= 0x1000;
        let cy = v1 as u32 + v2 as u32 >= 0x10000;
        let z = self.get_flag(ZERO_FLAG);
        self.regs.f = flags(z, false, h, cy);
        Ok(8)
    }

    fn addsp(&mut self, rel: i8) -> (r: Result<u8, Fault>) {
        let v = self.addsp_(rel);
        self.regs.sp = v;
        Ok(16)
    }

    fn adc(&mut self, src: Addr8) -> (r: Result<u8, Fault>) {
        let a = self.regs.a;
        let b = src.load(self);
        let cin: u8 = if self.get_flag(CARRY_FLAG) {
            1
        } else {
            0
        };
        self.add_(a, b, cin);
        Ok(4 + src.cycles())
    }

    fn sub(&mut self, src: Addr8) -> (r: Result<u8, Fault>) {
        let a = self.regs.a;
        let b = src.load(self);
        self.sub_(a, b, 0);
        Ok(4 + src.cycles())
    }

    fn sbc(&mut self, src: Addr8) -> (r: Result<u8, Fault>) {
        let a = self.regs.a;
        let b = src.load(self);
        let cin: u8 = if self.get_flag(CARRY_FLAG) {
            1
        } else {
            0
        };
        self.sub_(a, b, cin);
        Ok(4 + src.cycles())
    }

    fn inc8(&mut self, dst: Addr8) -> (r: Result<u8, Fault>) {
        let v = dst.load(self);
        let res = v.wrapping_add(1);
        dst.store(self, res);
        let cy = self.get_flag(CARRY_FLAG);
        self.regs.f = flags(res == 0, false, v & 0xf == 0xf, cy);
        Ok(4 + 2 * dst.cycles())
    }

    fn inc16(&mut self, dst: Addr16) -> (r: Result<u8, Fault>) {
        let v = dst.load(self);
        dst.store(self, v.wrapping_add(1));
        Ok(8)
    }

    fn dec8(&mut self, dst: Addr8) -> (r: Result<u8, Fault>) {
        let v = dst.load(self);
        let res = v.wrapping_sub(1);
        dst.store(self, res);
        let cy = self.get_flag(CARRY_FLAG);
        self.regs.f = flags(res == 0, true, res & 0xf == 0xf, cy);
        Ok(4 + 2 * dst.cycles())
    }

    fn dec16(&mut self, dst: Addr16) -> (r: Result<u8, Fault>) {
        let v = dst.load(self);
        dst.store(self, v.wrapping_sub(1));
        Ok(8)
    }

    fn and(&mut self, src: Addr8) -> (r: Result<u8, Fault>) {
        let a = self.regs.a;
        let b = src.load(self);
        let res = a & b;
        self.regs.a = res;
        self.regs.f = flags(res == 0, false, true, false);
        Ok(4 + src.cycles())
    }

    fn or(&mut self, src: Addr8) -> (r: Result<u8, Fault>) {
        let a = self.regs.a;
        let b = src.load(self);
        let res = a | b;
        self.regs.a = res;
        self.regs.f = flags(res == 0, false, false, false);
        Ok(4 + src.cycles())
    }

    fn xor(&mut self, src: Addr8) -> (r: Result<u8, Fault>) {
        let a = self.regs.a;
        let b = src.load(self);
        let res = a ^ b;
        self.regs.a = res;
        self.regs.f = flags(res == 0, false, false, false);
        Ok(4 + src.cycles())
    }

    fn cp(&mut self, src: Addr8) -> (r: Result<u8, Fault>) {
        let a = self.regs.a;
        let b = src.load(self);
        self.sub_(a, b, 0);
        self.regs.a = a;
        Ok(4 + src.cycles())
    }

    fn cpl(&mut self) -> (r: Result<u8, Fault>) {
        let z = self.get_flag(ZERO_FLAG);
        let cy = self.get_flag(CARRY_FLAG);
        self.regs.a = !self.regs.a;
        self.regs.f = flags(z, true, true, cy);
        Ok(4)
    }

    fn scf(&mut self) -> (r: Result<u8, Fault>) {
        let z = self.get_flag(ZERO_FLAG);
        self.regs.f = flags(z, false, false, true);
        Ok(4)
    }

    fn ccf(&mut self) -> (r: Result<u8, Fault>) {
        let z = self.get_flag(ZERO_FLAG);
        let cy = self.get_flag(CARRY_FLAG);
        self.regs.f = flags(z, false, false, !cy);
        Ok(4)
    }

    fn daa(&mut self) -> (r: Result<u8, Fault>) {
        let n = self.get_flag(ADD_SUB_FLAG);
        let hc = self.get_flag(HALF_CARRY_FLAG);
        let cy = self.get_flag(CARRY_FLAG);
        let mut a: u16 = self.regs.a as u16;
        if n {
            if hc {
                a = a.wrapping_sub(0x06) & 0xff;
            }
            if cy {
                a = a.wrapping_sub(0x60);
            }
        } else {
            if hc || (a & 0xf) > 9 {
                a = a + 0x06;
            }
            if cy || a > 0x9f {
                a = a + 0x60;
            }
        }
        let carry_out = cy || (a & 0x100) != 0;
        let res = (a & 0xff) as u8;
        self.regs.a = res;
        self.regs.f = flags(res == 0, n, false, carry_out);
        Ok(4)
    }

    fn rlca(&mut self) -> (r: Result<u8, Fault>) {
        let v = self.regs.a;
        self.regs.a = (v << 1) | ((v & 0x80) >> 7);
        self.regs.f = flags(false, false, false, v & 0x80 != 0);
        Ok(4)
    }

    fn rla(&mut self) -> (r: Result<u8, Fault>) {
        let v = self.regs.a;
        let cin: u8 = if self.get_flag(CARRY_FLAG) {
            1
        } else {
            0
        };
        self.regs.a = (v << 1) | cin;
        self.regs.f = flags(false, false, false, v & 0x80 != 0);
        Ok(4)
    }

    fn rrca(&mut self) -> (r: Result<u8, Fault>) {
        let v = self.regs.a;
        self.regs.a = (v >> 1) | ((v & 0x01) << 7);
        self.regs.f = flags(false, false, false, v & 0x01 != 0);
        Ok(4)
    }

    fn rra(&mut self) -> (r: Result<u8, Fault>) {
        let v = self.regs.a;
        let cin: u8 = if self.get_flag(CARRY_FLAG) {
            0x80
        } else {
            0
        };
        self.regs.a = (v >> 1) | cin;
        self.regs.f = flags(false, false, false, v & 0x01 != 0);
        Ok(4)
    }

    fn rlc(&mut self, dst: Addr8) -> (r: Result<u8, Fault>) {
        let v = dst.load(self);
        let res = (v << 1) | ((v & 0x80) >> 7);
        dst.store(self, res);
        self.regs.f = flags(v == 0, false, false, v & 0x80 != 0);
        Ok(8 + 2 * dst.cycles())
    }

    fn rl(&mut self, dst: Addr8) -> (r: Result<u8, Fault>) {
        let v = dst.load(self);
        let cin: u8 = if self.get_flag(CARRY_FLAG) {
            1
        } else {
            0
        };
        let res = (v << 1) | cin;
        dst.store(self, res);
        self.regs.f = flags(res == 0, false, false, v & 0x80 != 0);
        Ok(8 + 2 * dst.cycles())
    }

    fn rrc(&mut self, dst: Addr8) -> (r: Result<u8, Fault>) {
        let v = dst.load(self);
        let res = (v >> 1) | ((v & 0x01) << 7);
        dst.store(self, res);
        self.regs.f = flags(v == 0, false, false, v & 0x01 != 0);
        Ok(8 + 2 * dst.cycles())
    }

    fn rr(&mut self, dst: Addr8) -> (r: Result<u8, Fault>) {
        let v = dst.load(self);
        let cin: u8 = if self.get_flag(CARRY_FLAG) {
            0x80
        } else {
            0
        };
        let res = (v >> 1) | cin;
        dst.store(self, res);
        self.regs.f = flags(res == 0, false, false, v & 0x01 != 0);
        Ok(8 + 2 * dst.cycles())
    }

    fn sla(&mut self, dst: Addr8) -> (r: Result<u8, Fault>) {
        let v = dst.load(self);
        let res = v << 1;
        dst.store(self, res);
        self.regs.f = flags(res == 0, false, false, v & 0x80 != 0);
        Ok(8 + 2 * dst.cycles())
    }

    fn sra(&mut self, dst: Addr8) -> (r: Result<u8, Fault>) {
        let v = dst.load(self);
        let res = (v & 0x80) | (v >> 1);
        dst.store(self, res);
        self.regs.f = flags(res == 0, false, false, v & 0x01 != 0);
        Ok(8 + 2 * dst.cycles())
    }

    fn srl(&mut self, dst: Addr8) -> (r: Result<u8, Fault>) {
        let v = dst.load(self);
        let res = v >> 1;
        dst.store(self, res);
        self.regs.f = flags(res == 0, false, false, v & 0x01 != 0);
        Ok(8 + 2 * dst.cycles())
    }

    fn bit(&mut self, b: u8, src: Addr8) -> (r: Result<u8, Fault>) {
        let v = src.load(self);
        let z = v & (1u8 << b) == 0;
        let cy = self.get_flag(CARRY_FLAG);
        self.regs.f = flags(z, false, true, cy);
        Ok(8 + src.cycles())
    }

    fn res(&mut self, b: u8, dst: Addr8) -> (r: Result<u8, Fault>) {
        let v = dst.load(self);
        dst.store(self, v & !(1u8 << b));
        Ok(8 + 2 * dst.cycles())
    }

    fn set(&mut self, b: u8, dst: Addr8) -> (r: Result<u8, Fault>) {
        let v = dst.load(self);
        dst.store(self, v | (1u8 << b));
        Ok(8 + 2 * dst.cycles())
    }

    fn swap(&mut self, dst: Addr8) -> (r: Result<u8, Fault>) {
        let v = dst.load(self);
        let res = (v >> 4) | (v << 4);
        dst.store(self, res);
        self.regs.f = flags(v == 0, false, false, false);
        Ok(8 + 2 * dst.cycles())
    }

    fn undef(&mut self, opcode: u8) -> (r: Result<u8, Fault>) {
        Err(Fault { opcode, addr: self.regs.pc.wrapping_sub(1) })
    }
}

/// Decode and execute exactly one instruction from the current state
/// and add its cycles to the running total; an undefined opcode leaves
/// the state as decode left it and reports the fault.
pub open spec fn spec_exec_instr<M: Mem>(c: CpuView<M::MV>) -> (
    CpuView<M::MV>,
    Result<u8, Fault>,
) {
    let (c1, i) = spec_decode::<Result<u8, Fault>, Cpu<M>>(c);
    let (c2, r) = <Cpu<M> as Decoder<Result<u8, Fault>>>::handle_model(c1, i);
    match r {
        Ok(k) => (CpuView { cycles: c2.cycles.wrapping_add(k as u64), ..c2 }, Ok(k)),
        Err(e) => (c2, Err(e)),
    }
}

/// The body of one step once the halted state is resolved: dispatch
/// the highest-priority enabled-and-requested interrupt if the master
/// enable is set, else run one instruction.
///
/// A dispatch pushes PC, jumps to vector `0x40 + 8 * irq`, clears the
/// master enable and the taken request bit, and costs 20 cycles.
pub open spec fn spec_dispatch_or_exec<M: Mem>(c: CpuView<M::MV>) -> (
    CpuView<M::MV>,
    Result<u8, Fault>,
) {
    if c.ime {
        let (c1, en) = spec_mem_loadb::<M>(c, IRQ_ENABLE_ADDR);
        let (c2, rq) = spec_mem_loadb::<M>(c1, IRQ_REQUEST_ADDR);
        let irq = spec_lowest_set_bit(en & rq);
        if irq < 5 {
            let c3 = push_state::<M>(c2, Addr16::Reg16Dir(Reg16::PC));
            let c4 = CpuView {
                regs: Regs { pc: (0x40 + irq * 8) as u16, ..c3.regs },
                ime: false,
                ..c3
            };
            let c5 = spec_mem_storeb::<M>(c4, IRQ_REQUEST_ADDR, rq & !(1u8 << irq));
            (CpuView { cycles: c5.cycles.wrapping_add(20), ..c5 }, Ok(20))
        } else {
            spec_exec_instr::<M>(c2)
        }
    } else {
        spec_exec_instr::<M>(c)
    }
}

/// One whole `step`: a halted CPU wakes (without dispatching) as soon
/// as any interrupt request is pending, else idles for 4 cycles; a
/// running CPU dispatches or executes one instruction.
pub open spec fn spec_step<M: Mem>(c: CpuView<M::MV>) -> (CpuView<M::MV>, Result<u8, Fault>) {
    if c.halted {
        let (c1, rq) = spec_mem_loadb::<M>(c, IRQ_REQUEST_ADDR);
        if rq != 0 {
            spec_dispatch_or_exec::<M>(CpuView { halted: false, ..c1 })
        } else {
            (CpuView { cycles: c1.cycles.wrapping_add(4), ..c1 }, Ok(4))
        }
    } else {
        spec_dispatch_or_exec::<M>(c)
    }
}

impl<M: Mem> Cpu<M> {
    /// Advance the machine by one step: resolve the halted state,
    /// dispatch one interrupt or execute one instruction, and return
    /// the elapsed machine cycles. The one failure is an undefined
    /// opcode, reported with its address; the request to decode it is
    /// the only input `step` rejects.
    pub fn step(&mut self) -> (r: Result<u8, Fault>)
        requires
            old(self).wf(),
        ensures
            final(self).wf(),
            (final(self)@, r) == spec_step::<M>(old(self)@),
    {
        if self.halted {
            let rq = self.mem_loadb(IRQ_REQUEST_ADDR);
            if rq != 0 {
                // Wake on any pending request, whether or not enabled.
                self.halted = false;
            } else {
                // Synthetic NOP while asleep.
                self.cycles = self.cycles.wrapping_add(4);
                return Ok(4);
            }
        }
        if self.ime {
            let en = self.mem_loadb(IRQ_ENABLE_ADDR);
            let rq = self.mem_loadb(IRQ_REQUEST_ADDR);
            let irq = lowest_set_bit(en & rq);
            if irq < 5 {
                let _ = self.push(Addr16::Reg16Dir(Reg16::PC));
                self.regs.pc = 0x40 + irq as u16 * 8;
                self.ime = false;
                self.mem_storeb(IRQ_REQUEST_ADDR, rq & !(1u8 << irq));
                self.cycles = self.cycles.wrapping_add(20);
                return Ok(20);
            }
        }
        let r = decode(self);
        match r {
            Ok(k) => {
                self.cycles = self.cycles.wrapping_add(k as u64);
                Ok(k)
            },
            Err(e) => Err(e),
        }
    }
}

} // verus!
