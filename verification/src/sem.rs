//! The mathematical semantics of every instruction: what one handler
//! invocation does to the machine model and how many machine cycles it
//! costs. The execution engine's contracts are stated over these
//! functions.

use vstd::prelude::*;

use crate::addr::{addr16_cost, addr8_cost, Addr16, Addr8, Cond};
use crate::addr::{spec_addr16_load, spec_addr16_store, spec_addr8_load, spec_addr8_store};
use crate::addr::spec_cond_eval;
use crate::cpu::{spec_mem_loadw, spec_mem_storew, CpuView, Fault};
use crate::mem::Mem;
use crate::regs::{f_c, f_h, f_n, f_z, flags_byte, Reg16, Regs};

verus! {

/// Sign-extend a displacement byte to the 16-bit value it stands for
/// modulo 2^16.
pub open spec fn sign_ext16(rel: i8) -> u16 {
    if rel >= 0 {
        rel as u16
    } else {
        (rel + 0x10000) as u16
    }
}

/// Result and flags of an 8-bit addition with carry-in: Zero from the
/// result byte, Subtract clear, HalfCarry from bit 3, Carry from bit 7.
pub open spec fn alu_add(a: u8, b: u8, cin: u8) -> (u8, u8) {
    let r = ((a + b + cin) % 256) as u8;
    let h = (a & 0xf) + (b & 0xf) + cin >= 0x10;
    let cy = a + b + cin >= 0x100;
    (r, flags_byte(r == 0, false, h, cy))
}

/// Result and flags of an 8-bit subtraction with borrow-in: Zero from
/// the result byte, Subtract set, HalfCarry from the bit-4 borrow,
/// Carry from the full borrow.
pub open spec fn alu_sub(a: u8, b: u8, cin: u8) -> (u8, u8) {
    let r = ((256 + a - b - cin) % 256) as u8;
    let h = (a & 0xf) < (b & 0xf) + cin;
    let cy = (a as int) < b + cin;
    (r, flags_byte(r == 0, true, h, cy))
}

/// Result and flags of adding a sign-extended displacement to SP:
/// Zero and Subtract cleared; HalfCarry and Carry come from the low
/// byte (bits 3 and 7), not from a 16-bit carry chain.
pub open spec fn alu_addsp(sp: u16, off: u16) -> (u16, u8) {
    let r = sp.wrapping_add(off);
    let h = (sp & 0xf) + (off & 0xf) >= 0x10;
    let cy = (sp & 0xff) + (off & 0xff) >= 0x100;
    (r, flags_byte(false, false, h, cy))
}

/// The decimal-adjusted accumulator before masking: BCD correction of
/// 0x06 and 0x60 applied according to the Subtract, HalfCarry and
/// Carry flags (with the low-nibble and high-range tests on an add).
pub open spec fn daa_adjust(a0: u8, f: u8) -> u16 {
    let a = a0 as u16;
    if f_n(f) {
        let x = if f_h(f) {
            a.wrapping_sub(0x06) & 0xff
        } else {
            a
        };
        if f_c(f) {
            x.wrapping_sub(0x60)
        } else {
            x
        }
    } else {
        let x = if f_h(f) || a & 0xf > 9 {
            (a + 0x06) as u16
        } else {
            a
        };
        if f_c(f) || x > 0x9f {
            (x + 0x60) as u16
        } else {
            x
        }
    }
}

/// Accumulator and flags after DAA: HalfCarry always cleared, Subtract
/// kept, Zero recomputed from the final byte, Carry kept and
/// additionally set if the correction produced a ninth bit.
pub open spec fn daa_result(a0: u8, f: u8) -> (u8, u8) {
    let adj = daa_adjust(a0, f);
    let r = (adj & 0xff) as u8;
    let cy = f_c(f) || adj & 0x100 != 0;
    (r, flags_byte(r == 0, f_n(f), false, cy))
}

/// The machine after `LD dst, src` (8-bit).
pub open spec fn ld8_state<M: Mem>(c: CpuView<M::MV>, dst: Addr8, src: Addr8) -> CpuView<M::MV> {
    let (c1, v) = spec_addr8_load::<M>(c, src);
    spec_addr8_store::<M>(c1, dst, v)
}

/// The machine after `LD dst, src` (16-bit).
pub open spec fn ld16_state<M: Mem>(c: CpuView<M::MV>, dst: Addr16, src: Addr16) -> CpuView<
    M::MV,
> {
    let (c1, v) = spec_addr16_load::<M>(c, src);
    spec_addr16_store::<M>(c1, dst, v)
}

/// The machine after pushing a 16-bit operand: SP drops by two first,
/// then the value is written at the new SP, low byte at the lower
/// address.
pub open spec fn push_state<M: Mem>(c: CpuView<M::MV>, src: Addr16) -> CpuView<M::MV> {
    let c1 = CpuView { regs: Regs { sp: c.regs.sp.wrapping_sub(2), ..c.regs }, ..c };
    let (c2, v) = spec_addr16_load::<M>(c1, src);
    spec_mem_storew::<M>(c2, c2.regs.sp, v)
}

/// The machine after popping into a 16-bit operand: the word at SP is
/// read and stored, then SP rises by two.
pub open spec fn pop_state<M: Mem>(c: CpuView<M::MV>, dst: Addr16) -> CpuView<M::MV> {
    let (c1, v) = spec_mem_loadw::<M>(c, c.regs.sp);
    let c2 = spec_addr16_store::<M>(c1, dst, v);
    CpuView { regs: Regs { sp: c2.regs.sp.wrapping_add(2), ..c2.regs }, ..c2 }
}

/// The machine after `CALL cond, addr` / the unconditional call a
/// dispatch or RST performs: push PC, then jump.
pub open spec fn call_state<M: Mem>(c: CpuView<M::MV>, addr: Addr16) -> CpuView<M::MV> {
    let c1 = push_state::<M>(c, Addr16::Reg16Dir(Reg16::PC));
    ld16_state::<M>(c1, Addr16::Reg16Dir(Reg16::PC), addr)
}

/// Cycle count of an 8-bit-operand instruction: fixed base plus one
/// operand access.
pub open spec fn cost8(base: u8, a: Addr8) -> Result<u8, Fault> {
    Ok((base + addr8_cost(a)) as u8)
}

/// Cycle count of a read-modify-write 8-bit-operand instruction: fixed
/// base plus two operand accesses.
pub open spec fn cost8_rw(base: u8, a: Addr8) -> Result<u8, Fault> {
    Ok((base + 2 * addr8_cost(a)) as u8)
}

pub open spec fn sem_nop<M: Mem>(c: CpuView<M::MV>) -> (CpuView<M::MV>, Result<u8, Fault>) {
    (c, Ok(4))
}

pub open spec fn sem_ei<M: Mem>(c: CpuView<M::MV>) -> (CpuView<M::MV>, Result<u8, Fault>) {
    (CpuView { ime: true, ..c }, Ok(4))
}

pub open spec fn sem_di<M: Mem>(c: CpuView<M::MV>) -> (CpuView<M::MV>, Result<u8, Fault>) {
    (CpuView { ime: false, ..c }, Ok(4))
}

pub open spec fn sem_halt<M: Mem>(c: CpuView<M::MV>) -> (CpuView<M::MV>, Result<u8, Fault>) {
    (CpuView { halted: true, ..c }, Ok(4))
}

pub open spec fn sem_stop<M: Mem>(c: CpuView<M::MV>, val: u8) -> (
    CpuView<M::MV>,
    Result<u8, Fault>,
) {
    (c, Ok(4))
}

pub open spec fn sem_jp<M: Mem>(c: CpuView<M::MV>, cond: Cond, addr: Addr16) -> (
    CpuView<M::MV>,
    Result<u8, Fault>,
) {
    (
        if spec_cond_eval(c.regs.f, cond) {
            ld16_state::<M>(c, Addr16::Reg16Dir(Reg16::PC), addr)
        } else {
            c
        },
        Ok((4 + addr16_cost(addr)) as u8),
    )
}

pub open spec fn sem_jr<M: Mem>(c: CpuView<M::MV>, cond: Cond, rel: i8) -> (
    CpuView<M::MV>,
    Result<u8, Fault>,
) {
    (
        if spec_cond_eval(c.regs.f, cond) {
            CpuView {
                regs: Regs { pc: c.regs.pc.wrapping_add(sign_ext16(rel)), ..c.regs },
                ..c
            }
        } else {
            c
        },
        Ok(8),
    )
}

pub open spec fn sem_call<M: Mem>(c: CpuView<M::MV>, cond: Cond, addr: Addr16) -> (
    CpuView<M::MV>,
    Result<u8, Fault>,
) {
    (
        if spec_cond_eval(c.regs.f, cond) {
            call_state::<M>(c, addr)
        } else {
            c
        },
        Ok(12),
    )
}

pub open spec fn sem_rst<M: Mem>(c: CpuView<M::MV>, addr: u8) -> (
    CpuView<M::MV>,
    Result<u8, Fault>,
) {
    (call_state::<M>(c, Addr16::Imm16(addr as u16)), Ok(32))
}

pub open spec fn sem_ret<M: Mem>(c: CpuView<M::MV>, cond: Cond) -> (
    CpuView<M::MV>,
    Result<u8, Fault>,
) {
    (
        if spec_cond_eval(c.regs.f, cond) {
            pop_state::<M>(c, Addr16::Reg16Dir(Reg16::PC))
        } else {
            c
        },
        Ok(8),
    )
}

pub open spec fn sem_reti<M: Mem>(c: CpuView<M::MV>) -> (CpuView<M::MV>, Result<u8, Fault>) {
    (CpuView { ime: true, ..pop_state::<M>(c, Addr16::Reg16Dir(Reg16::PC)) }, Ok(8))
}

pub open spec fn sem_ld8<M: Mem>(c: CpuView<M::MV>, dst: Addr8, src: Addr8) -> (
    CpuView<M::MV>,
    Result<u8, Fault>,
) {
    (ld8_state::<M>(c, dst, src), Ok((4 + addr8_cost(dst) + addr8_cost(src)) as u8))
}

pub open spec fn sem_ld16<M: Mem>(c: CpuView<M::MV>, dst: Addr16, src: Addr16) -> (
    CpuView<M::MV>,
    Result<u8, Fault>,
) {
    (ld16_state::<M>(c, dst, src), Ok((4 + addr16_cost(dst) + addr16_cost(src)) as u8))
}

/// LDH moves through the same 8-bit load/store path; only its base
/// cost differs.
pub open spec fn sem_ldh<M: Mem>(c: CpuView<M::MV>, dst: Addr8, src: Addr8) -> (
    CpuView<M::MV>,
    Result<u8, Fault>,
) {
    (ld8_state::<M>(c, dst, src), Ok((4 + addr8_cost(dst) + addr8_cost(src)) as u8))
}

pub open spec fn sem_ldhl<M: Mem>(c: CpuView<M::MV>, rel: i8) -> (
    CpuView<M::MV>,
    Result<u8, Fault>,
) {
    let (r, f) = alu_addsp(c.regs.sp, sign_ext16(rel));
    (
        CpuView {
            regs: Regs { h: (r / 256) as u8, l: (r % 256) as u8, f, ..c.regs },
            ..c
        },
        Ok(12),
    )
}

pub open spec fn sem_push<M: Mem>(c: CpuView<M::MV>, src: Addr16) -> (
    CpuView<M::MV>,
    Result<u8, Fault>,
) {
    (push_state::<M>(c, src), Ok((16 + addr16_cost(src)) as u8))
}

pub open spec fn sem_pop<M: Mem>(c: CpuView<M::MV>, dst: Addr16) -> (
    CpuView<M::MV>,
    Result<u8, Fault>,
) {
    (pop_state::<M>(c, dst), Ok((12 + addr16_cost(dst)) as u8))
}

pub open spec fn sem_add8<M: Mem>(c: CpuView<M::MV>, src: Addr8) -> (
    CpuView<M::MV>,
    Result<u8, Fault>,
) {
    let a0 = c.regs.a;
    let (c1, b) = spec_addr8_load::<M>(c, src);
    let (r, f) = alu_add(a0, b, 0);
    (CpuView { regs: Regs { a: r, f, ..c1.regs }, ..c1 }, cost8(4, src))
}

pub open spec fn sem_add16<M: Mem>(c: CpuView<M::MV>, dst: Addr16, src: Addr16) -> (
    CpuView<M::MV>,
    Result<u8, Fault>,
) {
    let (c1, v1) = spec_addr16_load::<M>(c, dst);
    let (c2, v2) = spec_addr16_load::<M>(c1, src);
    let r = v1.wrapping_add(v2);
    let c3 = spec_addr16_store::<M>(c2, dst, r);
    let h = (v1 & 0xfff) + (v2 & 0xfff) >= 0x1000;
    let cy = v1 + v2 >= 0x10000;
    let f = flags_byte(f_z(c3.regs.f), false, h, cy);
    (CpuView { regs: Regs { f, ..c3.regs }, ..c3 }, Ok(8))
}

pub open spec fn sem_addsp<M: Mem>(c: CpuView<M::MV>, rel: i8) -> (
    CpuView<M::MV>,
    Result<u8, Fault>,
) {
    let (r, f) = alu_addsp(c.regs.sp, sign_ext16(rel));
    (CpuView { regs: Regs { sp: r, f, ..c.regs }, ..c }, Ok(16))
}

pub open spec fn sem_adc<M: Mem>(c: CpuView<M::MV>, src: Addr8) -> (
    CpuView<M::MV>,
    Result<u8, Fault>,
) {
    let a0 = c.regs.a;
    let (c1, b) = spec_addr8_load::<M>(c, src);
    let cin: u8 = if f_c(c1.regs.f) {
        1
    } else {
        0
    };
    let (r, f) = alu_add(a0, b, cin);
    (CpuView { regs: Regs { a: r, f, ..c1.regs }, ..c1 }, cost8(4, src))
}

pub open spec fn sem_sub<M: Mem>(c: CpuView<M::MV>, src: Addr8) -> (
    CpuView<M::MV>,
    Result<u8, Fault>,
) {
    let a0 = c.regs.a;
    let (c1, b) = spec_addr8_load::<M>(c, src);
    let (r, f) = alu_sub(a0, b, 0);
    (CpuView { regs: Regs { a: r, f, ..c1.regs }, ..c1 }, cost8(4, src))
}

pub open spec fn sem_sbc<M: Mem>(c: CpuView<M::MV>, src: Addr8) -> (
    CpuView<M::MV>,
    Result<u8, Fault>,
) {
    let a0 = c.regs.a;
    let (c1, b) = spec_addr8_load::<M>(c, src);
    let cin: u8 = if f_c(c1.regs.f) {
        1
    } else {
        0
    };
    let (r, f) = alu_sub(a0, b, cin);
    (CpuView { regs: Regs { a: r, f, ..c1.regs }, ..c1 }, cost8(4, src))
}

/// CP performs the subtraction for its flags but restores the
/// accumulator.
pub open spec fn sem_cp<M: Mem>(c: CpuView<M::MV>, src: Addr8) -> (
    CpuView<M::MV>,
    Result<u8, Fault>,
) {
    let a0 = c.regs.a;
    let (c1, b) = spec_addr8_load::<M>(c, src);
    let (r, f) = alu_sub(a0, b, 0);
    (CpuView { regs: Regs { a: a0, f, ..c1.regs }, ..c1 }, cost8(4, src))
}

/// INC8 leaves Carry exactly as it found it, even on wraparound.
pub open spec fn sem_inc8<M: Mem>(c: CpuView<M::MV>, dst: Addr8) -> (
    CpuView<M::MV>,
    Result<u8, Fault>,
) {
    let (c1, v) = spec_addr8_load::<M>(c, dst);
    let r = ((v + 1) % 256) as u8;
    let c2 = spec_addr8_store::<M>(c1, dst, r);
    let f = flags_byte(r == 0, false, v & 0xf == 0xf, f_c(c2.regs.f));
    (CpuView { regs: Regs { f, ..c2.regs }, ..c2 }, cost8_rw(4, dst))
}

/// DEC8 leaves Carry exactly as it found it, even on wraparound.
pub open spec fn sem_dec8<M: Mem>(c: CpuView<M::MV>, dst: Addr8) -> (
    CpuView<M::MV>,
    Result<u8, Fault>,
) {
    let (c1, v) = spec_addr8_load::<M>(c, dst);
    let r = ((v + 255) % 256) as u8;
    let c2 = spec_addr8_store::<M>(c1, dst, r);
    let f = flags_byte(r == 0, true, r & 0xf == 0xf, f_c(c2.regs.f));
    (CpuView { regs: Regs { f, ..c2.regs }, ..c2 }, cost8_rw(4, dst))
}

pub open spec fn sem_inc16<M: Mem>(c: CpuView<M::MV>, dst: Addr16) -> (
    CpuView<M::MV>,
    Result<u8, Fault>,
) {
    let (c1, v) = spec_addr16_load::<M>(c, dst);
    (spec_addr16_store::<M>(c1, dst, v.wrapping_add(1)), Ok(8))
}

pub open spec fn sem_dec16<M: Mem>(c: CpuView<M::MV>, dst: Addr16) -> (
    CpuView<M::MV>,
    Result<u8, Fault>,
) {
    let (c1, v) = spec_addr16_load::<M>(c, dst);
    (spec_addr16_store::<M>(c1, dst, v.wrapping_sub(1)), Ok(8))
}

/// AND forces HalfCarry set and Carry clear: an architectural quirk,
/// not a general bitwise rule.
pub open spec fn sem_and<M: Mem>(c: CpuView<M::MV>, src: Addr8) -> (
    CpuView<M::MV>,
    Result<u8, Fault>,
) {
    let a0 = c.regs.a;
    let (c1, b) = spec_addr8_load::<M>(c, src);
    let r = a0 & b;
    let f = flags_byte(r == 0, false, true, false);
    (CpuView { regs: Regs { a: r, f, ..c1.regs }, ..c1 }, cost8(4, src))
}

/// OR forces both HalfCarry and Carry clear.
pub open spec fn sem_or<M: Mem>(c: CpuView<M::MV>, src: Addr8) -> (
    CpuView<M::MV>,
    Result<u8, Fault>,
) {
    let a0 = c.regs.a;
    let (c1, b) = spec_addr8_load::<M>(c, src);
    let r = a0 | b;
    let f = flags_byte(r == 0, false, false, false);
    (CpuView { regs: Regs { a: r, f, ..c1.regs }, ..c1 }, cost8(4, src))
}

/// XOR forces both HalfCarry and Carry clear.
pub open spec fn sem_xor<M: Mem>(c: CpuView<M::MV>, src: Addr8) -> (
    CpuView<M::MV>,
    Result<u8, Fault>,
) {
    let a0 = c.regs.a;
    let (c1, b) = spec_addr8_load::<M>(c, src);
    let r = a0 ^ b;
    let f = flags_byte(r == 0, false, false, false);
    (CpuView { regs: Regs { a: r, f, ..c1.regs }, ..c1 }, cost8(4, src))
}

pub open spec fn sem_cpl<M: Mem>(c: CpuView<M::MV>) -> (CpuView<M::MV>, Result<u8, Fault>) {
    let f = flags_byte(f_z(c.regs.f), true, true, f_c(c.regs.f));
    (CpuView { regs: Regs { a: !c.regs.a, f, ..c.regs }, ..c }, Ok(4))
}

pub open spec fn sem_scf<M: Mem>(c: CpuView<M::MV>) -> (CpuView<M::MV>, Result<u8, Fault>) {
    let f = flags_byte(f_z(c.regs.f), false, false, true);
    (CpuView { regs: Regs { f, ..c.regs }, ..c }, Ok(4))
}

pub open spec fn sem_ccf<M: Mem>(c: CpuView<M::MV>) -> (CpuView<M::MV>, Result<u8, Fault>) {
    let f = flags_byte(f_z(c.regs.f), false, false, !f_c(c.regs.f));
    (CpuView { regs: Regs { f, ..c.regs }, ..c }, Ok(4))
}

pub open spec fn sem_daa<M: Mem>(c: CpuView<M::MV>) -> (CpuView<M::MV>, Result<u8, Fault>) {
    let (r, f) = daa_result(c.regs.a, c.regs.f);
    (CpuView { regs: Regs { a: r, f, ..c.regs }, ..c }, Ok(4))
}

/// The accumulator-only rotates always force Zero clear, whatever the
/// result.
pub open spec fn sem_rlca<M: Mem>(c: CpuView<M::MV>) -> (CpuView<M::MV>, Result<u8, Fault>) {
    let v = c.regs.a;
    let r = (v << 1) | ((v & 0x80) >> 7);
    let f = flags_byte(false, false, false, v & 0x80 != 0);
    (CpuView { regs: Regs { a: r, f, ..c.regs }, ..c }, Ok(4))
}

pub open spec fn sem_rla<M: Mem>(c: CpuView<M::MV>) -> (CpuView<M::MV>, Result<u8, Fault>) {
    let v = c.regs.a;
    let cin: u8 = if f_c(c.regs.f) {
        1
    } else {
        0
    };
    let r = (v << 1) | cin;
    let f = flags_byte(false, false, false, v & 0x80 != 0);
    (CpuView { regs: Regs { a: r, f, ..c.regs }, ..c }, Ok(4))
}

pub open spec fn sem_rrca<M: Mem>(c: CpuView<M::MV>) -> (CpuView<M::MV>, Result<u8, Fault>) {
    let v = c.regs.a;
    let r = (v >> 1) | ((v & 0x01) << 7);
    let f = flags_byte(false, false, false, v & 0x01 != 0);
    (CpuView { regs: Regs { a: r, f, ..c.regs }, ..c }, Ok(4))
}

pub open spec fn sem_rra<M: Mem>(c: CpuView<M::MV>) -> (CpuView<M::MV>, Result<u8, Fault>) {
    let v = c.regs.a;
    let cin: u8 = if f_c(c.regs.f) {
        0x80
    } else {
        0
    };
    let r = (v >> 1) | cin;
    let f = flags_byte(false, false, false, v & 0x01 != 0);
    (CpuView { regs: Regs { a: r, f, ..c.regs }, ..c }, Ok(4))
}

/// The general rotate/shift pattern: load, transform, store back, set
/// flags. Zero comes from `z`, Carry from the vacated bit; Subtract
/// and HalfCarry are cleared.
pub open spec fn shift_state<M: Mem>(c1: CpuView<M::MV>, dst: Addr8, r: u8, z: bool, cy: bool) -> CpuView<M::MV> {
    let c2 = spec_addr8_store::<M>(c1, dst, r);
    let f = flags_byte(z, false, false, cy);
    CpuView { regs: Regs { f, ..c2.regs }, ..c2 }
}

pub open spec fn sem_rlc<M: Mem>(c: CpuView<M::MV>, dst: Addr8) -> (
    CpuView<M::MV>,
    Result<u8, Fault>,
) {
    let (c1, v) = spec_addr8_load::<M>(c, dst);
    let r = (v << 1) | ((v & 0x80) >> 7);
    (shift_state::<M>(c1, dst, r, v == 0, v & 0x80 != 0), cost8_rw(8, dst))
}

pub open spec fn sem_rl<M: Mem>(c: CpuView<M::MV>, dst: Addr8) -> (
    CpuView<M::MV>,
    Result<u8, Fault>,
) {
    let (c1, v) = spec_addr8_load::<M>(c, dst);
    let cin: u8 = if f_c(c1.regs.f) {
        1
    } else {
        0
    };
    let r = (v << 1) | cin;
    (shift_state::<M>(c1, dst, r, r == 0, v & 0x80 != 0), cost8_rw(8, dst))
}

pub open spec fn sem_rrc<M: Mem>(c: CpuView<M::MV>, dst: Addr8) -> (
    CpuView<M::MV>,
    Result<u8, Fault>,
) {
    let (c1, v) = spec_addr8_load::<M>(c, dst);
    let r = (v >> 1) | ((v & 0x01) << 7);
    (shift_state::<M>(c1, dst, r, v == 0, v & 0x01 != 0), cost8_rw(8, dst))
}

pub open spec fn sem_rr<M: Mem>(c: CpuView<M::MV>, dst: Addr8) -> (
    CpuView<M::MV>,
    Result<u8, Fault>,
) {
    let (c1, v) = spec_addr8_load::<M>(c, dst);
    let cin: u8 = if f_c(c1.regs.f) {
        0x80
    } else {
        0
    };
    let r = (v >> 1) | cin;
    (shift_state::<M>(c1, dst, r, r == 0, v & 0x01 != 0), cost8_rw(8, dst))
}

pub open spec fn sem_sla<M: Mem>(c: CpuView<M::MV>, dst: Addr8) -> (
    CpuView<M::MV>,
    Result<u8, Fault>,
) {
    let (c1, v) = spec_addr8_load::<M>(c, dst);
    let r = v << 1;
    (shift_state::<M>(c1, dst, r, r == 0, v & 0x80 != 0), cost8_rw(8, dst))
}

/// SRA preserves the sign bit.
pub open spec fn sem_sra<M: Mem>(c: CpuView<M::MV>, dst: Addr8) -> (
    CpuView<M::MV>,
    Result<u8, Fault>,
) {
    let (c1, v) = spec_addr8_load::<M>(c, dst);
    let r = (v & 0x80) | (v >> 1);
    (shift_state::<M>(c1, dst, r, r == 0, v & 0x01 != 0), cost8_rw(8, dst))
}

pub open spec fn sem_srl<M: Mem>(c: CpuView<M::MV>, dst: Addr8) -> (
    CpuView<M::MV>,
    Result<u8, Fault>,
) {
    let (c1, v) = spec_addr8_load::<M>(c, dst);
    let r = v >> 1;
    (shift_state::<M>(c1, dst, r, r == 0, v & 0x01 != 0), cost8_rw(8, dst))
}

/// SWAP exchanges the nibbles; only Zero can end up set.
pub open spec fn sem_swap<M: Mem>(c: CpuView<M::MV>, dst: Addr8) -> (
    CpuView<M::MV>,
    Result<u8, Fault>,
) {
    let (c1, v) = spec_addr8_load::<M>(c, dst);
    let r = (v >> 4) | (v << 4);
    (shift_state::<M>(c1, dst, r, v == 0, false), cost8_rw(8, dst))
}

/// BIT is read-only: Zero mirrors the complement of the tested bit,
/// HalfCarry is forced set, Subtract cleared, Carry untouched.
pub open spec fn sem_bit<M: Mem>(c: CpuView<M::MV>, b: u8, src: Addr8) -> (
    CpuView<M::MV>,
    Result<u8, Fault>,
) {
    let (c1, v) = spec_addr8_load::<M>(c, src);
    let f = flags_byte(v & (1u8 << b) == 0, false, true, f_c(c1.regs.f));
    (CpuView { regs: Regs { f, ..c1.regs }, ..c1 }, cost8(8, src))
}

/// RES clears a bit; no flags are affected.
pub open spec fn sem_res<M: Mem>(c: CpuView<M::MV>, b: u8, dst: Addr8) -> (
    CpuView<M::MV>,
    Result<u8, Fault>,
) {
    let (c1, v) = spec_addr8_load::<M>(c, dst);
    (spec_addr8_store::<M>(c1, dst, v & !(1u8 << b)), cost8_rw(8, dst))
}

/// SET sets a bit; no flags are affected.
pub open spec fn sem_setbit<M: Mem>(c: CpuView<M::MV>, b: u8, dst: Addr8) -> (
    CpuView<M::MV>,
    Result<u8, Fault>,
) {
    let (c1, v) = spec_addr8_load::<M>(c, dst);
    (spec_addr8_store::<M>(c1, dst, v | (1u8 << b)), cost8_rw(8, dst))
}

/// An undefined opcode aborts the run, reporting the opcode and the
/// address it was fetched from.
pub open spec fn sem_undef<M: Mem>(c: CpuView<M::MV>, opcode: u8) -> (
    CpuView<M::MV>,
    Result<u8, Fault>,
) {
    (c, Err(Fault { opcode, addr: c.regs.pc.wrapping_sub(1) }))
}

} // verus!
