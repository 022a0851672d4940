//! Laws of the core, stated once and proved for every machine state:
//! decode length and cycle accounting, the forced-flag quirks, the
//! flags INC8/DEC8 must not touch, the AF store mask, interrupt
//! priority, and the halted wake-up rule.

use vstd::prelude::*;

use crate::addr::{addr16_cost, addr8_cost, Addr8};
use crate::cpu::{spec_mem_loadb, Cpu, CpuView, Fault, IRQ_ENABLE_ADDR, IRQ_REQUEST_ADDR};
use crate::engine::{spec_exec_instr, spec_lowest_set_bit, spec_step};
use crate::instr::{imm_len, spec_decode, Decoder, Instr};
use crate::mem::Mem;
use crate::regs::{f_c, f_h, lemma_flags_byte, lemma_mask_f0_clean};
use crate::regs::{spec_reg16_store, Reg16, Regs};
use crate::sem::{sem_dec8, sem_inc8};

verus! {

/// Decode consumes exactly the documented byte count: one opcode byte
/// plus `imm_len` immediate bytes, each fetch advancing PC by one.
/// Decoding touches nothing else: the other registers, the interrupt
/// state and the cycle counter are exactly as they were.
pub proof fn lemma_decode_length<M: Mem>(c: CpuView<M::MV>)
    ensures
        ({
            let b0 = M::read_of(c.mem, c.regs.pc);
            let (c1, i) = spec_decode::<Result<u8, Fault>, Cpu<M>>(c);
            c1.regs.pc == c.regs.pc.wrapping_add((1 + imm_len(b0)) as u16) && c1.regs == (Regs {
                pc: c1.regs.pc,
                ..c.regs
            }) && c1.ime == c.ime && c1.halted == c.halted && c1.cycles == c.cycles
        }),
{
}

/// The fixed base cost of each instruction plus the per-access cost of
/// its operands, never looked up per opcode.
pub open spec fn instr_cost(i: Instr) -> u8 {
    match i {
        Instr::Nop => 4,
        Instr::Ei => 4,
        Instr::Di => 4,
        Instr::Halt => 4,
        Instr::Stop(_) => 4,
        Instr::Jp(_, addr) => (4 + addr16_cost(addr)) as u8,
        Instr::Jr(_, _) => 8,
        Instr::Call(_, _) => 12,
        Instr::Rst(_) => 32,
        Instr::Ret(_) => 8,
        Instr::Reti => 8,
        Instr::Ld8(dst, src) => (4 + addr8_cost(dst) + addr8_cost(src)) as u8,
        Instr::Ld16(dst, src) => (4 + addr16_cost(dst) + addr16_cost(src)) as u8,
        Instr::Ldh(dst, src) => (4 + addr8_cost(dst) + addr8_cost(src)) as u8,
        Instr::Ldhl(_) => 12,
        Instr::Push(src) => (16 + addr16_cost(src)) as u8,
        Instr::Pop(dst) => (12 + addr16_cost(dst)) as u8,
        Instr::Add8(src) => (4 + addr8_cost(src)) as u8,
        Instr::Add16(_, _) => 8,
        Instr::AddSp(_) => 16,
        Instr::Adc(src) => (4 + addr8_cost(src)) as u8,
        Instr::Sub(src) => (4 + addr8_cost(src)) as u8,
        Instr::Sbc(src) => (4 + addr8_cost(src)) as u8,
        Instr::Inc8(dst) => (4 + 2 * addr8_cost(dst)) as u8,
        Instr::Inc16(_) => 8,
        Instr::Dec8(dst) => (4 + 2 * addr8_cost(dst)) as u8,
        Instr::Dec16(_) => 8,
        Instr::And(src) => (4 + addr8_cost(src)) as u8,
        Instr::Or(src) => (4 + addr8_cost(src)) as u8,
        Instr::Xor(src) => (4 + addr8_cost(src)) as u8,
        Instr::Cp(src) => (4 + addr8_cost(src)) as u8,
        Instr::Cpl => 4,
        Instr::Scf => 4,
        Instr::Ccf => 4,
        Instr::Daa => 4,
        Instr::Rlca => 4,
        Instr::Rla => 4,
        Instr::Rrca => 4,
        Instr::Rra => 4,
        Instr::Rlc(dst) => (8 + 2 * addr8_cost(dst)) as u8,
        Instr::Rl(dst) => (8 + 2 * addr8_cost(dst)) as u8,
        Instr::Rrc(dst) => (8 + 2 * addr8_cost(dst)) as u8,
        Instr::Rr(dst) => (8 + 2 * addr8_cost(dst)) as u8,
        Instr::Sla(dst) => (8 + 2 * addr8_cost(dst)) as u8,
        Instr::Sra(dst) => (8 + 2 * addr8_cost(dst)) as u8,
        Instr::Srl(dst) => (8 + 2 * addr8_cost(dst)) as u8,
        Instr::Bit(_, src) => (8 + addr8_cost(src)) as u8,
        Instr::Res(_, dst) => (8 + 2 * addr8_cost(dst)) as u8,
        Instr::SetBit(_, dst) => (8 + 2 * addr8_cost(dst)) as u8,
        Instr::Swap(dst) => (8 + 2 * addr8_cost(dst)) as u8,
        Instr::Undef(_) => 0,
    }
}

/// Every defined instruction's handler returns exactly the fixed base
/// cost plus its operand-addressing costs, whatever the machine state.
pub proof fn lemma_instr_cycles<M: Mem>(c: CpuView<M::MV>, i: Instr)
    requires
        !(i is Undef),
    ensures
        <Cpu<M> as Decoder<Result<u8, Fault>>>::handle_model(c, i).1 == Ok::<u8, Fault>(
            instr_cost(i),
        ),
{
}

/// AND always forces HalfCarry set and Carry clear, on every machine
/// state and every operand.
pub proof fn lemma_and_forces_flags<M: Mem>(c: CpuView<M::MV>, src: Addr8)
    ensures
        ({
            let (c2, r) = <Cpu<M> as Decoder<Result<u8, Fault>>>::handle_model(
                c,
                Instr::And(src),
            );
            f_h(c2.regs.f) && !f_c(c2.regs.f)
        }),
{
    let (c1, b) = crate::addr::spec_addr8_load::<M>(c, src);
    lemma_flags_byte(c.regs.a & b == 0, false, true, false);
}

/// OR and XOR always force both HalfCarry and Carry clear, on every
/// machine state and every operand.
pub proof fn lemma_or_xor_force_flags<M: Mem>(c: CpuView<M::MV>, src: Addr8)
    ensures
        ({
            let (c2, r) = <Cpu<M> as Decoder<Result<u8, Fault>>>::handle_model(c, Instr::Or(src));
            !f_h(c2.regs.f) && !f_c(c2.regs.f)
        }),
        ({
            let (c2, r) = <Cpu<M> as Decoder<Result<u8, Fault>>>::handle_model(
                c,
                Instr::Xor(src),
            );
            !f_h(c2.regs.f) && !f_c(c2.regs.f)
        }),
{
    let (c1, b) = crate::addr::spec_addr8_load::<M>(c, src);
    lemma_flags_byte(c.regs.a | b == 0, false, false, false);
    lemma_flags_byte((c.regs.a ^ b) == 0, false, false, false);
}

/// Loading or storing through any canonical operand leaves the flags
/// byte alone. (Only the post-increment and post-decrement forms on
/// the AF pair could touch F, and no decode table produces those.)
pub proof fn lemma_addr8_keeps_flags<M: Mem>(c: CpuView<M::MV>, a: Addr8, v: u8)
    requires
        !(a matches Addr8::Reg16Ind8Inc(Reg16::AF)),
        !(a matches Addr8::Reg16Ind8Dec(Reg16::AF)),
    ensures
        crate::addr::spec_addr8_load::<M>(c, a).0.regs.f == c.regs.f,
        crate::addr::spec_addr8_store::<M>(c, a, v).regs.f == c.regs.f,
{
}

/// INC8 never changes Carry, for every input byte including the
/// wraparound from 0xFF to 0x00, through every operand the decode
/// tables produce.
pub proof fn lemma_inc8_preserves_carry<M: Mem>(c: CpuView<M::MV>, dst: Addr8)
    requires
        !(dst matches Addr8::Reg16Ind8Inc(Reg16::AF)),
        !(dst matches Addr8::Reg16Ind8Dec(Reg16::AF)),
    ensures
        f_c(sem_inc8::<M>(c, dst).0.regs.f) == f_c(c.regs.f),
{
    let (c1, v) = crate::addr::spec_addr8_load::<M>(c, dst);
    let r = ((v + 1) % 256) as u8;
    lemma_addr8_keeps_flags::<M>(c, dst, r);
    lemma_addr8_keeps_flags::<M>(c1, dst, r);
    let c2 = crate::addr::spec_addr8_store::<M>(c1, dst, r);
    lemma_flags_byte(r == 0, false, v & 0xf == 0xf, f_c(c2.regs.f));
}

/// DEC8 never changes Carry, for every input byte including the
/// wraparound from 0x00 to 0xFF, through every operand the decode
/// tables produce.
pub proof fn lemma_dec8_preserves_carry<M: Mem>(c: CpuView<M::MV>, dst: Addr8)
    requires
        !(dst matches Addr8::Reg16Ind8Inc(Reg16::AF)),
        !(dst matches Addr8::Reg16Ind8Dec(Reg16::AF)),
    ensures
        f_c(sem_dec8::<M>(c, dst).0.regs.f) == f_c(c.regs.f),
{
    let (c1, v) = crate::addr::spec_addr8_load::<M>(c, dst);
    let r = ((v + 255) % 256) as u8;
    lemma_addr8_keeps_flags::<M>(c, dst, r);
    lemma_addr8_keeps_flags::<M>(c1, dst, r);
    let c2 = crate::addr::spec_addr8_store::<M>(c1, dst, r);
    lemma_flags_byte(r == 0, true, r & 0xf == 0xf, f_c(c2.regs.f));
}

/// Storing a word into AF keeps only the high nibble of the low byte:
/// A takes the high byte, F the low byte masked to 0xF0, so the flag
/// nibble invariant survives every AF store.
pub proof fn lemma_store16_af_masks_flags(r: Regs, v: u16)
    ensures
        spec_reg16_store(r, Reg16::AF, v).a == v / 256,
        spec_reg16_store(r, Reg16::AF, v).f == (v % 256) as u8 & 0xf0,
        spec_reg16_store(r, Reg16::AF, v).flags_clean(),
{
    lemma_mask_f0_clean((v % 256) as u8);
}

/// The lowest set bit is the dispatched one: its bit really is set,
/// and every bit of higher priority (lower index) is clear.
pub proof fn lemma_lowest_set_bit(x: u8, j: u8)
    ensures
        x != 0 ==> spec_lowest_set_bit(x) <= 7 && x & (1u8 << spec_lowest_set_bit(x)) != 0,
        j < spec_lowest_set_bit(x) ==> x & (1u8 << j) == 0,
{
    let l = spec_lowest_set_bit(x);
    assert(({
        let lb: u8 = if x & 0x01 != 0 {
            0
        } else if x & 0x02 != 0 {
            1
        } else if x & 0x04 != 0 {
            2
        } else if x & 0x08 != 0 {
            3
        } else if x & 0x10 != 0 {
            4
        } else if x & 0x20 != 0 {
            5
        } else if x & 0x40 != 0 {
            6
        } else if x & 0x80 != 0 {
            7
        } else {
            8
        };
        (x != 0 ==> lb <= 7 && x & (1u8 << lb) != 0) && (j < lb ==> x & (1u8 << j) == 0)
    })) by (bit_vector);
}

/// Clearing the taken request bit touches no other bit: the cleared
/// bit reads zero, every other bit keeps its value.
pub proof fn lemma_request_bit_cleared(rq: u8, irq: u8, j: u8)
    requires
        irq <= 7,
        j <= 7,
    ensures
        (rq & !(1u8 << irq)) & (1u8 << irq) == 0,
        j != irq ==> ((rq & !(1u8 << irq)) & (1u8 << j)) == (rq & (1u8 << j)),
{
    assert((rq & !(1u8 << irq)) & (1u8 << irq) == 0 && (j != irq ==> ((rq & !(1u8 << irq)) & (1u8
        << j)) == (rq & (1u8 << j)))) by (bit_vector)
        requires
            irq <= 7,
            j <= 7,
    ;
}

/// When the master enable is set and an enabled request with index
/// below five is pending, one step dispatches it and nothing else:
/// the step costs 20 cycles, PC lands on the vector `0x40 + 8 * irq`
/// of the highest-priority (lowest-index) pending source, and the
/// master enable clears.
pub proof fn lemma_dispatch_takes_highest_priority<M: Mem>(c: CpuView<M::MV>)
    requires
        !c.halted,
        c.ime,
    ensures
        ({
            let (c1, en) = spec_mem_loadb::<M>(c, IRQ_ENABLE_ADDR);
            let (c2, rq) = spec_mem_loadb::<M>(c1, IRQ_REQUEST_ADDR);
            let irq = spec_lowest_set_bit(en & rq);
            irq < 5 ==> ({
                let (cf, r) = spec_step::<M>(c);
                r == Ok::<u8, Fault>(20) && cf.regs.pc == 0x40 + irq * 8 && !cf.ime
            })
        }),
{
}

/// A halted CPU with the master enable clear and any request pending
/// wakes on the next step and goes straight to instruction execution:
/// no interrupt is dispatched, no vector is entered.
pub proof fn lemma_halted_wake_no_dispatch<M: Mem>(c: CpuView<M::MV>)
    requires
        c.halted,
        !c.ime,
        M::read_of(c.mem, IRQ_REQUEST_ADDR) != 0,
    ensures
        spec_step::<M>(c) == spec_exec_instr::<M>(
            CpuView { halted: false, mem: M::after_read(c.mem, IRQ_REQUEST_ADDR), ..c },
        ),
{
}

} // verus!
