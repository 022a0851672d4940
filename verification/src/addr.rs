//! Addressing-mode descriptors: a closed set of operand shapes, each
//! with load, store and cycle-cost semantics. They decouple instruction
//! decode from execution.

use vstd::prelude::*;

use crate::cpu::{spec_mem_loadb, spec_mem_loadw, spec_mem_storeb, spec_mem_storew};
use crate::cpu::{Cpu, CpuView};
use crate::mem::Mem;
use crate::regs::{f_c, f_z, spec_reg16_load, spec_reg16_store, spec_reg8_load, Reg16, Reg8};

verus! {

/// An 8-bit operand.
#[derive(Clone, Copy, PartialEq, Eq, Structural, Debug)]
pub enum Addr8 {
    /// An immediate byte (load-only).
    Imm8(u8),
    /// Zero-page indirect: the byte at `0xFF00 +` a literal offset.
    Ind8(u8),
    /// The byte at an absolute 16-bit address.
    Imm16Ind8(u16),
    /// A register.
    Reg8Dir(Reg8),
    /// Zero-page indirect: the byte at `0xFF00 +` a register's value.
    Reg8Ind8(Reg8),
    /// The byte a register pair points at.
    Reg16Ind8(Reg16),
    /// As `Reg16Ind8`, incrementing the pair after the access.
    Reg16Ind8Inc(Reg16),
    /// As `Reg16Ind8`, decrementing the pair after the access.
    Reg16Ind8Dec(Reg16),
}

/// A 16-bit operand.
#[derive(Clone, Copy, PartialEq, Eq, Structural, Debug)]
pub enum Addr16 {
    /// An immediate word (load-only).
    Imm16(u16),
    /// The word at an absolute 16-bit address.
    Ind16(u16),
    /// A 16-bit register or pair.
    Reg16Dir(Reg16),
}

/// A branch condition, evaluated against the Zero and Carry flags.
#[derive(Clone, Copy, PartialEq, Eq, Structural, Debug)]
pub enum Cond {
    CondNone,
    CondZ,
    CondNZ,
    CondC,
    CondNC,
}

/// Cycle cost of accessing an 8-bit operand: 4 per byte on the memory
/// bus, 0 for a register.
pub open spec fn addr8_cost(a: Addr8) -> u8 {
    match a {
        Addr8::Reg8Dir(_) => 0,
        Addr8::Imm8(_) => 4,
        Addr8::Ind8(_) => 4,
        Addr8::Reg8Ind8(_) => 4,
        Addr8::Reg16Ind8(_) => 8,
        Addr8::Reg16Ind8Inc(_) => 8,
        Addr8::Reg16Ind8Dec(_) => 8,
        Addr8::Imm16Ind8(_) => 12,
    }
}

/// Cycle cost of accessing a 16-bit operand.
pub open spec fn addr16_cost(a: Addr16) -> u8 {
    match a {
        Addr16::Reg16Dir(_) => 0,
        Addr16::Imm16(_) => 8,
        Addr16::Ind16(_) => 16,
    }
}

/// Whether an 8-bit store through this descriptor is meaningful.
/// An immediate is load-only; the legal decode tables never store
/// through one.
pub open spec fn addr8_storable(a: Addr8) -> bool {
    !(a is Imm8)
}

/// Whether a 16-bit store through this descriptor is meaningful.
pub open spec fn addr16_storable(a: Addr16) -> bool {
    !(a is Imm16)
}

/// The machine after loading an 8-bit operand, and the value loaded.
/// The post-increment and post-decrement forms update the register
/// pair after the memory access completes.
pub open spec fn spec_addr8_load<M: Mem>(c: CpuView<M::MV>, a: Addr8) -> (CpuView<M::MV>, u8) {
    match a {
        Addr8::Imm8(v) => (c, v),
        Addr8::Ind8(off) => spec_mem_loadb::<M>(c, (0xff00 + off) as u16),
        Addr8::Imm16Ind8(addr) => spec_mem_loadb::<M>(c, addr),
        Addr8::Reg8Dir(r) => (c, spec_reg8_load(c.regs, r)),
        Addr8::Reg8Ind8(r) => spec_mem_loadb::<M>(c, (0xff00 + spec_reg8_load(c.regs, r)) as u16),
        Addr8::Reg16Ind8(r) => spec_mem_loadb::<M>(c, spec_reg16_load(c.regs, r)),
        Addr8::Reg16Ind8Inc(r) => {
            let addr = spec_reg16_load(c.regs, r);
            let (c1, v) = spec_mem_loadb::<M>(c, addr);
            (CpuView { regs: spec_reg16_store(c1.regs, r, addr.wrapping_add(1)), ..c1 }, v)
        },
        Addr8::Reg16Ind8Dec(r) => {
            let addr = spec_reg16_load(c.regs, r);
            let (c1, v) = spec_mem_loadb::<M>(c, addr);
            (CpuView { regs: spec_reg16_store(c1.regs, r, addr.wrapping_sub(1)), ..c1 }, v)
        },
    }
}

/// The machine after storing an 8-bit value through an operand.
/// Storing through an immediate is meaningless and leaves the machine
/// unchanged; `addr8_storable` rules it out wherever stores happen.
pub open spec fn spec_addr8_store<M: Mem>(c: CpuView<M::MV>, a: Addr8, v: u8) -> CpuView<M::MV> {
    match a {
        Addr8::Imm8(_) => c,
        Addr8::Ind8(off) => spec_mem_storeb::<M>(c, (0xff00 + off) as u16, v),
        Addr8::Imm16Ind8(addr) => spec_mem_storeb::<M>(c, addr, v),
        Addr8::Reg8Dir(r) => CpuView { regs: crate::regs::spec_reg8_store(c.regs, r, v), ..c },
        Addr8::Reg8Ind8(r) => spec_mem_storeb::<M>(
            c,
            (0xff00 + spec_reg8_load(c.regs, r)) as u16,
            v,
        ),
        Addr8::Reg16Ind8(r) => spec_mem_storeb::<M>(c, spec_reg16_load(c.regs, r), v),
        Addr8::Reg16Ind8Inc(r) => {
            let addr = spec_reg16_load(c.regs, r);
            let c1 = spec_mem_storeb::<M>(c, addr, v);
            CpuView { regs: spec_reg16_store(c1.regs, r, addr.wrapping_add(1)), ..c1 }
        },
        Addr8::Reg16Ind8Dec(r) => {
            let addr = spec_reg16_load(c.regs, r);
            let c1 = spec_mem_storeb::<M>(c, addr, v);
            CpuView { regs: spec_reg16_store(c1.regs, r, addr.wrapping_sub(1)), ..c1 }
        },
    }
}

/// The machine after loading a 16-bit operand, and the value loaded.
pub open spec fn spec_addr16_load<M: Mem>(c: CpuView<M::MV>, a: Addr16) -> (CpuView<M::MV>, u16) {
    match a {
        Addr16::Imm16(v) => (c, v),
        Addr16::Ind16(addr) => spec_mem_loadw::<M>(c, addr),
        Addr16::Reg16Dir(r) => (c, spec_reg16_load(c.regs, r)),
    }
}

/// The machine after storing a 16-bit value through an operand.
pub open spec fn spec_addr16_store<M: Mem>(c: CpuView<M::MV>, a: Addr16, v: u16) -> CpuView<
    M::MV,
> {
    match a {
        Addr16::Imm16(_) => c,
        Addr16::Ind16(addr) => spec_mem_storew::<M>(c, addr, v),
        Addr16::Reg16Dir(r) => CpuView { regs: spec_reg16_store(c.regs, r, v), ..c },
    }
}

/// Whether a condition holds of a flags byte.
pub open spec fn spec_cond_eval(f: u8, cond: Cond) -> bool {
    match cond {
        Cond::CondNone => true,
        Cond::CondZ => f_z(f),
        Cond::CondNZ => !f_z(f),
        Cond::CondC => f_c(f),
        Cond::CondNC => !f_c(f),
    }
}

impl Addr8 {
    /// Cycle cost of one access through this operand.
    pub fn cycles(self) -> (r: u8)
        ensures
            r == addr8_cost(self),
    {
        match self {
            Addr8::Reg8Dir(_) => 0,
            Addr8::Imm8(_) => 4,
            Addr8::Ind8(_) => 4,
            Addr8::Reg8Ind8(_) => 4,
            Addr8::Reg16Ind8(_) => 8,
            Addr8::Reg16Ind8Inc(_) => 8,
            Addr8::Reg16Ind8Dec(_) => 8,
            Addr8::Imm16Ind8(_) => 12,
        }
    }

    /// Load the operand's value.
    pub fn load<M: Mem>(self, cpu: &mut Cpu<M>) -> (v: u8)
        requires
            old(cpu).wf(),
        ensures
            final(cpu).wf(),
            (final(cpu)@, v) == spec_addr8_load::<M>(old(cpu)@, self),
    {
        match self {
            Addr8::Imm8(v) => v,
            Addr8::Ind8(off) => cpu.mem_loadb(0xff00 + off as u16),
            Addr8::Imm16Ind8(addr) => cpu.mem_loadb(addr),
            Addr8::Reg8Dir(r) => r.load(cpu),
            Addr8::Reg8Ind8(r) => {
                let off = r.load(cpu);
                cpu.mem_loadb(0xff00 + off as u16)
            },
            Addr8::Reg16Ind8(r) => {
                let addr = r.load(cpu);
                cpu.mem_loadb(addr)
            },
            Addr8::Reg16Ind8Inc(r) => {
                let addr = r.load(cpu);
                let v = cpu.mem_loadb(addr);
                r.store(cpu, addr.wrapping_add(1));
                v
            },
            Addr8::Reg16Ind8Dec(r) => {
                let addr = r.load(cpu);
                let v = cpu.mem_loadb(addr);
                r.store(cpu, addr.wrapping_sub(1));
                v
            },
        }
    }

    /// Store a value through the operand.
    pub fn store<M: Mem>(self, cpu: &mut Cpu<M>, v: u8)
        requires
            old(cpu).wf(),
            addr8_storable(self),
        ensures
            final(cpu).wf(),
            final(cpu)@ == spec_addr8_store::<M>(old(cpu)@, self, v),
    {
        match self {
            Addr8::Imm8(_) => {
            },
            Addr8::Ind8(off) => cpu.mem_storeb(0xff00 + off as u16, v),
            Addr8::Imm16Ind8(addr) => cpu.mem_storeb(addr, v),
            Addr8::Reg8Dir(r) => r.store(cpu, v),
            Addr8::Reg8Ind8(r) => {
                let off = r.load(cpu);
                cpu.mem_storeb(0xff00 + off as u16, v)
            },
            Addr8::Reg16Ind8(r) => {
                let addr = r.load(cpu);
                cpu.mem_storeb(addr, v)
            },
            Addr8::Reg16Ind8Inc(r) => {
                let addr = r.load(cpu);
                cpu.mem_storeb(addr, v);
                r.store(cpu, addr.wrapping_add(1));
            },
            Addr8::Reg16Ind8Dec(r) => {
                let addr = r.load(cpu);
                cpu.mem_storeb(addr, v);
                r.store(cpu, addr.wrapping_sub(1));
            },
        }
    }
}

impl Addr16 {
    /// Cycle cost of one access through this operand.
    pub fn cycles(self) -> (r: u8)
        ensures
            r == addr16_cost(self),
    {
        match self {
            Addr16::Reg16Dir(_) => 0,
            Addr16::Imm16(_) => 8,
            Addr16::Ind16(_) => 16,
        }
    }

    /// Load the operand's value.
    pub fn load<M: Mem>(self, cpu: &mut Cpu<M>) -> (v: u16)
        requires
            old(cpu).wf(),
        ensures
            final(cpu).wf(),
            (final(cpu)@, v) == spec_addr16_load::<M>(old(cpu)@, self),
    {
        match self {
            Addr16::Imm16(v) => v,
            Addr16::Ind16(addr) => cpu.mem_loadw(addr),
            Addr16::Reg16Dir(r) => r.load(cpu),
        }
    }

    /// Store a value through the operand.
    pub fn store<M: Mem>(self, cpu: &mut Cpu<M>, v: u16)
        requires
            old(cpu).wf(),
            addr16_storable(self),
        ensures
            final(cpu).wf(),
            final(cpu)@ == spec_addr16_store::<M>(old(cpu)@, self, v),
    {
        match self {
            Addr16::Imm16(_) => {
            },
            Addr16::Ind16(addr) => cpu.mem_storew(addr, v),
            Addr16::Reg16Dir(r) => r.store(cpu, v),
        }
    }
}

impl Cond {
    /// Evaluate the condition against the CPU's flags.
    pub fn eval<M: Mem>(self, cpu: &Cpu<M>) -> (r: bool)
        ensures
            r == spec_cond_eval(cpu.regs.f, self),
    {
        match self {
            Cond::CondNone => true,
            Cond::CondZ => cpu.get_flag(crate::regs::ZERO_FLAG),
            Cond::CondNZ => !cpu.get_flag(crate::regs::ZERO_FLAG),
            Cond::CondC => cpu.get_flag(crate::regs::CARRY_FLAG),
            Cond::CondNC => !cpu.get_flag(crate::regs::CARRY_FLAG),
        }
    }
}

} // verus!
