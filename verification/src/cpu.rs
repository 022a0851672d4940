//! The CPU execution state and its mathematical model.
//!
//! `Cpu` owns the register file, the interrupt-master-enable and halted
//! flags, a monotonic cycle counter, and the injected memory
//! collaborator. `CpuView` is the ghost model of all of that; every
//! public operation's contract says exactly which `CpuView` it produces.

use vstd::prelude::*;

use crate::mem::Mem;
use crate::regs::{Reg16, Reg8, Regs};
use crate::regs::{spec_reg16_load, spec_reg16_store, spec_reg8_load, spec_reg8_store};
use crate::regs::lemma_reg16_store_flags_clean;

verus! {

/// Machine cycles per second of the modelled clock.
pub const CYCLES_PER_SEC: u64 = 4194304;

/// Address of the memory-mapped interrupt request register.
pub const IRQ_REQUEST_ADDR: u16 = 0xff0f;

/// Address of the memory-mapped interrupt enable register.
pub const IRQ_ENABLE_ADDR: u16 = 0xffff;

/// A fatal condition: the program counter reached a byte pattern with
/// no architectural meaning. The offending opcode and its address are
/// reported; real hardware locks up here.
#[derive(Clone, Copy, PartialEq, Eq, Structural, Debug)]
pub struct Fault {
    pub opcode: u8,
    pub addr: u16,
}

/// The model of a whole machine state: registers, interrupt state,
/// elapsed cycles, and the model `V` of the memory collaborator.
pub ghost struct CpuView<V> {
    pub regs: Regs,
    pub ime: bool,
    pub halted: bool,
    pub cycles: u64,
    pub mem: V,
}

/// The CPU: register file, interrupt-master-enable flag, halted flag,
/// elapsed-cycle counter, and the injected memory backing.
pub struct Cpu<M> {
    pub regs: Regs,
    pub ime: bool,
    pub halted: bool,
    pub cycles: u64,
    pub mem: M,
}

impl<M: Mem> View for Cpu<M> {
    type V = CpuView<M::MV>;

    open spec fn view(&self) -> CpuView<M::MV> {
        CpuView {
            regs: self.regs,
            ime: self.ime,
            halted: self.halted,
            cycles: self.cycles,
            mem: self.mem.mview(),
        }
    }
}

/// The model and the byte returned by one memory read.
pub open spec fn spec_mem_loadb<M: Mem>(c: CpuView<M::MV>, addr: u16) -> (CpuView<M::MV>, u8) {
    (CpuView { mem: M::after_read(c.mem, addr), ..c }, M::read_of(c.mem, addr))
}

/// The model after one memory write.
pub open spec fn spec_mem_storeb<M: Mem>(c: CpuView<M::MV>, addr: u16, val: u8) -> CpuView<
    M::MV,
> {
    CpuView { mem: M::after_write(c.mem, addr, val), ..c }
}

/// A 16-bit read: two byte reads in little-endian order, the high byte
/// at `addr + 1` (wrapping at the top of the address space).
pub open spec fn spec_mem_loadw<M: Mem>(c: CpuView<M::MV>, addr: u16) -> (CpuView<M::MV>, u16) {
    let (c1, lo) = spec_mem_loadb::<M>(c, addr);
    let (c2, hi) = spec_mem_loadb::<M>(c1, addr.wrapping_add(1));
    (c2, (hi * 256 + lo) as u16)
}

/// A 16-bit write: low byte at `addr`, high byte at `addr + 1`.
pub open spec fn spec_mem_storew<M: Mem>(c: CpuView<M::MV>, addr: u16, val: u16) -> CpuView<
    M::MV,
> {
    let c1 = spec_mem_storeb::<M>(c, addr, (val % 256) as u8);
    spec_mem_storeb::<M>(c1, addr.wrapping_add(1), (val / 256) as u8)
}

/// Well-formedness of a machine model: the flag nibble is clean and
/// the memory collaborator's own invariant holds.
pub open spec fn view_wf<M: Mem>(v: CpuView<M::MV>) -> bool {
    v.regs.flags_clean() && M::minv(v.mem)
}

impl<M: Mem> Cpu<M> {
    /// Well-formedness of the current state.
    pub open spec fn wf(&self) -> bool {
        view_wf::<M>(self@)
    }

    /// A fresh CPU around an injected memory backing: all registers
    /// zero, not halted, cycle counter at zero. Interrupts start
    /// disabled (the hardware's boot value is ambiguous; disabled is
    /// this model's documented choice).
    pub fn new(mem: M) -> (c: Cpu<M>)
        requires
            M::minv(mem.mview()),
        ensures
            c.wf(),
            c@ == (CpuView {
                regs: Regs { a: 0, b: 0, c: 0, d: 0, e: 0, h: 0, l: 0, f: 0, sp: 0, pc: 0 },
                ime: false,
                halted: false,
                cycles: 0,
                mem: mem.mview(),
            }),
    {
        Cpu { regs: Regs::new(), ime: false, halted: false, cycles: 0, mem }
    }

    /// Whether the given flag bit (or any of the given bits) is set.
    pub fn get_flag(&self, flag: u8) -> (r: bool)
        ensures
            r == (self.regs.f & flag != 0),
    {
        (self.regs.f & flag) != 0
    }

    /// Set or clear the given flag bit.
    pub fn set_flag(&mut self, flag: u8, on: bool)
        requires
            flag & 0x0f == 0,
            old(self).wf(),
        ensures
            final(self).wf(),
            final(self)@ == (CpuView {
                regs: Regs {
                    f: if on {
                        old(self).regs.f | flag
                    } else {
                        old(self).regs.f & !flag
                    },
                    ..old(self).regs
                },
                ..old(self)@
            }),
    {
        proof {
            let f = self.regs.f;
            assert(((f | flag) & 0x0f == 0 && (f & !flag) & 0x0f == 0)) by (bit_vector)
                requires
                    f & 0x0f == 0,
                    flag & 0x0f == 0,
            ;
        }
        if on {
            self.regs.f = self.regs.f | flag;
        } else {
            self.regs.f = self.regs.f & !flag;
        }
    }

    /// Read one byte from memory.
    pub fn mem_loadb(&mut self, addr: u16) -> (b: u8)
        requires
            old(self).wf(),
        ensures
            final(self).wf(),
            final(self).regs == old(self).regs,
            (final(self)@, b) == spec_mem_loadb::<M>(old(self)@, addr),
    {
        self.mem.loadb(addr)
    }

    /// Write one byte to memory.
    pub fn mem_storeb(&mut self, addr: u16, val: u8)
        requires
            old(self).wf(),
        ensures
            final(self).wf(),
            final(self).regs == old(self).regs,
            final(self)@ == spec_mem_storeb::<M>(old(self)@, addr, val),
    {
        self.mem.storeb(addr, val)
    }

    /// Read a 16-bit word from memory, little-endian.
    pub fn mem_loadw(&mut self, addr: u16) -> (w: u16)
        requires
            old(self).wf(),
        ensures
            final(self).wf(),
            final(self).regs == old(self).regs,
            (final(self)@, w) == spec_mem_loadw::<M>(old(self)@, addr),
    {
        let lo = self.mem.loadb(addr);
        let hi = self.mem.loadb(addr.wrapping_add(1));
        hi as u16 * 256 + lo as u16
    }

    /// Write a 16-bit word to memory, little-endian.
    pub fn mem_storew(&mut self, addr: u16, val: u16)
        requires
            old(self).wf(),
        ensures
            final(self).wf(),
            final(self).regs == old(self).regs,
            final(self)@ == spec_mem_storew::<M>(old(self)@, addr, val),
    {
        self.mem.storeb(addr, (val % 256) as u8);
        self.mem.storeb(addr.wrapping_add(1), (val / 256) as u8);
    }
}

impl Reg8 {
    /// The current value of this register.
    pub fn load<M: Mem>(self, cpu: &Cpu<M>) -> (v: u8)
        ensures
            v == spec_reg8_load(cpu.regs, self),
    {
        match self {
            Reg8::A => cpu.regs.a,
            Reg8::B => cpu.regs.b,
            Reg8::C => cpu.regs.c,
            Reg8::D => cpu.regs.d,
            Reg8::E => cpu.regs.e,
            Reg8::H => cpu.regs.h,
            Reg8::L => cpu.regs.l,
        }
    }

    /// Overwrite this register.
    pub fn store<M: Mem>(self, cpu: &mut Cpu<M>, v: u8)
        requires
            old(cpu).wf(),
        ensures
            final(cpu).wf(),
            final(cpu)@ == (CpuView { regs: spec_reg8_store(old(cpu).regs, self, v), ..old(cpu)@ }),
    {
        match self {
            Reg8::A => cpu.regs.a = v,
            Reg8::B => cpu.regs.b = v,
            Reg8::C => cpu.regs.c = v,
            Reg8::D => cpu.regs.d = v,
            Reg8::E => cpu.regs.e = v,
            Reg8::H => cpu.regs.h = v,
            Reg8::L => cpu.regs.l = v,
        }
    }
}

impl Reg16 {
    /// The current value of this register or pair.
    pub fn load<M: Mem>(self, cpu: &Cpu<M>) -> (v: u16)
        ensures
            v == spec_reg16_load(cpu.regs, self),
    {
        match self {
            Reg16::AF => cpu.regs.a as u16 * 256 + cpu.regs.f as u16,
            Reg16::BC => cpu.regs.b as u16 * 256 + cpu.regs.c as u16,
            Reg16::DE => cpu.regs.d as u16 * 256 + cpu.regs.e as u16,
            Reg16::HL => cpu.regs.h as u16 * 256 + cpu.regs.l as u16,
            Reg16::SP => cpu.regs.sp,
            Reg16::PC => cpu.regs.pc,
        }
    }

    /// Overwrite this register or pair. A store to AF forces the low
    /// nibble of F to zero.
    pub fn store<M: Mem>(self, cpu: &mut Cpu<M>, v: u16)
        requires
            old(cpu).wf(),
        ensures
            final(cpu).wf(),
            final(cpu)@ == (CpuView {
                regs: spec_reg16_store(old(cpu).regs, self, v),
                ..old(cpu)@
            }),
    {
        proof {
            lemma_reg16_store_flags_clean(cpu.regs, self, v);
        }
        let hi = (v / 256) as u8;
        let lo = (v % 256) as u8;
        match self {
            Reg16::AF => {
                cpu.regs.a = hi;
                cpu.regs.f = lo & 0xf0;
            },
            Reg16::BC => {
                cpu.regs.b = hi;
                cpu.regs.c = lo;
            },
            Reg16::DE => {
                cpu.regs.d = hi;
                cpu.regs.e = lo;
            },
            Reg16::HL => {
                cpu.regs.h = hi;
                cpu.regs.l = lo;
            },
            Reg16::SP => cpu.regs.sp = v,
            Reg16::PC => cpu.regs.pc = v,
        }
    }
}

} // verus!
