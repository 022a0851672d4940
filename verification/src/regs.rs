//! The register file: eight 8-bit registers (A, B, C, D, E, H, L, F),
//! the 16-bit stack pointer and program counter, and the flag bits
//! that live in the high nibble of F.

use vstd::prelude::*;

verus! {

/// Bit of F holding the carry flag.
pub const CARRY_FLAG: u8 = 0x10;
/// Bit of F holding the half-carry flag (carry out of bit 3).
pub const HALF_CARRY_FLAG: u8 = 0x20;
/// Bit of F holding the subtract flag.
pub const ADD_SUB_FLAG: u8 = 0x40;
/// Bit of F holding the zero flag.
pub const ZERO_FLAG: u8 = 0x80;

/// The CPU register file. Register pairs (AF, BC, DE, HL) are views
/// over these fields, not separate storage.
#[derive(Clone, Copy, PartialEq, Eq, Structural, Debug)]
pub struct Regs {
    pub a: u8,
    pub b: u8,
    pub c: u8,
    pub d: u8,
    pub e: u8,
    pub h: u8,
    pub l: u8,
    pub f: u8,
    pub sp: u16,
    pub pc: u16,
}

/// The 8-bit registers that instructions can address directly.
/// F is reachable only through flag operations and the AF pair.
#[derive(Clone, Copy, PartialEq, Eq, Structural, Debug)]
pub enum Reg8 {
    A,
    B,
    C,
    D,
    E,
    H,
    L,
}

/// The 16-bit registers and register pairs.
#[derive(Clone, Copy, PartialEq, Eq, Structural, Debug)]
pub enum Reg16 {
    AF,
    BC,
    DE,
    HL,
    SP,
    PC,
}

impl Regs {
    /// Hardware constraint: the low nibble of F is unused and always zero.
    pub open spec fn flags_clean(self) -> bool {
        self.f & 0x0f == 0
    }

    /// All registers start at zero.
    pub fn new() -> (r: Regs)
        ensures
            r == (Regs { a: 0, b: 0, c: 0, d: 0, e: 0, h: 0, l: 0, f: 0, sp: 0, pc: 0 }),
            r.flags_clean(),
    {
        proof {
            assert(0u8 & 0x0f == 0) by (bit_vector);
        }
        Regs { a: 0, b: 0, c: 0, d: 0, e: 0, h: 0, l: 0, f: 0, sp: 0, pc: 0 }
    }
}

/// Whether the zero flag is set in a flags byte.
pub open spec fn f_z(f: u8) -> bool {
    f & ZERO_FLAG != 0
}

/// Whether the subtract flag is set in a flags byte.
pub open spec fn f_n(f: u8) -> bool {
    f & ADD_SUB_FLAG != 0
}

/// Whether the half-carry flag is set in a flags byte.
pub open spec fn f_h(f: u8) -> bool {
    f & HALF_CARRY_FLAG != 0
}

/// Whether the carry flag is set in a flags byte.
pub open spec fn f_c(f: u8) -> bool {
    f & CARRY_FLAG != 0
}

/// The flags byte with the given zero, subtract, half-carry and carry
/// bits, and a clean low nibble.
pub open spec fn flags_byte(z: bool, n: bool, h: bool, c: bool) -> u8 {
    (if z { ZERO_FLAG } else { 0 }) | (if n { ADD_SUB_FLAG } else { 0 }) | (if h {
        HALF_CARRY_FLAG
    } else {
        0
    }) | (if c { CARRY_FLAG } else { 0 })
}

/// Each flag reads back from `flags_byte` exactly as it was given, and
/// the low nibble is always clean.
pub proof fn lemma_flags_byte(z: bool, n: bool, h: bool, c: bool)
    ensures
        flags_byte(z, n, h, c) & 0x0f == 0,
        f_z(flags_byte(z, n, h, c)) == z,
        f_n(flags_byte(z, n, h, c)) == n,
        f_h(flags_byte(z, n, h, c)) == h,
        f_c(flags_byte(z, n, h, c)) == c,
{
    let zb: u8 = if z { ZERO_FLAG } else { 0 };
    let nb: u8 = if n { ADD_SUB_FLAG } else { 0 };
    let hb: u8 = if h { HALF_CARRY_FLAG } else { 0 };
    let cb: u8 = if c { CARRY_FLAG } else { 0 };
    assert((zb | nb | hb | cb) & 0x0f == 0 && ((zb | nb | hb | cb) & 0x80 != 0) == (zb == 0x80)
        && ((zb | nb | hb | cb) & 0x40 != 0) == (nb == 0x40) && ((zb | nb | hb | cb) & 0x20 != 0)
        == (hb == 0x20) && ((zb | nb | hb | cb) & 0x10 != 0) == (cb == 0x10)) by (bit_vector)
        requires
            zb == 0 || zb == 0x80,
            nb == 0 || nb == 0x40,
            hb == 0 || hb == 0x20,
            cb == 0 || cb == 0x10,
    ;
}

/// Build a flags byte in executable code.
pub fn flags(z: bool, n: bool, h: bool, c: bool) -> (r: u8)
    ensures
        r == flags_byte(z, n, h, c),
        r & 0x0f == 0,
        f_z(r) == z,
        f_n(r) == n,
        f_h(r) == h,
        f_c(r) == c,
{
    proof {
        lemma_flags_byte(z, n, h, c);
    }
    (if z { ZERO_FLAG } else { 0 }) | (if n { ADD_SUB_FLAG } else { 0 }) | (if h {
        HALF_CARRY_FLAG
    } else {
        0
    }) | (if c { CARRY_FLAG } else { 0 })
}

/// The value of an 8-bit register.
pub open spec fn spec_reg8_load(r: Regs, w: Reg8) -> u8 {
    match w {
        Reg8::A => r.a,
        Reg8::B => r.b,
        Reg8::C => r.c,
        Reg8::D => r.d,
        Reg8::E => r.e,
        Reg8::H => r.h,
        Reg8::L => r.l,
    }
}

/// The register file after writing an 8-bit register.
pub open spec fn spec_reg8_store(r: Regs, w: Reg8, v: u8) -> Regs {
    match w {
        Reg8::A => Regs { a: v, ..r },
        Reg8::B => Regs { b: v, ..r },
        Reg8::C => Regs { c: v, ..r },
        Reg8::D => Regs { d: v, ..r },
        Reg8::E => Regs { e: v, ..r },
        Reg8::H => Regs { h: v, ..r },
        Reg8::L => Regs { l: v, ..r },
    }
}

/// The value of a 16-bit register or pair. Loading a pair yields
/// `high * 256 + low`.
pub open spec fn spec_reg16_load(r: Regs, w: Reg16) -> u16 {
    match w {
        Reg16::AF => (r.a * 256 + r.f) as u16,
        Reg16::BC => (r.b * 256 + r.c) as u16,
        Reg16::DE => (r.d * 256 + r.e) as u16,
        Reg16::HL => (r.h * 256 + r.l) as u16,
        Reg16::SP => r.sp,
        Reg16::PC => r.pc,
    }
}

/// The register file after writing a 16-bit register or pair. A store
/// to AF forces the low nibble of F to zero: those bits do not exist
/// in hardware.
pub open spec fn spec_reg16_store(r: Regs, w: Reg16, v: u16) -> Regs {
    match w {
        Reg16::AF => Regs { a: (v / 256) as u8, f: (v % 256) as u8 & 0xf0, ..r },
        Reg16::BC => Regs { b: (v / 256) as u8, c: (v % 256) as u8, ..r },
        Reg16::DE => Regs { d: (v / 256) as u8, e: (v % 256) as u8, ..r },
        Reg16::HL => Regs { h: (v / 256) as u8, l: (v % 256) as u8, ..r },
        Reg16::SP => Regs { sp: v, ..r },
        Reg16::PC => Regs { pc: v, ..r },
    }
}

/// Masking any byte with 0xf0 leaves a clean low nibble.
pub proof fn lemma_mask_f0_clean(x: u8)
    ensures
        (x & 0xf0) & 0x0f == 0,
{
    assert((x & 0xf0) & 0x0f == 0) by (bit_vector);
}

/// A 16-bit store never dirties the flag nibble: if F was clean before,
/// it is clean after, whichever register is written.
pub proof fn lemma_reg16_store_flags_clean(r: Regs, w: Reg16, v: u16)
    requires
        r.flags_clean(),
    ensures
        spec_reg16_store(r, w, v).flags_clean(),
{
    if w is AF {
        lemma_mask_f0_clean((v % 256) as u8);
    }
}

} // verus!
