//! Instruction decode: a stateless dispatcher over a capability
//! interface with one method per instruction class.
//!
//! The dispatcher is generic over the handler's result type, so the
//! same opcode table drives both execution and any collaborator that
//! wants to observe instruction structure (such as a disassembler).
//! `Instr` names the decoded instruction; `spec_decode` is the
//! mathematical decode table that `decode`'s contract is stated over.

use vstd::prelude::*;

use crate::addr::{addr16_storable, addr8_storable, Addr16, Addr8, Cond};
use crate::regs::{Reg16, Reg8};

verus! {

/// A decoded instruction: the handler to invoke and its operands.
#[derive(Clone, Copy, PartialEq, Eq, Structural, Debug)]
pub enum Instr {
    Nop,
    Ei,
    Di,
    Halt,
    Stop(u8),
    Jp(Cond, Addr16),
    Jr(Cond, i8),
    Call(Cond, Addr16),
    Rst(u8),
    Ret(Cond),
    Reti,
    Ld8(Addr8, Addr8),
    Ld16(Addr16, Addr16),
    Ldh(Addr8, Addr8),
    Ldhl(i8),
    Push(Addr16),
    Pop(Addr16),
    Add8(Addr8),
    Add16(Addr16, Addr16),
    AddSp(i8),
    Adc(Addr8),
    Sub(Addr8),
    Sbc(Addr8),
    Inc8(Addr8),
    Inc16(Addr16),
    Dec8(Addr8),
    Dec16(Addr16),
    And(Addr8),
    Or(Addr8),
    Xor(Addr8),
    Cp(Addr8),
    Cpl,
    Scf,
    Ccf,
    Daa,
    Rlca,
    Rla,
    Rrca,
    Rra,
    Rlc(Addr8),
    Rl(Addr8),
    Rrc(Addr8),
    Rr(Addr8),
    Sla(Addr8),
    Sra(Addr8),
    Srl(Addr8),
    Bit(u8, Addr8),
    Res(u8, Addr8),
    SetBit(u8, Addr8),
    Swap(Addr8),
    Undef(u8),
}

/// The canonical operand encoded in an opcode's low 3 bits, in the
/// fixed order B, C, D, E, H, L, (HL), A. Shared by the
/// register-to-register load block, the ALU block and the whole
/// extension table.
pub open spec fn spec_decode_addr(code: u8) -> Addr8 {
    match code & 0x07 {
        0 => Addr8::Reg8Dir(Reg8::B),
        1 => Addr8::Reg8Dir(Reg8::C),
        2 => Addr8::Reg8Dir(Reg8::D),
        3 => Addr8::Reg8Dir(Reg8::E),
        4 => Addr8::Reg8Dir(Reg8::H),
        5 => Addr8::Reg8Dir(Reg8::L),
        6 => Addr8::Reg16Ind8(Reg16::HL),
        _ => Addr8::Reg8Dir(Reg8::A),
    }
}

/// Executable form of `spec_decode_addr`. Every canonical operand can
/// be both loaded and stored through.
pub fn decode_addr(code: u8) -> (a: Addr8)
    ensures
        a == spec_decode_addr(code),
        addr8_storable(a),
{
    match code & 0x07 {
        0 => Addr8::Reg8Dir(Reg8::B),
        1 => Addr8::Reg8Dir(Reg8::C),
        2 => Addr8::Reg8Dir(Reg8::D),
        3 => Addr8::Reg8Dir(Reg8::E),
        4 => Addr8::Reg8Dir(Reg8::H),
        5 => Addr8::Reg8Dir(Reg8::L),
        6 => Addr8::Reg16Ind8(Reg16::HL),
        _ => Addr8::Reg8Dir(Reg8::A),
    }
}

/// A 16-bit immediate assembled from its low and high bytes.
pub open spec fn word_of(lo: u8, hi: u8) -> u16 {
    (hi * 256 + lo) as u16
}

/// A fetched byte reinterpreted as a signed displacement.
pub open spec fn to_i8(b: u8) -> i8 {
    if b < 128 {
        b as i8
    } else {
        (b - 256) as i8
    }
}

/// Executable form of `to_i8`.
pub fn to_rel(b: u8) -> (r: i8)
    ensures
        r == to_i8(b),
{
    if b < 128 {
        b as i8
    } else {
        ((b as i16) - 256) as i8
    }
}

/// How many immediate bytes follow an opcode (the extension byte after
/// 0xCB counts as one).
pub open spec fn imm_len(b0: u8) -> u8 {
    if b0 < 0x40 {
        match b0 {
            0x01 | 0x11 | 0x21 | 0x31 | 0x08 => 2,
            0x06 | 0x0e | 0x16 | 0x1e | 0x26 | 0x2e | 0x36 | 0x3e => 1,
            0x10 | 0x18 | 0x20 | 0x28 | 0x30 | 0x38 => 1,
            _ => 0,
        }
    } else if b0 < 0xc0 {
        0
    } else {
        match b0 {
            0xc2 | 0xc3 | 0xc4 | 0xca | 0xcc | 0xcd | 0xd2 | 0xd4 | 0xda | 0xdc | 0xea | 0xfa => 2,
            0xc6 | 0xce | 0xd6 | 0xde | 0xe6 | 0xee | 0xf6 | 0xfe => 1,
            0xe0 | 0xf0 | 0xe8 | 0xf8 | 0xcb => 1,
            _ => 0,
        }
    }
}

/// Decode table for opcodes 0x00..=0x3F.
pub open spec fn instr_base_lo(b0: u8, b1: u8, b2: u8) -> Instr {
    match b0 {
        0x00 => Instr::Nop,
        0x01 => Instr::Ld16(Addr16::Reg16Dir(Reg16::BC), Addr16::Imm16(word_of(b1, b2))),
        0x02 => Instr::Ld8(Addr8::Reg16Ind8(Reg16::BC), Addr8::Reg8Dir(Reg8::A)),
        0x03 => Instr::Inc16(Addr16::Reg16Dir(Reg16::BC)),
        0x04 => Instr::Inc8(Addr8::Reg8Dir(Reg8::B)),
        0x05 => Instr::Dec8(Addr8::Reg8Dir(Reg8::B)),
        0x06 => Instr::Ld8(Addr8::Reg8Dir(Reg8::B), Addr8::Imm8(b1)),
        0x07 => Instr::Rlca,
        0x08 => Instr::Ld16(Addr16::Ind16(word_of(b1, b2)), Addr16::Reg16Dir(Reg16::SP)),
        0x09 => Instr::Add16(Addr16::Reg16Dir(Reg16::HL), Addr16::Reg16Dir(Reg16::BC)),
        0x0a => Instr::Ld8(Addr8::Reg8Dir(Reg8::A), Addr8::Reg16Ind8(Reg16::BC)),
        0x0b => Instr::Dec16(Addr16::Reg16Dir(Reg16::BC)),
        0x0c => Instr::Inc8(Addr8::Reg8Dir(Reg8::C)),
        0x0d => Instr::Dec8(Addr8::Reg8Dir(Reg8::C)),
        0x0e => Instr::Ld8(Addr8::Reg8Dir(Reg8::C), Addr8::Imm8(b1)),
        0x0f => Instr::Rrca,
        0x10 => Instr::Stop(b1),
        0x11 => Instr::Ld16(Addr16::Reg16Dir(Reg16::DE), Addr16::Imm16(word_of(b1, b2))),
        0x12 => Instr::Ld8(Addr8::Reg16Ind8(Reg16::DE), Addr8::Reg8Dir(Reg8::A)),
        0x13 => Instr::Inc16(Addr16::Reg16Dir(Reg16::DE)),
        0x14 => Instr::Inc8(Addr8::Reg8Dir(Reg8::D)),
        0x15 => Instr::Dec8(Addr8::Reg8Dir(Reg8::D)),
        0x16 => Instr::Ld8(Addr8::Reg8Dir(Reg8::D), Addr8::Imm8(b1)),
        0x17 => Instr::Rla,
        0x18 => Instr::Jr(Cond::CondNone, to_i8(b1)),
        0x19 => Instr::Add16(Addr16::Reg16Dir(Reg16::HL), Addr16::Reg16Dir(Reg16::DE)),
        0x1a => Instr::Ld8(Addr8::Reg8Dir(Reg8::A), Addr8::Reg16Ind8(Reg16::DE)),
        0x1b => Instr::Dec16(Addr16::Reg16Dir(Reg16::DE)),
        0x1c => Instr::Inc8(Addr8::Reg8Dir(Reg8::E)),
        0x1d => Instr::Dec8(Addr8::Reg8Dir(Reg8::E)),
        0x1e => Instr::Ld8(Addr8::Reg8Dir(Reg8::E), Addr8::Imm8(b1)),
        0x1f => Instr::Rra,
        0x20 => Instr::Jr(Cond::CondNZ, to_i8(b1)),
        0x21 => Instr::Ld16(Addr16::Reg16Dir(Reg16::HL), Addr16::Imm16(word_of(b1, b2))),
        0x22 => Instr::Ld8(Addr8::Reg16Ind8Inc(Reg16::HL), Addr8::Reg8Dir(Reg8::A)),
        0x23 => Instr::Inc16(Addr16::Reg16Dir(Reg16::HL)),
        0x24 => Instr::Inc8(Addr8::Reg8Dir(Reg8::H)),
        0x25 => Instr::Dec8(Addr8::Reg8Dir(Reg8::H)),
        0x26 => Instr::Ld8(Addr8::Reg8Dir(Reg8::H), Addr8::Imm8(b1)),
        0x27 => Instr::Daa,
        0x28 => Instr::Jr(Cond::CondZ, to_i8(b1)),
        0x29 => Instr::Add16(Addr16::Reg16Dir(Reg16::HL), Addr16::Reg16Dir(Reg16::HL)),
        0x2a => Instr::Ld8(Addr8::Reg8Dir(Reg8::A), Addr8::Reg16Ind8Inc(Reg16::HL)),
        0x2b => Instr::Dec16(Addr16::Reg16Dir(Reg16::HL)),
        0x2c => Instr::Inc8(Addr8::Reg8Dir(Reg8::L)),
        0x2d => Instr::Dec8(Addr8::Reg8Dir(Reg8::L)),
        0x2e => Instr::Ld8(Addr8::Reg8Dir(Reg8::L), Addr8::Imm8(b1)),
        0x2f => Instr::Cpl,
        0x30 => Instr::Jr(Cond::CondNC, to_i8(b1)),
        0x31 => Instr::Ld16(Addr16::Reg16Dir(Reg16::SP), Addr16::Imm16(word_of(b1, b2))),
        0x32 => Instr::Ld8(Addr8::Reg16Ind8Dec(Reg16::HL), Addr8::Reg8Dir(Reg8::A)),
        0x33 => Instr::Inc16(Addr16::Reg16Dir(Reg16::SP)),
        0x34 => Instr::Inc8(Addr8::Reg16Ind8(Reg16::HL)),
        0x35 => Instr::Dec8(Addr8::Reg16Ind8(Reg16::HL)),
        0x36 => Instr::Ld8(Addr8::Reg16Ind8(Reg16::HL), Addr8::Imm8(b1)),
        0x37 => Instr::Scf,
        0x38 => Instr::Jr(Cond::CondC, to_i8(b1)),
        0x39 => Instr::Add16(Addr16::Reg16Dir(Reg16::HL), Addr16::Reg16Dir(Reg16::SP)),
        0x3a => Instr::Ld8(Addr8::Reg8Dir(Reg8::A), Addr8::Reg16Ind8Dec(Reg16::HL)),
        0x3b => Instr::Dec16(Addr16::Reg16Dir(Reg16::SP)),
        0x3c => Instr::Inc8(Addr8::Reg8Dir(Reg8::A)),
        0x3d => Instr::Dec8(Addr8::Reg8Dir(Reg8::A)),
        0x3e => Instr::Ld8(Addr8::Reg8Dir(Reg8::A), Addr8::Imm8(b1)),
        // The one remaining encoding in this quarter is 0x3F, CCF.
        _ => Instr::Ccf,
    }
}

/// Decode table for the ALU block 0x80..=0xBF: the operation sits in
/// bits 3-5, the operand in the low 3 bits.
pub open spec fn instr_alu(b0: u8) -> Instr {
    let a = spec_decode_addr(b0);
    match (b0 >> 3) & 0x07 {
        0 => Instr::Add8(a),
        1 => Instr::Adc(a),
        2 => Instr::Sub(a),
        3 => Instr::Sbc(a),
        4 => Instr::And(a),
        5 => Instr::Xor(a),
        6 => Instr::Or(a),
        _ => Instr::Cp(a),
    }
}

/// Decode table for the extension opcode space (after prefix 0xCB):
/// bits 3-7 of the second byte select the operation, the low 3 bits
/// the operand; for BIT/RES/SET bits 3-5 are the bit index.
pub open spec fn instr_ext(b1: u8) -> Instr {
    let a = spec_decode_addr(b1);
    let idx = (b1 >> 3) & 0x07;
    if b1 < 0x40 {
        match (b1 >> 3) & 0x07 {
            0 => Instr::Rlc(a),
            1 => Instr::Rrc(a),
            2 => Instr::Rl(a),
            3 => Instr::Rr(a),
            4 => Instr::Sla(a),
            5 => Instr::Sra(a),
            6 => Instr::Swap(a),
            _ => Instr::Srl(a),
        }
    } else if b1 < 0x80 {
        Instr::Bit(idx, a)
    } else if b1 < 0xc0 {
        Instr::Res(idx, a)
    } else {
        Instr::SetBit(idx, a)
    }
}

/// Decode table for opcodes 0xC0..=0xFF. Byte patterns with no
/// architectural meaning decode to `Undef`.
pub open spec fn instr_base_hi(b0: u8, b1: u8, b2: u8) -> Instr {
    match b0 {
        0xc0 => Instr::Ret(Cond::CondNZ),
        0xc1 => Instr::Pop(Addr16::Reg16Dir(Reg16::BC)),
        0xc2 => Instr::Jp(Cond::CondNZ, Addr16::Imm16(word_of(b1, b2))),
        0xc3 => Instr::Jp(Cond::CondNone, Addr16::Imm16(word_of(b1, b2))),
        0xc4 => Instr::Call(Cond::CondNZ, Addr16::Imm16(word_of(b1, b2))),
        0xc5 => Instr::Push(Addr16::Reg16Dir(Reg16::BC)),
        0xc6 => Instr::Add8(Addr8::Imm8(b1)),
        0xc7 => Instr::Rst(0x00),
        0xc8 => Instr::Ret(Cond::CondZ),
        0xc9 => Instr::Ret(Cond::CondNone),
        0xca => Instr::Jp(Cond::CondZ, Addr16::Imm16(word_of(b1, b2))),
        0xcb => instr_ext(b1),
        0xcc => Instr::Call(Cond::CondZ, Addr16::Imm16(word_of(b1, b2))),
        0xcd => Instr::Call(Cond::CondNone, Addr16::Imm16(word_of(b1, b2))),
        0xce => Instr::Adc(Addr8::Imm8(b1)),
        0xcf => Instr::Rst(0x08),
        0xd0 => Instr::Ret(Cond::CondNC),
        0xd1 => Instr::Pop(Addr16::Reg16Dir(Reg16::DE)),
        0xd2 => Instr::Jp(Cond::CondNC, Addr16::Imm16(word_of(b1, b2))),
        0xd4 => Instr::Call(Cond::CondNC, Addr16::Imm16(word_of(b1, b2))),
        0xd5 => Instr::Push(Addr16::Reg16Dir(Reg16::DE)),
        0xd6 => Instr::Sub(Addr8::Imm8(b1)),
        0xd7 => Instr::Rst(0x10),
        0xd8 => Instr::Ret(Cond::CondC),
        0xd9 => Instr::Reti,
        0xda => Instr::Jp(Cond::CondC, Addr16::Imm16(word_of(b1, b2))),
        0xdc => Instr::Call(Cond::CondC, Addr16::Imm16(word_of(b1, b2))),
        0xde => Instr::Sbc(Addr8::Imm8(b1)),
        0xdf => Instr::Rst(0x18),
        0xe0 => Instr::Ldh(Addr8::Ind8(b1), Addr8::Reg8Dir(Reg8::A)),
        0xe1 => Instr::Pop(Addr16::Reg16Dir(Reg16::HL)),
        0xe2 => Instr::Ld8(Addr8::Reg8Ind8(Reg8::C), Addr8::Reg8Dir(Reg8::A)),
        0xe5 => Instr::Push(Addr16::Reg16Dir(Reg16::HL)),
        0xe6 => Instr::And(Addr8::Imm8(b1)),
        0xe7 => Instr::Rst(0x20),
        0xe8 => Instr::AddSp(to_i8(b1)),
        0xe9 => Instr::Jp(Cond::CondNone, Addr16::Reg16Dir(Reg16::HL)),
        0xea => Instr::Ld8(Addr8::Imm16Ind8(word_of(b1, b2)), Addr8::Reg8Dir(Reg8::A)),
        0xee => Instr::Xor(Addr8::Imm8(b1)),
        0xef => Instr::Rst(0x28),
        0xf0 => Instr::Ldh(Addr8::Reg8Dir(Reg8::A), Addr8::Ind8(b1)),
        0xf1 => Instr::Pop(Addr16::Reg16Dir(Reg16::AF)),
        0xf2 => Instr::Ld8(Addr8::Reg8Dir(Reg8::A), Addr8::Reg8Ind8(Reg8::C)),
        0xf3 => Instr::Di,
        0xf5 => Instr::Push(Addr16::Reg16Dir(Reg16::AF)),
        0xf6 => Instr::Or(Addr8::Imm8(b1)),
        0xf7 => Instr::Rst(0x30),
        0xf8 => Instr::Ldhl(to_i8(b1)),
        0xf9 => Instr::Ld16(Addr16::Reg16Dir(Reg16::SP), Addr16::Reg16Dir(Reg16::HL)),
        0xfa => Instr::Ld8(Addr8::Reg8Dir(Reg8::A), Addr8::Imm16Ind8(word_of(b1, b2))),
        0xfb => Instr::Ei,
        0xfe => Instr::Cp(Addr8::Imm8(b1)),
        0xff => Instr::Rst(0x38),
        _ => Instr::Undef(b0),
    }
}

/// The full decode table: the instruction encoded by opcode `b0` with
/// immediate bytes `b1` and `b2` (ignored where `imm_len` says fewer
/// bytes follow).
pub open spec fn instr_of(b0: u8, b1: u8, b2: u8) -> Instr {
    if b0 < 0x40 {
        instr_base_lo(b0, b1, b2)
    } else if b0 < 0x80 {
        if b0 == 0x76 {
            Instr::Halt
        } else {
            Instr::Ld8(spec_decode_addr(b0 >> 3), spec_decode_addr(b0))
        }
    } else if b0 < 0xc0 {
        instr_alu(b0)
    } else {
        instr_base_hi(b0, b1, b2)
    }
}

/// The capability interface instruction decode dispatches into: a
/// byte-fetch primitive plus one handler per instruction class,
/// parameterized over the handler result type `R`.
///
/// A decoder's behaviour is pinned by its model `DV`: `fetch_model`
/// says what one fetch yields, `handle_model` what each handler does.
pub trait Decoder<R>: Sized {
    /// The mathematical model of the decoder's state.
    type DV;

    /// The model of the current state.
    spec fn dview(&self) -> Self::DV;

    /// States the decoder may legally be driven from; fetching and
    /// handling preserve it.
    spec fn dready(v: Self::DV) -> bool;

    /// What one byte fetch yields: the successor state and the byte.
    spec fn fetch_model(v: Self::DV) -> (Self::DV, u8);

    /// What handling one decoded instruction yields: the successor
    /// state and the handler result.
    spec fn handle_model(v: Self::DV, i: Instr) -> (Self::DV, R);

    /// Fetch the next instruction byte.
    fn fetch(&mut self) -> (b: u8)
        requires
            Self::dready(old(self).dview()),
        ensures
            Self::dready(final(self).dview()),
            (final(self).dview(), b) == Self::fetch_model(old(self).dview()),
    ;

    fn nop(&mut self) -> (r: R)
        requires
            Self::dready(old(self).dview()),
        ensures
            Self::dready(final(self).dview()),
            (final(self).dview(), r) == Self::handle_model(old(self).dview(), Instr::Nop),
    ;

    fn ei(&mut self) -> (r: R)
        requires
            Self::dready(old(self).dview()),
        ensures
            Self::dready(final(self).dview()),
            (final(self).dview(), r) == Self::handle_model(old(self).dview(), Instr::Ei),
    ;

    fn di(&mut self) -> (r: R)
        requires
            Self::dready(old(self).dview()),
        ensures
            Self::dready(final(self).dview()),
            (final(self).dview(), r) == Self::handle_model(old(self).dview(), Instr::Di),
    ;

    fn halt(&mut self) -> (r: R)
        requires
            Self::dready(old(self).dview()),
        ensures
            Self::dready(final(self).dview()),
            (final(self).dview(), r) == Self::handle_model(old(self).dview(), Instr::Halt),
    ;

    fn stop(&mut self, val: u8) -> (r: R)
        requires
            Self::dready(old(self).dview()),
        ensures
            Self::dready(final(self).dview()),
            (final(self).dview(), r) == Self::handle_model(old(self).dview(), Instr::Stop(val)),
    ;

    fn jp(&mut self, cond: Cond, addr: Addr16) -> (r: R)
        requires
            Self::dready(old(self).dview()),
        ensures
            Self::dready(final(self).dview()),
            (final(self).dview(), r) == Self::handle_model(
                old(self).dview(),
                Instr::Jp(cond, addr),
            ),
    ;

    fn jr(&mut self, cond: Cond, rel: i8) -> (r: R)
        requires
            Self::dready(old(self).dview()),
        ensures
            Self::dready(final(self).dview()),
            (final(self).dview(), r) == Self::handle_model(
                old(self).dview(),
                Instr::Jr(cond, rel),
            ),
    ;

    fn call(&mut self, cond: Cond, addr: Addr16) -> (r: R)
        requires
            Self::dready(old(self).dview()),
        ensures
            Self::dready(final(self).dview()),
            (final(self).dview(), r) == Self::handle_model(
                old(self).dview(),
                Instr::Call(cond, addr),
            ),
    ;

    fn rst(&mut self, addr: u8) -> (r: R)
        requires
            Self::dready(old(self).dview()),
        ensures
            Self::dready(final(self).dview()),
            (final(self).dview(), r) == Self::handle_model(old(self).dview(), Instr::Rst(addr)),
    ;

    fn ret(&mut self, cond: Cond) -> (r: R)
        requires
            Self::dready(old(self).dview()),
        ensures
            Self::dready(final(self).dview()),
            (final(self).dview(), r) == Self::handle_model(old(self).dview(), Instr::Ret(cond)),
    ;

    fn reti(&mut self) -> (r: R)
        requires
            Self::dready(old(self).dview()),
        ensures
            Self::dready(final(self).dview()),
            (final(self).dview(), r) == Self::handle_model(old(self).dview(), Instr::Reti),
    ;

    fn ld8(&mut self, dst: Addr8, src: Addr8) -> (r: R)
        requires
            Self::dready(old(self).dview()),
            addr8_storable(dst),
        ensures
            Self::dready(final(self).dview()),
            (final(self).dview(), r) == Self::handle_model(
                old(self).dview(),
                Instr::Ld8(dst, src),
            ),
    ;

    fn ld16(&mut self, dst: Addr16, src: Addr16) -> (r: R)
        requires
            Self::dready(old(self).dview()),
            addr16_storable(dst),
        ensures
            Self::dready(final(self).dview()),
            (final(self).dview(), r) == Self::handle_model(
                old(self).dview(),
                Instr::Ld16(dst, src),
            ),
    ;

    fn ldh(&mut self, dst: Addr8, src: Addr8) -> (r: R)
        requires
            Self::dready(old(self).dview()),
            addr8_storable(dst),
        ensures
            Self::dready(final(self).dview()),
            (final(self).dview(), r) == Self::handle_model(
                old(self).dview(),
                Instr::Ldh(dst, src),
            ),
    ;

    fn ldhl(&mut self, rel: i8) -> (r: R)
        requires
            Self::dready(old(self).dview()),
        ensures
            Self::dready(final(self).dview()),
            (final(self).dview(), r) == Self::handle_model(old(self).dview(), Instr::Ldhl(rel)),
    ;

    fn push(&mut self, src: Addr16) -> (r: R)
        requires
            Self::dready(old(self).dview()),
        ensures
            Self::dready(final(self).dview()),
            (final(self).dview(), r) == Self::handle_model(old(self).dview(), Instr::Push(src)),
    ;

    fn pop(&mut self, dst: Addr16) -> (r: R)
        requires
            Self::dready(old(self).dview()),
            addr16_storable(dst),
        ensures
            Self::dready(final(self).dview()),
            (final(self).dview(), r) == Self::handle_model(old(self).dview(), Instr::Pop(dst)),
    ;

    fn add8(&mut self, src: Addr8) -> (r: R)
        requires
            Self::dready(old(self).dview()),
        ensures
            Self::dready(final(self).dview()),
            (final(self).dview(), r) == Self::handle_model(old(self).dview(), Instr::Add8(src)),
    ;

    fn add16(&mut self, dst: Addr16, src: Addr16) -> (r: R)
        requires
            Self::dready(old(self).dview()),
            addr16_storable(dst),
        ensures
            Self::dready(final(self).dview()),
            (final(self).dview(), r) == Self::handle_model(
                old(self).dview(),
                Instr::Add16(dst, src),
            ),
    ;

    fn addsp(&mut self, rel: i8) -> (r: R)
        requires
            Self::dready(old(self).dview()),
        ensures
            Self::dready(final(self).dview()),
            (final(self).dview(), r) == Self::handle_model(old(self).dview(), Instr::AddSp(rel)),
    ;

    fn adc(&mut self, src: Addr8) -> (r: R)
        requires
            Self::dready(old(self).dview()),
        ensures
            Self::dready(final(self).dview()),
            (final(self).dview(), r) == Self::handle_model(old(self).dview(), Instr::Adc(src)),
    ;

    fn sub(&mut self, src: Addr8) -> (r: R)
        requires
            Self::dready(old(self).dview()),
        ensures
            Self::dready(final(self).dview()),
            (final(self).dview(), r) == Self::handle_model(old(self).dview(), Instr::Sub(src)),
    ;

    fn sbc(&mut self, src: Addr8) -> (r: R)
        requires
            Self::dready(old(self).dview()),
        ensures
            Self::dready(final(self).dview()),
            (final(self).dview(), r) == Self::handle_model(old(self).dview(), Instr::Sbc(src)),
    ;

    fn inc8(&mut self, dst: Addr8) -> (r: R)
        requires
            Self::dready(old(self).dview()),
            addr8_storable(dst),
        ensures
            Self::dready(final(self).dview()),
            (final(self).dview(), r) == Self::handle_model(old(self).dview(), Instr::Inc8(dst)),
    ;

    fn inc16(&mut self, dst: Addr16) -> (r: R)
        requires
            Self::dready(old(self).dview()),
            addr16_storable(dst),
        ensures
            Self::dready(final(self).dview()),
            (final(self).dview(), r) == Self::handle_model(old(self).dview(), Instr::Inc16(dst)),
    ;

    fn dec8(&mut self, dst: Addr8) -> (r: R)
        requires
            Self::dready(old(self).dview()),
            addr8_storable(dst),
        ensures
            Self::dready(final(self).dview()),
            (final(self).dview(), r) == Self::handle_model(old(self).dview(), Instr::Dec8(dst)),
    ;

    fn dec16(&mut self, dst: Addr16) -> (r: R)
        requires
            Self::dready(old(self).dview()),
            addr16_storable(dst),
        ensures
            Self::dready(final(self).dview()),
            (final(self).dview(), r) == Self::handle_model(old(self).dview(), Instr::Dec16(dst)),
    ;

    fn and(&mut self, src: Addr8) -> (r: R)
        requires
            Self::dready(old(self).dview()),
        ensures
            Self::dready(final(self).dview()),
            (final(self).dview(), r) == Self::handle_model(old(self).dview(), Instr::And(src)),
    ;

    fn or(&mut self, src: Addr8) -> (r: R)
        requires
            Self::dready(old(self).dview()),
        ensures
            Self::dready(final(self).dview()),
            (final(self).dview(), r) == Self::handle_model(old(self).dview(), Instr::Or(src)),
    ;

    fn xor(&mut self, src: Addr8) -> (r: R)
        requires
            Self::dready(old(self).dview()),
        ensures
            Self::dready(final(self).dview()),
            (final(self).dview(), r) == Self::handle_model(old(self).dview(), Instr::Xor(src)),
    ;

    fn cp(&mut self, src: Addr8) -> (r: R)
        requires
            Self::dready(old(self).dview()),
        ensures
            Self::dready(final(self).dview()),
            (final(self).dview(), r) == Self::handle_model(old(self).dview(), Instr::Cp(src)),
    ;

    fn cpl(&mut self) -> (r: R)
        requires
            Self::dready(old(self).dview()),
        ensures
            Self::dready(final(self).dview()),
            (final(self).dview(), r) == Self::handle_model(old(self).dview(), Instr::Cpl),
    ;

    fn scf(&mut self) -> (r: R)
        requires
            Self::dready(old(self).dview()),
        ensures
            Self::dready(final(self).dview()),
            (final(self).dview(), r) == Self::handle_model(old(self).dview(), Instr::Scf),
    ;

    fn ccf(&mut self) -> (r: R)
        requires
            Self::dready(old(self).dview()),
        ensures
            Self::dready(final(self).dview()),
            (final(self).dview(), r) == Self::handle_model(old(self).dview(), Instr::Ccf),
    ;

    fn daa(&mut self) -> (r: R)
        requires
            Self::dready(old(self).dview()),
        ensures
            Self::dready(final(self).dview()),
            (final(self).dview(), r) == Self::handle_model(old(self).dview(), Instr::Daa),
    ;

    fn rlca(&mut self) -> (r: R)
        requires
            Self::dready(old(self).dview()),
        ensures
            Self::dready(final(self).dview()),
            (final(self).dview(), r) == Self::handle_model(old(self).dview(), Instr::Rlca),
    ;

    fn rla(&mut self) -> (r: R)
        requires
            Self::dready(old(self).dview()),
        ensures
            Self::dready(final(self).dview()),
            (final(self).dview(), r) == Self::handle_model(old(self).dview(), Instr::Rla),
    ;

    fn rrca(&mut self) -> (r: R)
        requires
            Self::dready(old(self).dview()),
        ensures
            Self::dready(final(self).dview()),
            (final(self).dview(), r) == Self::handle_model(old(self).dview(), Instr::Rrca),
    ;

    fn rra(&mut self) -> (r: R)
        requires
            Self::dready(old(self).dview()),
        ensures
            Self::dready(final(self).dview()),
            (final(self).dview(), r) == Self::handle_model(old(self).dview(), Instr::Rra),
    ;

    fn rlc(&mut self, dst: Addr8) -> (r: R)
        requires
            Self::dready(old(self).dview()),
            addr8_storable(dst),
        ensures
            Self::dready(final(self).dview()),
            (final(self).dview(), r) == Self::handle_model(old(self).dview(), Instr::Rlc(dst)),
    ;

    fn rl(&mut self, dst: Addr8) -> (r: R)
        requires
            Self::dready(old(self).dview()),
            addr8_storable(dst),
        ensures
            Self::dready(final(self).dview()),
            (final(self).dview(), r) == Self::handle_model(old(self).dview(), Instr::Rl(dst)),
    ;

    fn rrc(&mut self, dst: Addr8) -> (r: R)
        requires
            Self::dready(old(self).dview()),
            addr8_storable(dst),
        ensures
            Self::dready(final(self).dview()),
            (final(self).dview(), r) == Self::handle_model(old(self).dview(), Instr::Rrc(dst)),
    ;

    fn rr(&mut self, dst: Addr8) -> (r: R)
        requires
            Self::dready(old(self).dview()),
            addr8_storable(dst),
        ensures
            Self::dready(final(self).dview()),
            (final(self).dview(), r) == Self::handle_model(old(self).dview(), Instr::Rr(dst)),
    ;

    fn sla(&mut self, dst: Addr8) -> (r: R)
        requires
            Self::dready(old(self).dview()),
            addr8_storable(dst),
        ensures
            Self::dready(final(self).dview()),
            (final(self).dview(), r) == Self::handle_model(old(self).dview(), Instr::Sla(dst)),
    ;

    fn sra(&mut self, dst: Addr8) -> (r: R)
        requires
            Self::dready(old(self).dview()),
            addr8_storable(dst),
        ensures
            Self::dready(final(self).dview()),
            (final(self).dview(), r) == Self::handle_model(old(self).dview(), Instr::Sra(dst)),
    ;

    fn srl(&mut self, dst: Addr8) -> (r: R)
        requires
            Self::dready(old(self).dview()),
            addr8_storable(dst),
        ensures
            Self::dready(final(self).dview()),
            (final(self).dview(), r) == Self::handle_model(old(self).dview(), Instr::Srl(dst)),
    ;

    fn bit(&mut self, b: u8, src: Addr8) -> (r: R)
        requires
            Self::dready(old(self).dview()),
            b <= 7,
        ensures
            Self::dready(final(self).dview()),
            (final(self).dview(), r) == Self::handle_model(old(self).dview(), Instr::Bit(b, src)),
    ;

    fn res(&mut self, b: u8, dst: Addr8) -> (r: R)
        requires
            Self::dready(old(self).dview()),
            b <= 7,
            addr8_storable(dst),
        ensures
            Self::dready(final(self).dview()),
            (final(self).dview(), r) == Self::handle_model(old(self).dview(), Instr::Res(b, dst)),
    ;

    fn set(&mut self, b: u8, dst: Addr8) -> (r: R)
        requires
            Self::dready(old(self).dview()),
            b <= 7,
            addr8_storable(dst),
        ensures
            Self::dready(final(self).dview()),
            (final(self).dview(), r) == Self::handle_model(
                old(self).dview(),
                Instr::SetBit(b, dst),
            ),
    ;

    fn swap(&mut self, dst: Addr8) -> (r: R)
        requires
            Self::dready(old(self).dview()),
            addr8_storable(dst),
        ensures
            Self::dready(final(self).dview()),
            (final(self).dview(), r) == Self::handle_model(old(self).dview(), Instr::Swap(dst)),
    ;

    fn undef(&mut self, opcode: u8) -> (r: R)
        requires
            Self::dready(old(self).dview()),
        ensures
            Self::dready(final(self).dview()),
            (final(self).dview(), r) == Self::handle_model(
                old(self).dview(),
                Instr::Undef(opcode),
            ),
    ;
}

/// What decoding one instruction from the current state yields: the
/// state after all fetches, and the decoded instruction.
pub open spec fn spec_decode<R, D: Decoder<R>>(v: D::DV) -> (D::DV, Instr) {
    let (v1, b0) = D::fetch_model(v);
    if imm_len(b0) == 2 {
        let (v2, b1) = D::fetch_model(v1);
        let (v3, b2) = D::fetch_model(v2);
        (v3, instr_of(b0, b1, b2))
    } else if imm_len(b0) == 1 {
        let (v2, b1) = D::fetch_model(v1);
        (v2, instr_of(b0, b1, 0))
    } else {
        (v1, instr_of(b0, 0, 0))
    }
}

/// Fetch a 16-bit immediate, low byte first.
fn fetch_word<R, D: Decoder<R>>(d: &mut D) -> (w: u16)
    requires
        D::dready(old(d).dview()),
    ensures
        D::dready(final(d).dview()),
        ({
            let (v1, lo) = D::fetch_model(old(d).dview());
            let (v2, hi) = D::fetch_model(v1);
            final(d).dview() == v2 && w == word_of(lo, hi)
        }),
{
    let lo = d.fetch();
    let hi = d.fetch();
    hi as u16 * 256 + lo as u16
}

/// Decode one instruction: fetch the opcode and its immediates in
/// order (each fetch advances the decoder), then dispatch to exactly
/// one handler. The result is whatever the handler returns; the
/// contract pins both to `spec_decode` and the decoder's own model.
pub fn decode<R, D: Decoder<R>>(d: &mut D) -> (r: R)
    requires
        D::dready(old(d).dview()),
    ensures
        D::dready(final(d).dview()),
        ({
            let (v1, i) = spec_decode::<R, D>(old(d).dview());
            (final(d).dview(), r) == D::handle_model(v1, i)
        }),
{
    let opcode = d.fetch();
    if opcode < 0x40 {
        match opcode {
            0x00 => d.nop(),
            0x01 => {
                let w = fetch_word(d);
                d.ld16(Addr16::Reg16Dir(Reg16::BC), Addr16::Imm16(w))
            },
            0x02 => d.ld8(Addr8::Reg16Ind8(Reg16::BC), Addr8::Reg8Dir(Reg8::A)),
            0x03 => d.inc16(Addr16::Reg16Dir(Reg16::BC)),
            0x04 => d.inc8(Addr8::Reg8Dir(Reg8::B)),
            0x05 => d.dec8(Addr8::Reg8Dir(Reg8::B)),
            0x06 => {
                let imm = d.fetch();
                d.ld8(Addr8::Reg8Dir(Reg8::B), Addr8::Imm8(imm))
            },
            0x07 => d.rlca(),
            0x08 => {
                let w = fetch_word(d);
                d.ld16(Addr16::Ind16(w), Addr16::Reg16Dir(Reg16::SP))
            },
            0x09 => d.add16(Addr16::Reg16Dir(Reg16::HL), Addr16::Reg16Dir(Reg16::BC)),
            0x0a => d.ld8(Addr8::Reg8Dir(Reg8::A), Addr8::Reg16Ind8(Reg16::BC)),
            0x0b => d.dec16(Addr16::Reg16Dir(Reg16::BC)),
            0x0c => d.inc8(Addr8::Reg8Dir(Reg8::C)),
            0x0d => d.dec8(Addr8::Reg8Dir(Reg8::C)),
            0x0e => {
                let imm = d.fetch();
                d.ld8(Addr8::Reg8Dir(Reg8::C), Addr8::Imm8(imm))
            },
            0x0f => d.rrca(),
            0x10 => {
                let imm = d.fetch();
                d.stop(imm)
            },
            0x11 => {
                let w = fetch_word(d);
                d.ld16(Addr16::Reg16Dir(Reg16::DE), Addr16::Imm16(w))
            },
            0x12 => d.ld8(Addr8::Reg16Ind8(Reg16::DE), Addr8::Reg8Dir(Reg8::A)),
            0x13 => d.inc16(Addr16::Reg16Dir(Reg16::DE)),
            0x14 => d.inc8(Addr8::Reg8Dir(Reg8::D)),
            0x15 => d.dec8(Addr8::Reg8Dir(Reg8::D)),
            0x16 => {
                let imm = d.fetch();
                d.ld8(Addr8::Reg8Dir(Reg8::D), Addr8::Imm8(imm))
            },
            0x17 => d.rla(),
            0x18 => {
                let imm = d.fetch();
                d.jr(Cond::CondNone, to_rel(imm))
            },
            0x19 => d.add16(Addr16::Reg16Dir(Reg16::HL), Addr16::Reg16Dir(Reg16::DE)),
            0x1a => d.ld8(Addr8::Reg8Dir(Reg8::A), Addr8::Reg16Ind8(Reg16::DE)),
            0x1b => d.dec16(Addr16::Reg16Dir(Reg16::DE)),
            0x1c => d.inc8(Addr8::Reg8Dir(Reg8::E)),
            0x1d => d.dec8(Addr8::Reg8Dir(Reg8::E)),
            0x1e => {
                let imm = d.fetch();
                d.ld8(Addr8::Reg8Dir(Reg8::E), Addr8::Imm8(imm))
            },
            0x1f => d.rra(),
            0x20 => {
                let imm = d.fetch();
                d.jr(Cond::CondNZ, to_rel(imm))
            },
            0x21 => {
                let w = fetch_word(d);
                d.ld16(Addr16::Reg16Dir(Reg16::HL), Addr16::Imm16(w))
            },
            0x22 => d.ld8(Addr8::Reg16Ind8Inc(Reg16::HL), Addr8::Reg8Dir(Reg8::A)),
            0x23 => d.inc16(Addr16::Reg16Dir(Reg16::HL)),
            0x24 => d.inc8(Addr8::Reg8Dir(Reg8::H)),
            0x25 => d.dec8(Addr8::Reg8Dir(Reg8::H)),
            0x26 => {
                let imm = d.fetch();
                d.ld8(Addr8::Reg8Dir(Reg8::H), Addr8::Imm8(imm))
            },
            0x27 => d.daa(),
            0x28 => {
                let imm = d.fetch();
                d.jr(Cond::CondZ, to_rel(imm))
            },
            0x29 => d.add16(Addr16::Reg16Dir(Reg16::HL), Addr16::Reg16Dir(Reg16::HL)),
            0x2a => d.ld8(Addr8::Reg8Dir(Reg8::A), Addr8::Reg16Ind8Inc(Reg16::HL)),
            0x2b => d.dec16(Addr16::Reg16Dir(Reg16::HL)),
            0x2c => d.inc8(Addr8::Reg8Dir(Reg8::L)),
            0x2d => d.dec8(Addr8::Reg8Dir(Reg8::L)),
            0x2e => {
                let imm = d.fetch();
                d.ld8(Addr8::Reg8Dir(Reg8::L), Addr8::Imm8(imm))
            },
            0x2f => d.cpl(),
            0x30 => {
                let imm = d.fetch();
                d.jr(Cond::CondNC, to_rel(imm))
            },
            0x31 => {
                let w = fetch_word(d);
                d.ld16(Addr16::Reg16Dir(Reg16::SP), Addr16::Imm16(w))
            },
            0x32 => d.ld8(Addr8::Reg16Ind8Dec(Reg16::HL), Addr8::Reg8Dir(Reg8::A)),
            0x33 => d.inc16(Addr16::Reg16Dir(Reg16::SP)),
            0x34 => d.inc8(Addr8::Reg16Ind8(Reg16::HL)),
            0x35 => d.dec8(Addr8::Reg16Ind8(Reg16::HL)),
            0x36 => {
                let imm = d.fetch();
                d.ld8(Addr8::Reg16Ind8(Reg16::HL), Addr8::Imm8(imm))
            },
            0x37 => d.scf(),
            0x38 => {
                let imm = d.fetch();
                d.jr(Cond::CondC, to_rel(imm))
            },
            0x39 => d.add16(Addr16::Reg16Dir(Reg16::HL), Addr16::Reg16Dir(Reg16::SP)),
            0x3a => d.ld8(Addr8::Reg8Dir(Reg8::A), Addr8::Reg16Ind8Dec(Reg16::HL)),
            0x3b => d.dec16(Addr16::Reg16Dir(Reg16::SP)),
            0x3c => d.inc8(Addr8::Reg8Dir(Reg8::A)),
            0x3d => d.dec8(Addr8::Reg8Dir(Reg8::A)),
            0x3e => {
                let imm = d.fetch();
                d.ld8(Addr8::Reg8Dir(Reg8::A), Addr8::Imm8(imm))
            },
            // The one remaining encoding in this quarter is 0x3F, CCF.
            _ => d.ccf(),
        }
    } else if opcode < 0x80 {
        if opcode == 0x76 {
            d.halt()
        } else {
            let dst = decode_addr(opcode >> 3);
            let src = decode_addr(opcode);
            d.ld8(dst, src)
        }
    } else if opcode < 0xc0 {
        let a = decode_addr(opcode);
        match (opcode >> 3) & 0x07 {
            0 => d.add8(a),
            1 => d.adc(a),
            2 => d.sub(a),
            3 => d.sbc(a),
            4 => d.and(a),
            5 => d.xor(a),
            6 => d.or(a),
            _ => d.cp(a),
        }
    } else {
        match opcode {
            0xc0 => d.ret(Cond::CondNZ),
            0xc1 => d.pop(Addr16::Reg16Dir(Reg16::BC)),
            0xc2 => {
                let w = fetch_word(d);
                d.jp(Cond::CondNZ, Addr16::Imm16(w))
            },
            0xc3 => {
                let w = fetch_word(d);
                d.jp(Cond::CondNone, Addr16::Imm16(w))
            },
            0xc4 => {
                let w = fetch_word(d);
                d.call(Cond::CondNZ, Addr16::Imm16(w))
            },
            0xc5 => d.push(Addr16::Reg16Dir(Reg16::BC)),
            0xc6 => {
                let imm = d.fetch();
                d.add8(Addr8::Imm8(imm))
            },
            0xc7 => d.rst(0x00),
            0xc8 => d.ret(Cond::CondZ),
            0xc9 => d.ret(Cond::CondNone),
            0xca => {
                let w = fetch_word(d);
                d.jp(Cond::CondZ, Addr16::Imm16(w))
            },
            0xcb => {
                let extra = d.fetch();
                let a = decode_addr(extra);
                let idx = (extra >> 3) & 0x07;
                proof {
                    assert((extra >> 3) & 0x07 <= 7) by (bit_vector);
                }
                if extra < 0x40 {
                    match (extra >> 3) & 0x07 {
                        0 => d.rlc(a),
                        1 => d.rrc(a),
                        2 => d.rl(a),
                        3 => d.rr(a),
                        4 => d.sla(a),
                        5 => d.sra(a),
                        6 => d.swap(a),
                        _ => d.srl(a),
                    }
                } else if extra < 0x80 {
                    d.bit(idx, a)
                } else if extra < 0xc0 {
                    d.res(idx, a)
                } else {
                    d.set(idx, a)
                }
            },
            0xcc => {
                let w = fetch_word(d);
                d.call(Cond::CondZ, Addr16::Imm16(w))
            },
            0xcd => {
                let w = fetch_word(d);
                d.call(Cond::CondNone, Addr16::Imm16(w))
            },
            0xce => {
                let imm = d.fetch();
                d.adc(Addr8::Imm8(imm))
            },
            0xcf => d.rst(0x08),
            0xd0 => d.ret(Cond::CondNC),
            0xd1 => d.pop(Addr16::Reg16Dir(Reg16::DE)),
            0xd2 => {
                let w = fetch_word(d);
                d.jp(Cond::CondNC, Addr16::Imm16(w))
            },
            0xd4 => {
                let w = fetch_word(d);
                d.call(Cond::CondNC, Addr16::Imm16(w))
            },
            0xd5 => d.push(Addr16::Reg16Dir(Reg16::DE)),
            0xd6 => {
                let imm = d.fetch();
                d.sub(Addr8::Imm8(imm))
            },
            0xd7 => d.rst(0x10),
            0xd8 => d.ret(Cond::CondC),
            0xd9 => d.reti(),
            0xda => {
                let w = fetch_word(d);
                d.jp(Cond::CondC, Addr16::Imm16(w))
            },
            0xdc => {
                let w = fetch_word(d);
                d.call(Cond::CondC, Addr16::Imm16(w))
            },
            0xde => {
                let imm = d.fetch();
                d.sbc(Addr8::Imm8(imm))
            },
            0xdf => d.rst(0x18),
            0xe0 => {
                let imm = d.fetch();
                d.ldh(Addr8::Ind8(imm), Addr8::Reg8Dir(Reg8::A))
            },
            0xe1 => d.pop(Addr16::Reg16Dir(Reg16::HL)),
            0xe2 => d.ld8(Addr8::Reg8Ind8(Reg8::C), Addr8::Reg8Dir(Reg8::A)),
            0xe5 => d.push(Addr16::Reg16Dir(Reg16::HL)),
            0xe6 => {
                let imm = d.fetch();
                d.and(Addr8::Imm8(imm))
            },
            0xe7 => d.rst(0x20),
            0xe8 => {
                let imm = d.fetch();
                d.addsp(to_rel(imm))
            },
            0xe9 => d.jp(Cond::CondNone, Addr16::Reg16Dir(Reg16::HL)),
            0xea => {
                let w = fetch_word(d);
                d.ld8(Addr8::Imm16Ind8(w), Addr8::Reg8Dir(Reg8::A))
            },
            0xee => {
                let imm = d.fetch();
                d.xor(Addr8::Imm8(imm))
            },
            0xef => d.rst(0x28),
            0xf0 => {
                let imm = d.fetch();
                d.ldh(Addr8::Reg8Dir(Reg8::A), Addr8::Ind8(imm))
            },
            0xf1 => d.pop(Addr16::Reg16Dir(Reg16::AF)),
            0xf2 => d.ld8(Addr8::Reg8Dir(Reg8::A), Addr8::Reg8Ind8(Reg8::C)),
            0xf3 => d.di(),
            0xf5 => d.push(Addr16::Reg16Dir(Reg16::AF)),
            0xf6 => {
                let imm = d.fetch();
                d.or(Addr8::Imm8(imm))
            },
            0xf7 => d.rst(0x30),
            0xf8 => {
                let imm = d.fetch();
                d.ldhl(to_rel(imm))
            },
            0xf9 => d.ld16(Addr16::Reg16Dir(Reg16::SP), Addr16::Reg16Dir(Reg16::HL)),
            0xfa => {
                let w = fetch_word(d);
                d.ld8(Addr8::Reg8Dir(Reg8::A), Addr8::Imm16Ind8(w))
            },
            0xfb => d.ei(),
            0xfe => {
                let imm = d.fetch();
                d.cp(Addr8::Imm8(imm))
            },
            0xff => d.rst(0x38),
            _ => d.undef(opcode),
        }
    }
}

} // verus!
