//! The byte-addressable memory capability the CPU core consumes, and a
//! flat 64 KiB implementation of it.
//!
//! A memory collaborator is modelled by an associated type `MV`: every
//! implementation says what a read returns and how reads and writes
//! transform the model, so the CPU's own contracts can state exactly
//! what one `step` does to the whole machine.

use vstd::prelude::*;

verus! {

/// Number of addressable bytes (the bus has 16 address lines).
pub const MEM_SIZE: usize = 0x10000;

/// A byte-addressable memory collaborator.
///
/// Reads may have side effects (peripherals live behind this
/// interface), so a read yields both a byte and a successor state.
/// Both are deterministic functions of the current model state.
pub trait Mem: Sized {
    /// The mathematical model of this memory's state.
    type MV;

    /// The model of the current state.
    spec fn mview(&self) -> Self::MV;

    /// Invariant on the model, established at construction and
    /// maintained by every access.
    spec fn minv(m: Self::MV) -> bool;

    /// The byte a read at `addr` returns.
    spec fn read_of(m: Self::MV, addr: u16) -> u8;

    /// The state after a read at `addr`.
    spec fn after_read(m: Self::MV, addr: u16) -> Self::MV;

    /// The state after writing `val` at `addr`.
    spec fn after_write(m: Self::MV, addr: u16, val: u8) -> Self::MV;

    /// Read one byte.
    fn loadb(&mut self, addr: u16) -> (b: u8)
        requires
            Self::minv(old(self).mview()),
        ensures
            Self::minv(final(self).mview()),
            b == Self::read_of(old(self).mview(), addr),
            final(self).mview() == Self::after_read(old(self).mview(), addr),
    ;

    /// Write one byte.
    fn storeb(&mut self, addr: u16, val: u8)
        requires
            Self::minv(old(self).mview()),
        ensures
            Self::minv(final(self).mview()),
            final(self).mview() == Self::after_write(old(self).mview(), addr, val),
    ;
}

/// A plain 64 KiB RAM covering the whole address space: reads return
/// the stored byte and have no side effects. This is the memory to
/// inject when no peripherals are wanted, e.g. under test.
pub struct FlatMem {
    pub bytes: Vec<u8>,
}

impl FlatMem {
    /// A fresh memory, all bytes zero.
    pub fn new() -> (m: FlatMem)
        ensures
            FlatMem::minv(m.mview()),
            m.mview() == Seq::<u8>::new(MEM_SIZE as nat, |i: int| 0u8),
    {
        let mut bytes: Vec<u8> = Vec::new();
        let mut i: usize = 0;
        while i < MEM_SIZE
            invariant
                i <= MEM_SIZE,
                bytes@.len() == i,
                forall|j: int| 0 <= j < i ==> bytes@[j] == 0u8,
            decreases MEM_SIZE - i,
        {
            bytes.push(0);
            i = i + 1;
        }
        proof {
            assert(bytes@ =~= Seq::<u8>::new(MEM_SIZE as nat, |i: int| 0u8));
        }
        FlatMem { bytes }
    }
}

impl Mem for FlatMem {
    type MV = Seq<u8>;

    open spec fn mview(&self) -> Seq<u8> {
        self.bytes@
    }

    open spec fn minv(m: Seq<u8>) -> bool {
        m.len() == MEM_SIZE
    }

    open spec fn read_of(m: Seq<u8>, addr: u16) -> u8 {
        m[addr as int]
    }

    open spec fn after_read(m: Seq<u8>, addr: u16) -> Seq<u8> {
        m
    }

    open spec fn after_write(m: Seq<u8>, addr: u16, val: u8) -> Seq<u8> {
        m.update(addr as int, val)
    }

    fn loadb(&mut self, addr: u16) -> (b: u8) {
        self.bytes[addr as usize]
    }

    fn storeb(&mut self, addr: u16, val: u8) {
        self.bytes.set(addr as usize, val);
    }
}

} // verus!
