use vstd::prelude::*;
use crate::nes::{Nes, NesV, spec_mem};

verus! {

impl Nes {
    /// Byte load from the flat CPU address space. A plain lookup: mirror
    /// arithmetic, when wanted, is the caller's business.
    pub fn fetch_memory8(&self, address: u16) -> (r: u8)
        ensures
            r == spec_mem(self@, address),
    {
        self.ram[address as usize]
    }

    /// Byte store to the flat CPU address space, with no side effects.
    /// Stores that reach the memory-mapped I/O registers go through the
    /// dispatching store of the store instructions instead.
    pub fn set_memory8(&mut self, addr: u16, value: u8)
        ensures
            final(self)@ == (NesV {
                ram: old(self)@.ram.update(addr as int, value),
                ..old(self)@
            }),
    {
        self.ram[addr as usize] = value;
    }
}

} // verus!
