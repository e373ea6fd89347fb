use vstd::prelude::*;
use crate::cpu::Cpu;
use crate::ppu::{Ppu, PpuV};

verus! {

/// The whole machine: CPU registers, the flat 64 KiB CPU address space, and
/// the picture processor.
pub struct Nes {
    pub cpu: Cpu,
    pub ppu: Ppu,
    pub ram: [u8; 0x10000],
}

/// Mathematical model of the whole machine; every state transition of the
/// emulator is specified as a pure function over this model.
#[verifier::ext_equal]
pub struct NesV {
    pub cpu: Cpu,
    pub ppu: PpuV,
    pub ram: Seq<u8>,
}

impl View for Nes {
    type V = NesV;

    open spec fn view(&self) -> NesV {
        NesV { cpu: self.cpu, ppu: self.ppu@, ram: self.ram@ }
    }
}

/// Truncate an unbounded integer to a 16-bit address, as the address
/// arithmetic of the machine does.
pub open spec fn wrap16(v: int) -> u16 {
    (v % 0x10000) as u16
}

/// Truncate an unbounded integer to a byte, as the 8-bit data paths of the
/// machine do.
pub open spec fn wrap8(v: int) -> u8 {
    (v % 0x100) as u8
}

/// The byte visible at `addr` of the CPU address space.
pub open spec fn spec_mem(m: NesV, addr: u16) -> u8 {
    m.ram[addr as int]
}

/// The code byte `k` bytes past the program counter, the address taken
/// modulo the size of the address space.
pub open spec fn spec_code8(m: NesV, k: int) -> u8 {
    m.ram[wrap16(m.cpu.pc + k) as int]
}

/// The machine after the program counter advanced by `k`, wrapping.
pub open spec fn spec_pc_add(m: NesV, k: int) -> NesV {
    NesV { cpu: (Cpu { pc: wrap16(m.cpu.pc + k), ..m.cpu }), ..m }
}

/// The machine invariant: the stack pointer stays inside page `0x01` and the
/// reserved bit 5 of the status register reads as 1.
pub open spec fn spec_inv(m: NesV) -> bool {
    &&& 0x100 <= m.cpu.s < 0x200
    &&& m.cpu.p & 0x20 == 0x20
    &&& m.ram.len() == 0x10000
    &&& m.ppu.ram.len() == 0x4000
    &&& m.ppu.s_ram.len() == 0x100
}

impl Nes {
    /// The machine invariant, at the executable type.
    pub open spec fn inv(self) -> bool {
        spec_inv(self@)
    }
}

impl Default for Nes {
    /// A machine with zeroed memories and power-on register state.
    fn default() -> (r: Nes)
        ensures
            r.cpu == (Cpu { a: 0, x: 0, y: 0, s: 0x01fd, p: 0x34, pc: 0 }),
            r@.ram == Seq::new(0x10000, |i: int| 0u8),
            r@.ppu.ram == Seq::new(0x4000, |i: int| 0u8),
            r@.ppu.s_ram == Seq::new(0x100, |i: int| 0u8),
            r@.ppu.ptr == 0u16,
            r@.ppu.mirror == false,
            r@.ppu.scroll_flag == false,
            r@.ppu.scroll0 == 0u8,
            r@.ppu.scroll1 == 0u8,
            r@.ppu.cycle == 0usize,
            r.inv(),
    {
        let r = Nes { cpu: Cpu::default(), ppu: Ppu::default(), ram: [0u8; 0x10000] };
        proof {
            assert(r.ram@ =~= Seq::new(0x10000, |i: int| 0u8));
            assert(0x34u8 & 0x20 == 0x20) by (bit_vector);
        }
        r
    }
}

} // verus!
