use vstd::prelude::*;
use crate::nes::{Nes, NesV, spec_code8, spec_pc_add, wrap16, wrap8};

verus! {

/// The 13 addressing modes of the instruction set.
#[derive(Clone, Copy, PartialEq, Eq, Structural, Debug)]
pub enum AddressingMode {
    Implied,
    Accumulator,
    Immediate,
    Absolute,
    ZeroPage,
    ZeroPageX,
    ZeroPageY,
    AbsoluteX,
    AbsoluteY,
    Relative,
    Indirect,
    IndirectX,
    IndirectY,
}

/// A resolved operand: no operand at all, the accumulator, or a memory
/// location. Keeping the three apart prevents an accumulator operand from
/// being mistaken for an address.
#[derive(Clone, Copy, PartialEq, Eq, Structural, Debug)]
pub enum Operand {
    Implied,
    Accumulator,
    Memory(u16),
}

/// Implied mode: no operand; the instruction is one byte long.
pub open spec fn spec_implied(m: NesV) -> (NesV, u16) {
    (spec_pc_add(m, 1), 0u16)
}

/// Accumulator mode: the operand lives in register A; one byte long.
pub open spec fn spec_accumulator(m: NesV) -> (NesV, u16) {
    (spec_pc_add(m, 1), m.cpu.a as u16)
}

/// Immediate mode: the operand byte follows the opcode.
pub open spec fn spec_immediate(m: NesV) -> (NesV, u16) {
    (spec_pc_add(m, 2), wrap16(m.cpu.pc + 1))
}

/// Zero-page mode: the operand byte is the address.
pub open spec fn spec_zero_page(m: NesV) -> (NesV, u16) {
    (spec_pc_add(m, 2), spec_code8(m, 1) as u16)
}

/// Zero-page,X mode: the operand byte plus X, wrapping in the zero page.
pub open spec fn spec_zero_page_x(m: NesV) -> (NesV, u16) {
    (spec_pc_add(m, 2), wrap8(spec_code8(m, 1) + m.cpu.x) as u16)
}

/// Zero-page,Y mode: the operand byte plus Y, wrapping in the zero page.
pub open spec fn spec_zero_page_y(m: NesV) -> (NesV, u16) {
    (spec_pc_add(m, 2), wrap8(spec_code8(m, 1) + m.cpu.y) as u16)
}

/// Absolute mode: a little-endian 16-bit address follows the opcode.
pub open spec fn spec_absolute(m: NesV) -> (NesV, u16) {
    (spec_pc_add(m, 3), (spec_code8(m, 2) * 256 + spec_code8(m, 1)) as u16)
}

/// Absolute,X mode: the absolute address plus X, wrapping at 16 bits.
pub open spec fn spec_absolute_x(m: NesV) -> (NesV, u16) {
    (spec_pc_add(m, 3), wrap16(spec_code8(m, 2) * 256 + spec_code8(m, 1) + m.cpu.x))
}

/// Absolute,Y mode: the absolute address plus Y, wrapping at 16 bits.
pub open spec fn spec_absolute_y(m: NesV) -> (NesV, u16) {
    (spec_pc_add(m, 3), wrap16(spec_code8(m, 2) * 256 + spec_code8(m, 1) + m.cpu.y))
}

/// Relative mode: the post-instruction program counter plus the
/// sign-extended displacement byte.
pub open spec fn spec_relative(m: NesV) -> (NesV, u16) {
    let d = spec_code8(m, 1);
    let base = wrap16(m.cpu.pc + 2);
    (spec_pc_add(m, 2), wrap16(base + (if d < 0x80 { d as int } else { d - 256 })))
}

/// (Indirect,X) mode: a 16-bit pointer fetched from the zero page at the
/// operand byte plus X, both pointer bytes wrapping in the zero page.
pub open spec fn spec_indexed_indirect(m: NesV) -> (NesV, u16) {
    let zp = wrap8(spec_code8(m, 1) + m.cpu.x);
    let lo = m.ram[zp as int];
    let hi = m.ram[wrap8(zp + 1) as int];
    (spec_pc_add(m, 2), (hi * 256 + lo) as u16)
}

/// (Indirect),Y mode: the 16-bit pointer in the zero page at the operand
/// byte, plus Y, wrapping at 16 bits.
pub open spec fn spec_indirect_indexed(m: NesV) -> (NesV, u16) {
    let zp = spec_code8(m, 1);
    let lo = m.ram[zp as int];
    let hi = m.ram[wrap8(zp + 1) as int];
    (spec_pc_add(m, 2), wrap16(hi * 256 + lo + m.cpu.y))
}

/// Indirect mode (JMP): the 16-bit pointer stored at the absolute address.
pub open spec fn spec_absolute_indirect(m: NesV) -> (NesV, u16) {
    let ptr = (spec_code8(m, 2) * 256 + spec_code8(m, 1)) as u16;
    let lo = m.ram[ptr as int];
    let hi = m.ram[wrap16(ptr + 1) as int];
    (spec_pc_add(m, 3), (hi * 256 + lo) as u16)
}

/// The address an operand hands to the instructions that want one: a memory
/// operand is itself; the accumulator and the missing operand fall back to
/// the values the operations ignore.
pub open spec fn spec_op_addr(m: NesV, op: Operand) -> u16 {
    match op {
        Operand::Memory(a) => a,
        Operand::Accumulator => m.cpu.a as u16,
        Operand::Implied => 0,
    }
}

/// The effective address resolved for `mode`, paired with the machine after
/// the program counter advanced over the instruction.
pub open spec fn spec_operand(m: NesV, mode: AddressingMode) -> (NesV, Operand) {
    match mode {
        AddressingMode::Implied => (spec_implied(m).0, Operand::Implied),
        AddressingMode::Accumulator => (spec_accumulator(m).0, Operand::Accumulator),
        AddressingMode::Immediate => (spec_immediate(m).0, Operand::Memory(spec_immediate(m).1)),
        AddressingMode::ZeroPage => (spec_zero_page(m).0, Operand::Memory(spec_zero_page(m).1)),
        AddressingMode::ZeroPageX => (
            spec_zero_page_x(m).0,
            Operand::Memory(spec_zero_page_x(m).1),
        ),
        AddressingMode::ZeroPageY => (
            spec_zero_page_y(m).0,
            Operand::Memory(spec_zero_page_y(m).1),
        ),
        AddressingMode::Absolute => (spec_absolute(m).0, Operand::Memory(spec_absolute(m).1)),
        AddressingMode::AbsoluteX => (spec_absolute_x(m).0, Operand::Memory(spec_absolute_x(m).1)),
        AddressingMode::AbsoluteY => (spec_absolute_y(m).0, Operand::Memory(spec_absolute_y(m).1)),
        AddressingMode::Relative => (spec_relative(m).0, Operand::Memory(spec_relative(m).1)),
        AddressingMode::IndirectX => (
            spec_indexed_indirect(m).0,
            Operand::Memory(spec_indexed_indirect(m).1),
        ),
        AddressingMode::IndirectY => (
            spec_indirect_indexed(m).0,
            Operand::Memory(spec_indirect_indexed(m).1),
        ),
        AddressingMode::Indirect => (
            spec_absolute_indirect(m).0,
            Operand::Memory(spec_absolute_indirect(m).1),
        ),
    }
}

impl Nes {
    /// Implied mode: advance over the opcode; there is no operand.
    pub fn implied(&mut self) -> (addr: u16)
        ensures
            final(self)@ == spec_implied(old(self)@).0,
            addr == spec_implied(old(self)@).1,
    {
        self.cpu.pc = self.cpu.pc.wrapping_add(1);
        0
    }

    /// Accumulator mode: advance over the opcode; the operand is A.
    pub fn accumulator(&mut self) -> (addr: u16)
        ensures
            final(self)@ == spec_accumulator(old(self)@).0,
            addr == spec_accumulator(old(self)@).1,
    {
        self.cpu.pc = self.cpu.pc.wrapping_add(1);
        self.cpu.a as u16
    }

    /// Immediate mode: the operand byte's own address.
    pub fn immediate(&mut self) -> (addr: u16)
        ensures
            final(self)@ == spec_immediate(old(self)@).0,
            addr == spec_immediate(old(self)@).1,
    {
        let addr = self.cpu.pc.wrapping_add(1);
        self.cpu.pc = self.cpu.pc.wrapping_add(2);
        addr
    }

    /// Zero-page mode.
    pub fn zero_page(&mut self) -> (addr: u16)
        ensures
            final(self)@ == spec_zero_page(old(self)@).0,
            addr == spec_zero_page(old(self)@).1,
    {
        let lower = self.fetch_code8(1);
        self.cpu.pc = self.cpu.pc.wrapping_add(2);
        lower as u16
    }

    /// Zero-page,X mode.
    pub fn zero_page_x(&mut self) -> (addr: u16)
        ensures
            final(self)@ == spec_zero_page_x(old(self)@).0,
            addr == spec_zero_page_x(old(self)@).1,
    {
        let lower = self.fetch_code8(1).wrapping_add(self.cpu.x);
        self.cpu.pc = self.cpu.pc.wrapping_add(2);
        lower as u16
    }

    /// Zero-page,Y mode.
    pub fn zero_page_y(&mut self) -> (addr: u16)
        ensures
            final(self)@ == spec_zero_page_y(old(self)@).0,
            addr == spec_zero_page_y(old(self)@).1,
    {
        let lower = self.fetch_code8(1).wrapping_add(self.cpu.y);
        self.cpu.pc = self.cpu.pc.wrapping_add(2);
        lower as u16
    }

    /// Absolute mode.
    pub fn absolute(&mut self) -> (addr: u16)
        ensures
            final(self)@ == spec_absolute(old(self)@).0,
            addr == spec_absolute(old(self)@).1,
    {
        let lower = self.fetch_code8(1);
        let upper = self.fetch_code8(2);
        let addr: u16 = (upper as u16) * 256 + (lower as u16);
        self.cpu.pc = self.cpu.pc.wrapping_add(3);
        addr
    }

    /// Absolute,X mode.
    pub fn absolute_x(&mut self) -> (addr: u16)
        ensures
            final(self)@ == spec_absolute_x(old(self)@).0,
            addr == spec_absolute_x(old(self)@).1,
    {
        let lower = self.fetch_code8(1);
        let upper = self.fetch_code8(2);
        let base: u16 = (upper as u16) * 256 + (lower as u16);
        let addr = base.wrapping_add(self.cpu.x as u16);
        self.cpu.pc = self.cpu.pc.wrapping_add(3);
        addr
    }

    /// Absolute,Y mode.
    pub fn absolute_y(&mut self) -> (addr: u16)
        ensures
            final(self)@ == spec_absolute_y(old(self)@).0,
            addr == spec_absolute_y(old(self)@).1,
    {
        let lower = self.fetch_code8(1);
        let upper = self.fetch_code8(2);
        let base: u16 = (upper as u16) * 256 + (lower as u16);
        let addr = base.wrapping_add(self.cpu.y as u16);
        self.cpu.pc = self.cpu.pc.wrapping_add(3);
        addr
    }

    /// Relative mode: sign-extend the displacement byte explicitly.
    pub fn relative(&mut self) -> (addr: u16)
        ensures
            final(self)@ == spec_relative(old(self)@).0,
            addr == spec_relative(old(self)@).1,
    {
        let delta = self.fetch_code8(1);
        self.cpu.pc = self.cpu.pc.wrapping_add(2);
        let base = self.cpu.pc;
        if delta < 0x80 {
            base.wrapping_add(delta as u16)
        } else {
            base.wrapping_add(delta as u16).wrapping_sub(0x100)
        }
    }

    /// (Indirect,X) mode.
    pub fn indexed_indirect(&mut self) -> (addr: u16)
        ensures
            final(self)@ == spec_indexed_indirect(old(self)@).0,
            addr == spec_indexed_indirect(old(self)@).1,
    {
        let zp = self.fetch_code8(1).wrapping_add(self.cpu.x);
        let lower = self.fetch_memory8(zp as u16);
        let upper = self.fetch_memory8(zp.wrapping_add(1) as u16);
        self.cpu.pc = self.cpu.pc.wrapping_add(2);
        (upper as u16) * 256 + (lower as u16)
    }

    /// (Indirect),Y mode.
    pub fn indirect_indexed(&mut self) -> (addr: u16)
        ensures
            final(self)@ == spec_indirect_indexed(old(self)@).0,
            addr == spec_indirect_indexed(old(self)@).1,
    {
        let zp = self.fetch_code8(1);
        let lower = self.fetch_memory8(zp as u16);
        let upper = self.fetch_memory8(zp.wrapping_add(1) as u16);
        let base: u16 = (upper as u16) * 256 + (lower as u16);
        self.cpu.pc = self.cpu.pc.wrapping_add(2);
        base.wrapping_add(self.cpu.y as u16)
    }

    /// Indirect mode (JMP).
    pub fn absolute_indirect(&mut self) -> (addr: u16)
        ensures
            final(self)@ == spec_absolute_indirect(old(self)@).0,
            addr == spec_absolute_indirect(old(self)@).1,
    {
        let lower = self.fetch_code8(1);
        let upper = self.fetch_code8(2);
        let ptr: u16 = (upper as u16) * 256 + (lower as u16);
        let lo = self.fetch_memory8(ptr);
        let hi = self.fetch_memory8(ptr.wrapping_add(1));
        self.cpu.pc = self.cpu.pc.wrapping_add(3);
        (hi as u16) * 256 + (lo as u16)
    }

    /// Resolve the operand for `mode`, advancing the program counter over
    /// the instruction.
    pub fn resolve(&mut self, mode: AddressingMode) -> (op: Operand)
        ensures
            final(self)@ == spec_operand(old(self)@, mode).0,
            op == spec_operand(old(self)@, mode).1,
    {
        match mode {
            AddressingMode::Implied => {
                let _ = self.implied();
                Operand::Implied
            },
            AddressingMode::Accumulator => {
                let _ = self.accumulator();
                Operand::Accumulator
            },
            AddressingMode::Immediate => Operand::Memory(self.immediate()),
            AddressingMode::ZeroPage => Operand::Memory(self.zero_page()),
            AddressingMode::ZeroPageX => Operand::Memory(self.zero_page_x()),
            AddressingMode::ZeroPageY => Operand::Memory(self.zero_page_y()),
            AddressingMode::Absolute => Operand::Memory(self.absolute()),
            AddressingMode::AbsoluteX => Operand::Memory(self.absolute_x()),
            AddressingMode::AbsoluteY => Operand::Memory(self.absolute_y()),
            AddressingMode::Relative => Operand::Memory(self.relative()),
            AddressingMode::IndirectX => Operand::Memory(self.indexed_indirect()),
            AddressingMode::IndirectY => Operand::Memory(self.indirect_indexed()),
            AddressingMode::Indirect => Operand::Memory(self.absolute_indirect()),
        }
    }
}

} // verus!
