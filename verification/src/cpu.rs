use vstd::prelude::*;
use crate::addressing::{AddressingMode, Operand, spec_op_addr, spec_operand};
use crate::flag::{spec_flag_d, spec_flag_i};
use crate::instruction::{
    Instruction, spec_a_nz, spec_adc, spec_and, spec_asl, spec_bit, spec_branch, spec_brk,
    spec_compare, spec_dec, spec_eor, spec_inc, spec_io_write, spec_jsr, spec_lda, spec_ldx,
    spec_ldy, spec_lsr, spec_ora, spec_pull, spec_push, spec_rol, spec_ror, spec_rti, spec_rts,
    spec_sbc, spec_x_nz, spec_y_nz,
};
use crate::nes::{Nes, NesV, spec_code8, wrap8};
use crate::ppu::PpuV;

verus! {

/// The 6502 register file.
///
/// `s` is the effective 16-bit stack pointer whose high byte is always
/// `0x01`; `p` is the status register laid out as
/// bit 0 C, bit 1 Z, bit 2 I, bit 3 D, bit 4 B, bit 5 reserved (reads as 1),
/// bit 6 V, bit 7 N.
#[derive(Clone, Copy, PartialEq, Eq, Structural, Debug)]
pub struct Cpu {
    pub a: u8,
    pub x: u8,
    pub y: u8,
    pub s: u16,
    pub p: u8,
    pub pc: u16,
}

impl Default for Cpu {
    /// Power-on register state: `S = 0x01FD`, `P = 0x34`, everything else zero.
    fn default() -> (r: Cpu)
        ensures
            r == (Cpu { a: 0, x: 0, y: 0, s: 0x01fd, p: 0x34, pc: 0 }),
    {
        Cpu { a: 0, x: 0, y: 0, s: 0x01fd, p: 0x34, pc: 0 }
    }
}

/// The fixed opcode table: each of the 151 official opcodes maps to its
/// mnemonic, addressing mode, and base cycle count; everything else is an
/// unknown opcode.
pub open spec fn spec_decode(op: u8) -> Option<(Instruction, AddressingMode, u8)> {
    if op == 0xa9 {
        Some((Instruction::LDA, AddressingMode::Immediate, 2))
    } else if op == 0xa5 {
        Some((Instruction::LDA, AddressingMode::ZeroPage, 3))
    } else if op == 0xb5 {
        Some((Instruction::LDA, AddressingMode::ZeroPageX, 4))
    } else if op == 0xad {
        Some((Instruction::LDA, AddressingMode::Absolute, 4))
    } else if op == 0xbd {
        Some((Instruction::LDA, AddressingMode::AbsoluteX, 4))
    } else if op == 0xb9 {
        Some((Instruction::LDA, AddressingMode::AbsoluteY, 4))
    } else if op == 0xa1 {
        Some((Instruction::LDA, AddressingMode::IndirectX, 6))
    } else if op == 0xb1 {
        Some((Instruction::LDA, AddressingMode::IndirectY, 5))
    } else if op == 0xa2 {
        Some((Instruction::LDX, AddressingMode::Immediate, 2))
    } else if op == 0xa6 {
        Some((Instruction::LDX, AddressingMode::ZeroPage, 3))
    } else if op == 0xb6 {
        Some((Instruction::LDX, AddressingMode::ZeroPageY, 4))
    } else if op == 0xae {
        Some((Instruction::LDX, AddressingMode::Absolute, 4))
    } else if op == 0xbe {
        Some((Instruction::LDX, AddressingMode::AbsoluteY, 4))
    } else if op == 0xa0 {
        Some((Instruction::LDY, AddressingMode::Immediate, 2))
    } else if op == 0xa4 {
        Some((Instruction::LDY, AddressingMode::ZeroPage, 3))
    } else if op == 0xb4 {
        Some((Instruction::LDY, AddressingMode::ZeroPageX, 4))
    } else if op == 0xac {
        Some((Instruction::LDY, AddressingMode::Absolute, 4))
    } else if op == 0xbc {
        Some((Instruction::LDY, AddressingMode::AbsoluteX, 4))
    } else if op == 0x85 {
        Some((Instruction::STA, AddressingMode::ZeroPage, 3))
    } else if op == 0x95 {
        Some((Instruction::STA, AddressingMode::ZeroPageX, 4))
    } else if op == 0x8d {
        Some((Instruction::STA, AddressingMode::Absolute, 4))
    } else if op == 0x9d {
        Some((Instruction::STA, AddressingMode::AbsoluteX, 5))
    } else if op == 0x99 {
        Some((Instruction::STA, AddressingMode::AbsoluteY, 5))
    } else if op == 0x81 {
        Some((Instruction::STA, AddressingMode::IndirectX, 6))
    } else if op == 0x91 {
        Some((Instruction::STA, AddressingMode::IndirectY, 6))
    } else if op == 0x86 {
        Some((Instruction::STX, AddressingMode::ZeroPage, 3))
    } else if op == 0x96 {
        Some((Instruction::STX, AddressingMode::ZeroPageY, 4))
    } else if op == 0x8e {
        Some((Instruction::STX, AddressingMode::Absolute, 4))
    } else if op == 0x84 {
        Some((Instruction::STY, AddressingMode::ZeroPage, 3))
    } else if op == 0x94 {
        Some((Instruction::STY, AddressingMode::ZeroPageX, 4))
    } else if op == 0x8c {
        Some((Instruction::STY, AddressingMode::Absolute, 4))
    } else if op == 0xaa {
        Some((Instruction::TAX, AddressingMode::Implied, 2))
    } else if op == 0xa8 {
        Some((Instruction::TAY, AddressingMode::Implied, 2))
    } else if op == 0xba {
        Some((Instruction::TSX, AddressingMode::Implied, 2))
    } else if op == 0x8a {
        Some((Instruction::TXA, AddressingMode::Implied, 2))
    } else if op == 0x9a {
        Some((Instruction::TXS, AddressingMode::Implied, 2))
    } else if op == 0x98 {
        Some((Instruction::TYA, AddressingMode::Implied, 2))
    } else if op == 0x69 {
        Some((Instruction::ADC, AddressingMode::Immediate, 2))
    } else if op == 0x65 {
        Some((Instruction::ADC, AddressingMode::ZeroPage, 3))
    } else if op == 0x75 {
        Some((Instruction::ADC, AddressingMode::ZeroPageX, 4))
    } else if op == 0x6d {
        Some((Instruction::ADC, AddressingMode::Absolute, 4))
    } else if op == 0x7d {
        Some((Instruction::ADC, AddressingMode::AbsoluteX, 4))
    } else if op == 0x79 {
        Some((Instruction::ADC, AddressingMode::AbsoluteY, 4))
    } else if op == 0x61 {
        Some((Instruction::ADC, AddressingMode::IndirectX, 6))
    } else if op == 0x71 {
        Some((Instruction::ADC, AddressingMode::IndirectY, 5))
    } else if op == 0x29 {
        Some((Instruction::AND, AddressingMode::Immediate, 2))
    } else if op == 0x25 {
        Some((Instruction::AND, AddressingMode::ZeroPage, 3))
    } else if op == 0x35 {
        Some((Instruction::AND, AddressingMode::ZeroPageX, 3))
    } else if op == 0x2d {
        Some((Instruction::AND, AddressingMode::Absolute, 3))
    } else if op == 0x3d {
        Some((Instruction::AND, AddressingMode::AbsoluteX, 3))
    } else if op == 0x39 {
        Some((Instruction::AND, AddressingMode::AbsoluteY, 3))
    } else if op == 0x21 {
        Some((Instruction::AND, AddressingMode::IndirectX, 6))
    } else if op == 0x31 {
        Some((Instruction::AND, AddressingMode::IndirectY, 5))
    } else if op == 0x0a {
        Some((Instruction::ASL, AddressingMode::Accumulator, 2))
    } else if op == 0x06 {
        Some((Instruction::ASL, AddressingMode::ZeroPage, 5))
    } else if op == 0x16 {
        Some((Instruction::ASL, AddressingMode::ZeroPageX, 6))
    } else if op == 0x0e {
        Some((Instruction::ASL, AddressingMode::Absolute, 6))
    } else if op == 0x1e {
        Some((Instruction::ASL, AddressingMode::AbsoluteX, 7))
    } else if op == 0x24 {
        Some((Instruction::BIT, AddressingMode::ZeroPage, 3))
    } else if op == 0x2c {
        Some((Instruction::BIT, AddressingMode::Absolute, 4))
    } else if op == 0xc9 {
        Some((Instruction::CMP, AddressingMode::Immediate, 2))
    } else if op == 0xc5 {
        Some((Instruction::CMP, AddressingMode::ZeroPage, 3))
    } else if op == 0xd5 {
        Some((Instruction::CMP, AddressingMode::ZeroPageX, 4))
    } else if op == 0xcd {
        Some((Instruction::CMP, AddressingMode::Absolute, 4))
    } else if op == 0xdd {
        Some((Instruction::CMP, AddressingMode::AbsoluteX, 4))
    } else if op == 0xd9 {
        Some((Instruction::CMP, AddressingMode::AbsoluteY, 4))
    } else if op == 0xc1 {
        Some((Instruction::CMP, AddressingMode::IndirectX, 6))
    } else if op == 0xd1 {
        Some((Instruction::CMP, AddressingMode::IndirectY, 5))
    } else if op == 0xe0 {
        Some((Instruction::CPX, AddressingMode::Immediate, 2))
    } else if op == 0xe4 {
        Some((Instruction::CPX, AddressingMode::ZeroPage, 3))
    } else if op == 0xec {
        Some((Instruction::CPX, AddressingMode::Absolute, 4))
    } else if op == 0xc0 {
        Some((Instruction::CPY, AddressingMode::Immediate, 2))
    } else if op == 0xc4 {
        Some((Instruction::CPY, AddressingMode::ZeroPage, 3))
    } else if op == 0xcc {
        Some((Instruction::CPY, AddressingMode::Absolute, 4))
    } else if op == 0xc6 {
        Some((Instruction::DEC, AddressingMode::ZeroPage, 5))
    } else if op == 0xd6 {
        Some((Instruction::DEC, AddressingMode::ZeroPageX, 6))
    } else if op == 0xce {
        Some((Instruction::DEC, AddressingMode::Absolute, 6))
    } else if op == 0xde {
        Some((Instruction::DEC, AddressingMode::AbsoluteX, 7))
    } else if op == 0xca {
        Some((Instruction::DEX, AddressingMode::Implied, 2))
    } else if op == 0x88 {
        Some((Instruction::DEY, AddressingMode::Implied, 2))
    } else if op == 0x49 {
        Some((Instruction::EOR, AddressingMode::Immediate, 2))
    } else if op == 0x45 {
        Some((Instruction::EOR, AddressingMode::ZeroPage, 3))
    } else if op == 0x55 {
        Some((Instruction::EOR, AddressingMode::ZeroPageX, 4))
    } else if op == 0x4d {
        Some((Instruction::EOR, AddressingMode::Absolute, 4))
    } else if op == 0x5d {
        Some((Instruction::EOR, AddressingMode::AbsoluteX, 4))
    } else if op == 0x59 {
        Some((Instruction::EOR, AddressingMode::AbsoluteY, 4))
    } else if op == 0x41 {
        Some((Instruction::EOR, AddressingMode::IndirectX, 6))
    } else if op == 0x51 {
        Some((Instruction::EOR, AddressingMode::IndirectY, 5))
    } else if op == 0xe6 {
        Some((Instruction::INC, AddressingMode::ZeroPage, 5))
    } else if op == 0xf6 {
        Some((Instruction::INC, AddressingMode::ZeroPageX, 6))
    } else if op == 0xee {
        Some((Instruction::INC, AddressingMode::Absolute, 6))
    } else if op == 0xfe {
        Some((Instruction::INC, AddressingMode::AbsoluteX, 7))
    } else if op == 0xe8 {
        Some((Instruction::INX, AddressingMode::Implied, 2))
    } else if op == 0xc8 {
        Some((Instruction::INY, AddressingMode::Implied, 2))
    } else if op == 0x4a {
        Some((Instruction::LSR, AddressingMode::Accumulator, 2))
    } else if op == 0x46 {
        Some((Instruction::LSR, AddressingMode::ZeroPage, 5))
    } else if op == 0x56 {
        Some((Instruction::LSR, AddressingMode::ZeroPageX, 6))
    } else if op == 0x4e {
        Some((Instruction::LSR, AddressingMode::Absolute, 6))
    } else if op == 0x5e {
        Some((Instruction::LSR, AddressingMode::AbsoluteX, 7))
    } else if op == 0x09 {
        Some((Instruction::ORA, AddressingMode::Immediate, 2))
    } else if op == 0x05 {
        Some((Instruction::ORA, AddressingMode::ZeroPage, 3))
    } else if op == 0x15 {
        Some((Instruction::ORA, AddressingMode::ZeroPageX, 4))
    } else if op == 0x0d {
        Some((Instruction::ORA, AddressingMode::Absolute, 4))
    } else if op == 0x1d {
        Some((Instruction::ORA, AddressingMode::AbsoluteX, 4))
    } else if op == 0x19 {
        Some((Instruction::ORA, AddressingMode::AbsoluteY, 4))
    } else if op == 0x01 {
        Some((Instruction::ORA, AddressingMode::IndirectX, 6))
    } else if op == 0x11 {
        Some((Instruction::ORA, AddressingMode::IndirectY, 5))
    } else if op == 0x2a {
        Some((Instruction::ROL, AddressingMode::Accumulator, 2))
    } else if op == 0x26 {
        Some((Instruction::ROL, AddressingMode::ZeroPage, 5))
    } else if op == 0x36 {
        Some((Instruction::ROL, AddressingMode::ZeroPageX, 6))
    } else if op == 0x2e {
        Some((Instruction::ROL, AddressingMode::Absolute, 6))
    } else if op == 0x3e {
        Some((Instruction::ROL, AddressingMode::AbsoluteX, 7))
    } else if op == 0x6a {
        Some((Instruction::ROR, AddressingMode::Accumulator, 2))
    } else if op == 0x66 {
        Some((Instruction::ROR, AddressingMode::ZeroPage, 5))
    } else if op == 0x76 {
        Some((Instruction::ROR, AddressingMode::ZeroPageX, 6))
    } else if op == 0x6e {
        Some((Instruction::ROR, AddressingMode::Absolute, 6))
    } else if op == 0x7e {
        Some((Instruction::ROR, AddressingMode::AbsoluteX, 7))
    } else if op == 0xe9 {
        Some((Instruction::SBC, AddressingMode::Immediate, 2))
    } else if op == 0xe5 {
        Some((Instruction::SBC, AddressingMode::ZeroPage, 3))
    } else if op == 0xf5 {
        Some((Instruction::SBC, AddressingMode::ZeroPageX, 4))
    } else if op == 0xed {
        Some((Instruction::SBC, AddressingMode::Absolute, 4))
    } else if op == 0xfd {
        Some((Instruction::SBC, AddressingMode::AbsoluteX, 4))
    } else if op == 0xf9 {
        Some((Instruction::SBC, AddressingMode::AbsoluteY, 4))
    } else if op == 0xe1 {
        Some((Instruction::SBC, AddressingMode::IndirectX, 6))
    } else if op == 0xf1 {
        Some((Instruction::SBC, AddressingMode::IndirectY, 5))
    } else if op == 0x48 {
        Some((Instruction::PHA, AddressingMode::Implied, 3))
    } else if op == 0x08 {
        Some((Instruction::PHP, AddressingMode::Implied, 3))
    } else if op == 0x68 {
        Some((Instruction::PLA, AddressingMode::Implied, 4))
    } else if op == 0x28 {
        Some((Instruction::PLP, AddressingMode::Implied, 4))
    } else if op == 0x4c {
        Some((Instruction::JMP, AddressingMode::Absolute, 3))
    } else if op == 0x6c {
        Some((Instruction::JMP, AddressingMode::Indirect, 5))
    } else if op == 0x20 {
        Some((Instruction::JSR, AddressingMode::Absolute, 6))
    } else if op == 0x60 {
        Some((Instruction::RTS, AddressingMode::Implied, 6))
    } else if op == 0x40 {
        Some((Instruction::RTI, AddressingMode::Implied, 6))
    } else if op == 0x90 {
        Some((Instruction::BCC, AddressingMode::Relative, 2))
    } else if op == 0xb0 {
        Some((Instruction::BCS, AddressingMode::Relative, 2))
    } else if op == 0xf0 {
        Some((Instruction::BEQ, AddressingMode::Relative, 2))
    } else if op == 0x30 {
        Some((Instruction::BMI, AddressingMode::Relative, 2))
    } else if op == 0xd0 {
        Some((Instruction::BNE, AddressingMode::Relative, 2))
    } else if op == 0x10 {
        Some((Instruction::BPL, AddressingMode::Relative, 2))
    } else if op == 0x50 {
        Some((Instruction::BVC, AddressingMode::Relative, 2))
    } else if op == 0x70 {
        Some((Instruction::BVS, AddressingMode::Relative, 2))
    } else if op == 0x18 {
        Some((Instruction::CLC, AddressingMode::Implied, 2))
    } else if op == 0xd8 {
        Some((Instruction::CLD, AddressingMode::Implied, 2))
    } else if op == 0x58 {
        Some((Instruction::CLI, AddressingMode::Implied, 2))
    } else if op == 0xb8 {
        Some((Instruction::CLV, AddressingMode::Implied, 2))
    } else if op == 0x38 {
        Some((Instruction::SEC, AddressingMode::Implied, 2))
    } else if op == 0xf8 {
        Some((Instruction::SED, AddressingMode::Implied, 2))
    } else if op == 0x78 {
        Some((Instruction::SEI, AddressingMode::Implied, 2))
    } else if op == 0x00 {
        Some((Instruction::BRK, AddressingMode::Implied, 7))
    } else if op == 0xea {
        Some((Instruction::NOP, AddressingMode::Implied, 2))
    } else {
        None
    }
}

/// Every opcode the table knows takes between 2 and 7 base cycles.
pub proof fn lemma_decode_cycles(op: u8)
    ensures
        spec_decode(op) matches Some(t) ==> 2 <= t.2 <= 7,
{
}

/// One machine step: fetch the opcode at the program counter, decode it,
/// resolve the operand, and execute. An unknown opcode leaves the machine
/// untouched and yields no cycle count, which the caller treats as fatal.
pub open spec fn spec_step(m: NesV) -> (NesV, Option<u8>) {
    let opcode = m.ram[m.cpu.pc as int];
    match spec_decode(opcode) {
        None => (m, None),
        Some((instruction, mode, cycle)) => {
            let m1 = spec_operand(m, mode).0;
            let op = spec_operand(m, mode).1;
            (spec_execute(m1, instruction, op), Some(cycle))
        },
    }
}

/// Execution of one decoded instruction on the machine model.
pub open spec fn spec_execute(m: NesV, instruction: Instruction, op: Operand) -> NesV {
    let addr = spec_op_addr(m, op);
    match instruction {
        Instruction::ADC => spec_adc(m, addr),
        Instruction::SBC => spec_sbc(m, addr),
        Instruction::AND => spec_and(m, addr),
        Instruction::ORA => spec_ora(m, addr),
        Instruction::EOR => spec_eor(m, addr),
        Instruction::ASL => spec_asl(m, op),
        Instruction::LSR => spec_lsr(m, op),
        Instruction::ROL => spec_rol(m, op),
        Instruction::ROR => spec_ror(m, op),
        Instruction::BCC => spec_branch(m, addr, m.cpu.p & 0x01 == 0),
        Instruction::BCS => spec_branch(m, addr, m.cpu.p & 0x01 != 0),
        Instruction::BEQ => spec_branch(m, addr, m.cpu.p & 0x02 != 0),
        Instruction::BNE => spec_branch(m, addr, m.cpu.p & 0x02 == 0),
        Instruction::BVC => spec_branch(m, addr, m.cpu.p & 0x40 == 0),
        Instruction::BVS => spec_branch(m, addr, m.cpu.p & 0x40 != 0),
        Instruction::BPL => spec_branch(m, addr, m.cpu.p & 0x80 == 0),
        Instruction::BMI => spec_branch(m, addr, m.cpu.p & 0x80 != 0),
        Instruction::BIT => spec_bit(m, addr),
        Instruction::JMP => NesV { cpu: (Cpu { pc: addr, ..m.cpu }), ..m },
        Instruction::JSR => spec_jsr(m, addr),
        Instruction::RTS => spec_rts(m),
        Instruction::BRK => spec_brk(m),
        Instruction::RTI => spec_rti(m),
        Instruction::CMP => spec_compare(m, Instruction::CMP, m.cpu.a, addr),
        Instruction::CPX => spec_compare(m, Instruction::CPX, m.cpu.x, addr),
        Instruction::CPY => spec_compare(m, Instruction::CPY, m.cpu.y, addr),
        Instruction::INC => spec_inc(m, addr),
        Instruction::DEC => spec_dec(m, addr),
        Instruction::INX => spec_x_nz(m, wrap8(m.cpu.x + 1)),
        Instruction::DEX => spec_x_nz(m, wrap8(m.cpu.x - 1)),
        Instruction::INY => spec_y_nz(m, wrap8(m.cpu.y + 1)),
        Instruction::DEY => spec_y_nz(m, wrap8(m.cpu.y - 1)),
        Instruction::SEC => NesV { cpu: (Cpu { p: m.cpu.p | 0x01, ..m.cpu }), ..m },
        Instruction::CLI => NesV { cpu: (Cpu { p: spec_flag_i(m.cpu.p, false), ..m.cpu }), ..m },
        Instruction::CLC => NesV { cpu: (Cpu { p: m.cpu.p & 0xfe, ..m.cpu }), ..m },
        Instruction::SEI => NesV { cpu: (Cpu { p: m.cpu.p | 0x04, ..m.cpu }), ..m },
        Instruction::CLD => NesV { cpu: (Cpu { p: spec_flag_d(m.cpu.p, false), ..m.cpu }), ..m },
        Instruction::SED => NesV { cpu: (Cpu { p: spec_flag_d(m.cpu.p, true), ..m.cpu }), ..m },
        Instruction::CLV => NesV { cpu: (Cpu { p: m.cpu.p & 0xbf, ..m.cpu }), ..m },
        Instruction::LDA => spec_lda(m, addr),
        Instruction::LDX => spec_ldx(m, addr),
        Instruction::LDY => spec_ldy(m, addr),
        Instruction::STA => spec_io_write(m, addr, m.cpu.a),
        Instruction::STX => spec_io_write(m, addr, m.cpu.x),
        Instruction::STY => spec_io_write(m, addr, m.cpu.y),
        Instruction::TAX => spec_x_nz(m, m.cpu.a),
        Instruction::TAY => spec_y_nz(m, m.cpu.a),
        Instruction::TXA => spec_a_nz(m, m.cpu.x),
        Instruction::TYA => spec_a_nz(m, m.cpu.y),
        Instruction::TSX => spec_x_nz(m, wrap8(m.cpu.s as int)),
        Instruction::TXS => NesV {
            cpu: (Cpu { s: ((0x100 + m.cpu.x) as u16), ..m.cpu }),
            ..m
        },
        Instruction::PHA => spec_push(m, m.cpu.a),
        Instruction::PLA => spec_a_nz(spec_pull(m).0, spec_pull(m).1),
        Instruction::PHP => spec_push(m, m.cpu.p),
        Instruction::PLP => NesV {
            cpu: (Cpu { p: spec_pull(m).1 | 0x20, ..spec_pull(m).0.cpu }),
            ..spec_pull(m).0
        },
        Instruction::NOP => m,
    }
}

impl Nes {
    /// Load the program counter from the reset vector at `0xFFFC`/`0xFFFD`.
    pub fn initialize(&mut self)
        ensures
            final(self)@ == (NesV {
                cpu: (Cpu {
                    pc: (old(self)@.ram[0xfffd] * 256 + old(self)@.ram[0xfffc]) as u16,
                    ..old(self).cpu
                }),
                ..old(self)@
            }),
    {
        let lower = self.fetch_memory8(0xfffc);
        let upper = self.fetch_memory8(0xfffd);
        self.cpu.pc = (upper as u16) * 256 + lower as u16;
    }

    /// Copy a cartridge image into the machine: the mirror mode comes from
    /// header byte 6, the PRG pages land at `0x8000` (mirrored into
    /// `0xC000` when there is a single page), and the CHR pages fill the
    /// low bytes of VRAM. The image must be at least as long as its header
    /// declares and must fit the PRG window and VRAM.
    pub fn load(&mut self, rom: Vec<u8>)
        requires
            rom@.len() >= 16,
            rom@[4] <= 2,
            rom@[5] <= 2,
            16 + rom@[4] * 0x4000 + rom@[5] * 0x2000 <= rom@.len(),
        ensures
            final(self).cpu == old(self).cpu,
            final(self)@.ppu.mirror == (rom@[6] & 1 != 0),
            final(self)@.ppu.s_ram == old(self)@.ppu.s_ram,
            final(self)@.ppu.ptr == old(self)@.ppu.ptr,
            final(self)@.ppu.ppudata_buf == old(self)@.ppu.ppudata_buf,
            final(self)@.ppu.scroll0 == old(self)@.ppu.scroll0,
            final(self)@.ppu.scroll1 == old(self)@.ppu.scroll1,
            final(self)@.ppu.scroll_flag == old(self)@.ppu.scroll_flag,
            final(self)@.ppu.raster == old(self)@.ppu.raster,
            final(self)@.ppu.cycle == old(self)@.ppu.cycle,
            forall|i: int| 0 <= i < 0x8000 ==> final(self)@.ram[i] == old(self)@.ram[i],
            forall|i: int|
                0x8000 <= i < 0x8000 + rom@[4] * 0x4000 ==> final(self)@.ram[i] == rom@[i - 0x8000
                    + 16],
            rom@[4] == 1 ==> forall|i: int|
                0xc000 <= i < 0x10000 ==> final(self)@.ram[i] == rom@[i - 0xc000 + 16],
            rom@[4] == 0 ==> final(self)@.ram == old(self)@.ram,
            forall|i: int|
                0 <= i < rom@[5] * 0x2000 ==> final(self)@.ppu.ram[i] == rom@[16 + rom@[4]
                    * 0x4000 + i],
            forall|i: int|
                rom@[5] * 0x2000 <= i < 0x4000 ==> final(self)@.ppu.ram[i] == old(
                    self,
                )@.ppu.ram[i],
    {
        let mirror_flag = rom[6];
        self.ppu.mirror = mirror_flag & 1 != 0;
        let prg_page: u8 = rom[4];
        let chr_page: u8 = rom[5];
        let prg_len: usize = prg_page as usize * 0x4000;
        let chr_len: usize = chr_page as usize * 0x2000;
        let chr_start: usize = 16 + prg_len;

        let mut i: usize = 0;
        while i < prg_len
            invariant
                prg_len == prg_page * 0x4000,
                prg_page <= 2,
                i <= prg_len,
                rom@.len() >= 16 + prg_len,
                self.cpu == old(self).cpu,
                self.ppu@ == (PpuV { mirror: (rom@[6] & 1 != 0), ..old(self)@.ppu }),
                forall|j: int| 0 <= j < 0x8000 ==> self.ram@[j] == old(self)@.ram[j],
                forall|j: int|
                    0x8000 <= j < 0x8000 + i ==> self.ram@[j] == rom@[j - 0x8000 + 16],
                prg_page == 1 ==> forall|j: int|
                    0xc000 <= j < 0xc000 + i ==> self.ram@[j] == rom@[j - 0xc000 + 16],
                prg_page == 0 ==> self.ram@ == old(self)@.ram,
            decreases prg_len - i,
        {
            let byte = rom[16 + i];
            let ghost prev: Seq<u8> = self.ram@;
            self.ram[0x8000 + i] = byte;
            if prg_page == 1 {
                self.ram[0xc000 + i] = byte;
            }
            proof {
                assert forall|j: int| 0x8000 <= j < 0x8000 + i + 1 implies self.ram@[j] == rom@[j
                    - 0x8000 + 16] by {
                    if j < 0x8000 + i {
                        assert(self.ram@[j] == prev[j]);
                    }
                }
                if prg_page == 1 {
                    assert forall|j: int| 0xc000 <= j < 0xc000 + i + 1 implies self.ram@[j]
                        == rom@[j - 0xc000 + 16] by {
                        if j < 0xc000 + i {
                            assert(self.ram@[j] == prev[j]);
                        }
                    }
                }
                assert forall|j: int| 0 <= j < 0x8000 implies self.ram@[j] == old(
                    self,
                )@.ram[j] by {
                    assert(self.ram@[j] == prev[j]);
                }
            }
            i = i + 1;
        }

        let ghost ram1: Seq<u8> = self.ram@;
        let mut k: usize = 0;
        while k < chr_len
            invariant
                chr_len == chr_page * 0x2000,
                chr_page <= 2,
                prg_page == rom@[4],
                chr_page == rom@[5],
                k <= chr_len,
                chr_start == 16 + prg_page * 0x4000,
                rom@.len() >= chr_start + chr_len,
                self.cpu == old(self).cpu,
                self.ram@ == ram1,
                self.ppu@.mirror == (rom@[6] & 1 != 0),
                self.ppu@.s_ram == old(self)@.ppu.s_ram,
                self.ppu@.ptr == old(self)@.ppu.ptr,
                self.ppu@.ppudata_buf == old(self)@.ppu.ppudata_buf,
                self.ppu@.scroll0 == old(self)@.ppu.scroll0,
                self.ppu@.scroll1 == old(self)@.ppu.scroll1,
                self.ppu@.scroll_flag == old(self)@.ppu.scroll_flag,
                self.ppu@.raster == old(self)@.ppu.raster,
                self.ppu@.cycle == old(self)@.ppu.cycle,
                forall|j: int|
                    0 <= j < k ==> self.ppu@.ram[j] == rom@[16 + rom@[4] * 0x4000 + j],
                forall|j: int| k <= j < 0x4000 ==> self.ppu@.ram[j] == old(self)@.ppu.ram[j],
            decreases chr_len - k,
        {
            let byte = rom[chr_start + k];
            let ghost prev: Seq<u8> = self.ppu@.ram;
            self.ppu.ram[k] = byte;
            proof {
                assert forall|j: int| 0 <= j < k + 1 implies self.ppu@.ram[j] == rom@[16 + rom@[4]
                    * 0x4000 + j] by {
                    if j < k {
                        assert(self.ppu@.ram[j] == prev[j]);
                    }
                }
                assert forall|j: int| k + 1 <= j < 0x4000 implies self.ppu@.ram[j] == old(
                    self,
                )@.ppu.ram[j] by {
                    assert(self.ppu@.ram[j] == prev[j]);
                }
            }
            k = k + 1;
        }
    }

    /// The RESET interrupt: set the interrupt-disable flag.
    pub fn reset(&mut self)
        requires
            old(self).inv(),
        ensures
            final(self).inv(),
            final(self)@ == (NesV {
                cpu: (Cpu { p: spec_flag_i(old(self).cpu.p, true), ..old(self).cpu }),
                ..old(self)@
            }),
    {
        self.flag_i(true);
    }

    /// Fetch the code byte `index` bytes past the program counter; the
    /// address wraps around the 64 KiB space.
    pub fn fetch_code8(&self, index: u8) -> (r: u8)
        ensures
            r == spec_code8(self@, index as int),
    {
        self.ram[self.cpu.pc.wrapping_add(index as u16) as usize]
    }

    /// Decode one opcode byte against the fixed table.
    pub fn instructions(&self, opcode: u8) -> (r: Option<(Instruction, AddressingMode, u8)>)
        ensures
            r == spec_decode(opcode),
    {
        match opcode {
            0xa9 => Some((Instruction::LDA, AddressingMode::Immediate, 2)),
            0xa5 => Some((Instruction::LDA, AddressingMode::ZeroPage, 3)),
            0xb5 => Some((Instruction::LDA, AddressingMode::ZeroPageX, 4)),
            0xad => Some((Instruction::LDA, AddressingMode::Absolute, 4)),
            0xbd => Some((Instruction::LDA, AddressingMode::AbsoluteX, 4)),
            0xb9 => Some((Instruction::LDA, AddressingMode::AbsoluteY, 4)),
            0xa1 => Some((Instruction::LDA, AddressingMode::IndirectX, 6)),
            0xb1 => Some((Instruction::LDA, AddressingMode::IndirectY, 5)),
            0xa2 => Some((Instruction::LDX, AddressingMode::Immediate, 2)),
            0xa6 => Some((Instruction::LDX, AddressingMode::ZeroPage, 3)),
            0xb6 => Some((Instruction::LDX, AddressingMode::ZeroPageY, 4)),
            0xae => Some((Instruction::LDX, AddressingMode::Absolute, 4)),
            0xbe => Some((Instruction::LDX, AddressingMode::AbsoluteY, 4)),
            0xa0 => Some((Instruction::LDY, AddressingMode::Immediate, 2)),
            0xa4 => Some((Instruction::LDY, AddressingMode::ZeroPage, 3)),
            0xb4 => Some((Instruction::LDY, AddressingMode::ZeroPageX, 4)),
            0xac => Some((Instruction::LDY, AddressingMode::Absolute, 4)),
            0xbc => Some((Instruction::LDY, AddressingMode::AbsoluteX, 4)),
            0x85 => Some((Instruction::STA, AddressingMode::ZeroPage, 3)),
            0x95 => Some((Instruction::STA, AddressingMode::ZeroPageX, 4)),
            0x8d => Some((Instruction::STA, AddressingMode::Absolute, 4)),
            0x9d => Some((Instruction::STA, AddressingMode::AbsoluteX, 5)),
            0x99 => Some((Instruction::STA, AddressingMode::AbsoluteY, 5)),
            0x81 => Some((Instruction::STA, AddressingMode::IndirectX, 6)),
            0x91 => Some((Instruction::STA, AddressingMode::IndirectY, 6)),
            0x86 => Some((Instruction::STX, AddressingMode::ZeroPage, 3)),
            0x96 => Some((Instruction::STX, AddressingMode::ZeroPageY, 4)),
            0x8e => Some((Instruction::STX, AddressingMode::Absolute, 4)),
            0x84 => Some((Instruction::STY, AddressingMode::ZeroPage, 3)),
            0x94 => Some((Instruction::STY, AddressingMode::ZeroPageX, 4)),
            0x8c => Some((Instruction::STY, AddressingMode::Absolute, 4)),
            0xaa => Some((Instruction::TAX, AddressingMode::Implied, 2)),
            0xa8 => Some((Instruction::TAY, AddressingMode::Implied, 2)),
            0xba => Some((Instruction::TSX, AddressingMode::Implied, 2)),
            0x8a => Some((Instruction::TXA, AddressingMode::Implied, 2)),
            0x9a => Some((Instruction::TXS, AddressingMode::Implied, 2)),
            0x98 => Some((Instruction::TYA, AddressingMode::Implied, 2)),
            0x69 => Some((Instruction::ADC, AddressingMode::Immediate, 2)),
            0x65 => Some((Instruction::ADC, AddressingMode::ZeroPage, 3)),
            0x75 => Some((Instruction::ADC, AddressingMode::ZeroPageX, 4)),
            0x6d => Some((Instruction::ADC, AddressingMode::Absolute, 4)),
            0x7d => Some((Instruction::ADC, AddressingMode::AbsoluteX, 4)),
            0x79 => Some((Instruction::ADC, AddressingMode::AbsoluteY, 4)),
            0x61 => Some((Instruction::ADC, AddressingMode::IndirectX, 6)),
            0x71 => Some((Instruction::ADC, AddressingMode::IndirectY, 5)),
            0x29 => Some((Instruction::AND, AddressingMode::Immediate, 2)),
            0x25 => Some((Instruction::AND, AddressingMode::ZeroPage, 3)),
            0x35 => Some((Instruction::AND, AddressingMode::ZeroPageX, 3)),
            0x2d => Some((Instruction::AND, AddressingMode::Absolute, 3)),
            0x3d => Some((Instruction::AND, AddressingMode::AbsoluteX, 3)),
            0x39 => Some((Instruction::AND, AddressingMode::AbsoluteY, 3)),
            0x21 => Some((Instruction::AND, AddressingMode::IndirectX, 6)),
            0x31 => Some((Instruction::AND, AddressingMode::IndirectY, 5)),
            0x0a => Some((Instruction::ASL, AddressingMode::Accumulator, 2)),
            0x06 => Some((Instruction::ASL, AddressingMode::ZeroPage, 5)),
            0x16 => Some((Instruction::ASL, AddressingMode::ZeroPageX, 6)),
            0x0e => Some((Instruction::ASL, AddressingMode::Absolute, 6)),
            0x1e => Some((Instruction::ASL, AddressingMode::AbsoluteX, 7)),
            0x24 => Some((Instruction::BIT, AddressingMode::ZeroPage, 3)),
            0x2c => Some((Instruction::BIT, AddressingMode::Absolute, 4)),
            0xc9 => Some((Instruction::CMP, AddressingMode::Immediate, 2)),
            0xc5 => Some((Instruction::CMP, AddressingMode::ZeroPage, 3)),
            0xd5 => Some((Instruction::CMP, AddressingMode::ZeroPageX, 4)),
            0xcd => Some((Instruction::CMP, AddressingMode::Absolute, 4)),
            0xdd => Some((Instruction::CMP, AddressingMode::AbsoluteX, 4)),
            0xd9 => Some((Instruction::CMP, AddressingMode::AbsoluteY, 4)),
            0xc1 => Some((Instruction::CMP, AddressingMode::IndirectX, 6)),
            0xd1 => Some((Instruction::CMP, AddressingMode::IndirectY, 5)),
            0xe0 => Some((Instruction::CPX, AddressingMode::Immediate, 2)),
            0xe4 => Some((Instruction::CPX, AddressingMode::ZeroPage, 3)),
            0xec => Some((Instruction::CPX, AddressingMode::Absolute, 4)),
            0xc0 => Some((Instruction::CPY, AddressingMode::Immediate, 2)),
            0xc4 => Some((Instruction::CPY, AddressingMode::ZeroPage, 3)),
            0xcc => Some((Instruction::CPY, AddressingMode::Absolute, 4)),
            0xc6 => Some((Instruction::DEC, AddressingMode::ZeroPage, 5)),
            0xd6 => Some((Instruction::DEC, AddressingMode::ZeroPageX, 6)),
            0xce => Some((Instruction::DEC, AddressingMode::Absolute, 6)),
            0xde => Some((Instruction::DEC, AddressingMode::AbsoluteX, 7)),
            0xca => Some((Instruction::DEX, AddressingMode::Implied, 2)),
            0x88 => Some((Instruction::DEY, AddressingMode::Implied, 2)),
            0x49 => Some((Instruction::EOR, AddressingMode::Immediate, 2)),
            0x45 => Some((Instruction::EOR, AddressingMode::ZeroPage, 3)),
            0x55 => Some((Instruction::EOR, AddressingMode::ZeroPageX, 4)),
            0x4d => Some((Instruction::EOR, AddressingMode::Absolute, 4)),
            0x5d => Some((Instruction::EOR, AddressingMode::AbsoluteX, 4)),
            0x59 => Some((Instruction::EOR, AddressingMode::AbsoluteY, 4)),
            0x41 => Some((Instruction::EOR, AddressingMode::IndirectX, 6)),
            0x51 => Some((Instruction::EOR, AddressingMode::IndirectY, 5)),
            0xe6 => Some((Instruction::INC, AddressingMode::ZeroPage, 5)),
            0xf6 => Some((Instruction::INC, AddressingMode::ZeroPageX, 6)),
            0xee => Some((Instruction::INC, AddressingMode::Absolute, 6)),
            0xfe => Some((Instruction::INC, AddressingMode::AbsoluteX, 7)),
            0xe8 => Some((Instruction::INX, AddressingMode::Implied, 2)),
            0xc8 => Some((Instruction::INY, AddressingMode::Implied, 2)),
            0x4a => Some((Instruction::LSR, AddressingMode::Accumulator, 2)),
            0x46 => Some((Instruction::LSR, AddressingMode::ZeroPage, 5)),
            0x56 => Some((Instruction::LSR, AddressingMode::ZeroPageX, 6)),
            0x4e => Some((Instruction::LSR, AddressingMode::Absolute, 6)),
            0x5e => Some((Instruction::LSR, AddressingMode::AbsoluteX, 7)),
            0x09 => Some((Instruction::ORA, AddressingMode::Immediate, 2)),
            0x05 => Some((Instruction::ORA, AddressingMode::ZeroPage, 3)),
            0x15 => Some((Instruction::ORA, AddressingMode::ZeroPageX, 4)),
            0x0d => Some((Instruction::ORA, AddressingMode::Absolute, 4)),
            0x1d => Some((Instruction::ORA, AddressingMode::AbsoluteX, 4)),
            0x19 => Some((Instruction::ORA, AddressingMode::AbsoluteY, 4)),
            0x01 => Some((Instruction::ORA, AddressingMode::IndirectX, 6)),
            0x11 => Some((Instruction::ORA, AddressingMode::IndirectY, 5)),
            0x2a => Some((Instruction::ROL, AddressingMode::Accumulator, 2)),
            0x26 => Some((Instruction::ROL, AddressingMode::ZeroPage, 5)),
            0x36 => Some((Instruction::ROL, AddressingMode::ZeroPageX, 6)),
            0x2e => Some((Instruction::ROL, AddressingMode::Absolute, 6)),
            0x3e => Some((Instruction::ROL, AddressingMode::AbsoluteX, 7)),
            0x6a => Some((Instruction::ROR, AddressingMode::Accumulator, 2)),
            0x66 => Some((Instruction::ROR, AddressingMode::ZeroPage, 5)),
            0x76 => Some((Instruction::ROR, AddressingMode::ZeroPageX, 6)),
            0x6e => Some((Instruction::ROR, AddressingMode::Absolute, 6)),
            0x7e => Some((Instruction::ROR, AddressingMode::AbsoluteX, 7)),
            0xe9 => Some((Instruction::SBC, AddressingMode::Immediate, 2)),
            0xe5 => Some((Instruction::SBC, AddressingMode::ZeroPage, 3)),
            0xf5 => Some((Instruction::SBC, AddressingMode::ZeroPageX, 4)),
            0xed => Some((Instruction::SBC, AddressingMode::Absolute, 4)),
            0xfd => Some((Instruction::SBC, AddressingMode::AbsoluteX, 4)),
            0xf9 => Some((Instruction::SBC, AddressingMode::AbsoluteY, 4)),
            0xe1 => Some((Instruction::SBC, AddressingMode::IndirectX, 6)),
            0xf1 => Some((Instruction::SBC, AddressingMode::IndirectY, 5)),
            0x48 => Some((Instruction::PHA, AddressingMode::Implied, 3)),
            0x08 => Some((Instruction::PHP, AddressingMode::Implied, 3)),
            0x68 => Some((Instruction::PLA, AddressingMode::Implied, 4)),
            0x28 => Some((Instruction::PLP, AddressingMode::Implied, 4)),
            0x4c => Some((Instruction::JMP, AddressingMode::Absolute, 3)),
            0x6c => Some((Instruction::JMP, AddressingMode::Indirect, 5)),
            0x20 => Some((Instruction::JSR, AddressingMode::Absolute, 6)),
            0x60 => Some((Instruction::RTS, AddressingMode::Implied, 6)),
            0x40 => Some((Instruction::RTI, AddressingMode::Implied, 6)),
            0x90 => Some((Instruction::BCC, AddressingMode::Relative, 2)),
            0xb0 => Some((Instruction::BCS, AddressingMode::Relative, 2)),
            0xf0 => Some((Instruction::BEQ, AddressingMode::Relative, 2)),
            0x30 => Some((Instruction::BMI, AddressingMode::Relative, 2)),
            0xd0 => Some((Instruction::BNE, AddressingMode::Relative, 2)),
            0x10 => Some((Instruction::BPL, AddressingMode::Relative, 2)),
            0x50 => Some((Instruction::BVC, AddressingMode::Relative, 2)),
            0x70 => Some((Instruction::BVS, AddressingMode::Relative, 2)),
            0x18 => Some((Instruction::CLC, AddressingMode::Implied, 2)),
            0xd8 => Some((Instruction::CLD, AddressingMode::Implied, 2)),
            0x58 => Some((Instruction::CLI, AddressingMode::Implied, 2)),
            0xb8 => Some((Instruction::CLV, AddressingMode::Implied, 2)),
            0x38 => Some((Instruction::SEC, AddressingMode::Implied, 2)),
            0xf8 => Some((Instruction::SED, AddressingMode::Implied, 2)),
            0x78 => Some((Instruction::SEI, AddressingMode::Implied, 2)),
            0x00 => Some((Instruction::BRK, AddressingMode::Implied, 7)),
            0xea => Some((Instruction::NOP, AddressingMode::Implied, 2)),
            _ => None,
        }
    }

    /// Execute one decoded instruction.
    pub fn execute(&mut self, instruction: Instruction, op: Operand)
        requires
            old(self).inv(),
        ensures
            final(self).inv(),
            final(self)@ == spec_execute(old(self)@, instruction, op),
    {
        let addr: u16 = match op {
            Operand::Memory(a) => a,
            Operand::Accumulator => self.cpu.a as u16,
            Operand::Implied => 0,
        };
        match instruction {
            Instruction::ADC => self.adc(addr),
            Instruction::SBC => self.sbc(addr),
            Instruction::AND => self.and(addr),
            Instruction::ORA => self.ora(addr),
            Instruction::EOR => self.eor(addr),
            Instruction::ASL => self.asl(op),
            Instruction::LSR => self.lsr(op),
            Instruction::ROL => self.rol(op),
            Instruction::ROR => self.ror(op),
            Instruction::BCC => self.bcc(addr),
            Instruction::BCS => self.bcs(addr),
            Instruction::BEQ => self.beq(addr),
            Instruction::BNE => self.bne(addr),
            Instruction::BVC => self.bvc(addr),
            Instruction::BVS => self.bvs(addr),
            Instruction::BPL => self.bpl(addr),
            Instruction::BMI => self.bmi(addr),
            Instruction::BIT => self.bit(addr),
            Instruction::JMP => self.jmp(addr),
            Instruction::JSR => self.jsr(addr),
            Instruction::RTS => self.rts(),
            Instruction::BRK => self.brk(),
            Instruction::RTI => self.rti(),
            Instruction::CMP => self.cmp(addr),
            Instruction::CPX => self.cpx(addr),
            Instruction::CPY => self.cpy(addr),
            Instruction::INC => self.inc(addr),
            Instruction::DEC => self.dec(addr),
            Instruction::INX => self.inx(),
            Instruction::DEX => self.dex(),
            Instruction::INY => self.iny(),
            Instruction::DEY => self.dey(),
            Instruction::SEC => self.sec(),
            Instruction::CLI => self.cli(),
            Instruction::CLC => self.clc(),
            Instruction::SEI => self.sei(),
            Instruction::CLD => self.cld(),
            Instruction::SED => self.sed(),
            Instruction::CLV => self.clv(),
            Instruction::LDA => self.lda(addr),
            Instruction::LDX => self.ldx(addr),
            Instruction::LDY => self.ldy(addr),
            Instruction::STA => self.sta(addr),
            Instruction::STX => self.stx(addr),
            Instruction::STY => self.sty(addr),
            Instruction::TAX => self.tax(),
            Instruction::TAY => self.tay(),
            Instruction::TXA => self.txa(),
            Instruction::TYA => self.tya(),
            Instruction::TSX => self.tsx(),
            Instruction::TXS => self.txs(),
            Instruction::PHA => self.pha(),
            Instruction::PLA => self.pla(),
            Instruction::PHP => self.php(),
            Instruction::PLP => self.plp(),
            Instruction::NOP => self.nop(),
        }
    }

    /// One machine step: fetch, decode, resolve the operand, execute, and
    /// hand back the opcode's base cycle count; an unknown opcode leaves the
    /// machine untouched and yields `None`, which the driver treats as
    /// fatal.
    pub fn step(&mut self) -> (r: Option<u8>)
        requires
            old(self).inv(),
        ensures
            final(self).inv(),
            final(self)@ == spec_step(old(self)@).0,
            r == spec_step(old(self)@).1,
    {
        let opcode = self.fetch_code8(0);
        match self.instructions(opcode) {
            None => None,
            Some((instruction, mode, cycle)) => {
                let op = self.resolve(mode);
                self.execute(instruction, op);
                Some(cycle)
            },
        }
    }
}

} // verus!
