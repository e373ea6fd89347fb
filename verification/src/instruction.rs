use vstd::prelude::*;
use crate::addressing::Operand;
use crate::cpu::Cpu;
use crate::flag::{
    lemma_flag_mask_keeps_bit5, lemma_or_0x20_sets_bit5, spec_flag_c, spec_flag_d, spec_flag_i,
    spec_flag_n, spec_flag_v, spec_flag_z,
};
use crate::nes::{Nes, NesV, spec_mem, wrap16, wrap8};
use crate::ppu::PpuV;

verus! {

/// The 56 official mnemonics of the instruction set.
#[derive(Clone, Copy, PartialEq, Eq, Structural, Debug)]
pub enum Instruction {
    ADC,
    SBC,
    AND,
    EOR,
    ORA,
    ASL,
    LSR,
    ROL,
    ROR,
    INC,
    INX,
    INY,
    DEC,
    DEX,
    DEY,
    LDA,
    LDX,
    LDY,
    STA,
    STX,
    STY,
    SEC,
    SED,
    SEI,
    CLC,
    CLD,
    CLI,
    CLV,
    CMP,
    CPX,
    CPY,
    JMP,
    JSR,
    RTI,
    RTS,
    BCC,
    BCS,
    BEQ,
    BMI,
    BNE,
    BPL,
    BVC,
    BVS,
    PHA,
    PHP,
    PLA,
    PLP,
    TAX,
    TAY,
    TSX,
    TXA,
    TXS,
    TYA,
    BRK,
    BIT,
    NOP,
}

// ---------------------------------------------------------------------------
// Stack discipline: a push writes at `0x0100 | S` and decrements the low
// byte of S, wrapping within the page; a pull increments first, then reads.
// ---------------------------------------------------------------------------

/// The machine after pushing `v`: the byte lands at the stack pointer and
/// the low byte of S decrements, wrapping within page `0x01`.
pub open spec fn spec_push(m: NesV, v: u8) -> NesV {
    let m1 = NesV { ram: m.ram.update(m.cpu.s as int, v), ..m };
    NesV {
        cpu: (Cpu { s: (0x100 + ((m.cpu.s - 0x100 + 0xff) % 0x100)) as u16, ..m.cpu }),
        ..m1
    }
}

/// The machine after pulling, and the byte pulled: the low byte of S
/// increments, wrapping within page `0x01`, then the byte at the new stack
/// pointer is read.
pub open spec fn spec_pull(m: NesV) -> (NesV, u8) {
    let s2 = (0x100 + ((m.cpu.s - 0x100 + 1) % 0x100)) as u16;
    (NesV { cpu: (Cpu { s: s2, ..m.cpu }), ..m }, m.ram[s2 as int])
}

// ---------------------------------------------------------------------------
// Memory-mapped I/O of the stores, and the PPUDATA paths.
// ---------------------------------------------------------------------------

/// The VRAM auto-increment selected by PPUCTRL bit 2: 32, else 1.
pub open spec fn spec_vram_delta(m: NesV) -> u16 {
    if m.ram[0x2000] & 0x04 != 0 {
        32
    } else {
        1
    }
}

/// A read through PPUDATA: the byte at the VRAM pointer (taken modulo the
/// 16 KiB of VRAM), after which the pointer advances by the auto-increment.
pub open spec fn spec_vram_read(m: NesV) -> (NesV, u8) {
    let v = m.ppu.ram[(m.ppu.ptr % 0x4000) as int];
    (
        NesV {
            ppu: (PpuV { ptr: wrap16(m.ppu.ptr + spec_vram_delta(m)), ..m.ppu }),
            ..m
        },
        v,
    )
}

/// A write through PPUDATA: the byte lands at the VRAM pointer (modulo the
/// 16 KiB of VRAM); palette writes to the universal-background entries
/// mirror to their counterparts, nametable writes mirror per the cartridge's
/// mirror mode; then the pointer advances by the auto-increment.
pub open spec fn spec_set_vram(m: NesV, value: u8) -> NesV {
    let idx = (m.ppu.ptr % 0x4000) as int;
    let r1 = m.ppu.ram.update(idx, value);
    let r2 = if idx == 0x3f00 || idx == 0x3f04 || idx == 0x3f08 || idx == 0x3f0c {
        r1.update(idx + 0x10, value)
    } else if idx == 0x3f10 || idx == 0x3f14 || idx == 0x3f18 || idx == 0x3f1c {
        r1.update(idx - 0x10, value)
    } else if !m.ppu.mirror && ((0x2000 <= idx && idx < 0x2400) || (0x2800 <= idx && idx
        < 0x2c00)) {
        r1.update(idx + 0x400, value)
    } else if m.ppu.mirror && (0x2000 <= idx && idx < 0x2800) {
        r1.update(idx + 0x800, value)
    } else {
        r1
    };
    NesV {
        ppu: (PpuV { ram: r2, ptr: wrap16(m.ppu.ptr + spec_vram_delta(m)), ..m.ppu }),
        ..m
    }
}

/// A store seen by the memory map: the side effect of the matching I/O
/// register, if any, then the plain write to the backing array.
pub open spec fn spec_io_write(m: NesV, addr: u16, value: u8) -> NesV {
    let m1 = if addr == 0x2004 {
        NesV {
            ppu: (PpuV { s_ram: m.ppu.s_ram.update(m.ram[0x2003] as int, value), ..m.ppu }),
            ram: m.ram.update(0x2003, wrap8(m.ram[0x2003] + 1)),
            ..m
        }
    } else if addr == 0x2005 {
        if m.ppu.scroll_flag {
            NesV { ppu: (PpuV { scroll1: value, scroll_flag: false, ..m.ppu }), ..m }
        } else {
            NesV { ppu: (PpuV { scroll0: value, scroll_flag: true, ..m.ppu }), ..m }
        }
    } else if addr == 0x2006 {
        NesV { ppu: (PpuV { ptr: (m.ppu.ptr << 8) | value as u16, ..m.ppu }), ..m }
    } else if addr == 0x2007 {
        spec_set_vram(m, value)
    } else if addr == 0x4014 {
        NesV {
            ppu: (PpuV {
                s_ram: Seq::new(0x100, |i: int| m.ram[value * 256 + i]),
                ..m.ppu
            }),
            ..m
        }
    } else {
        m
    };
    NesV { ram: m1.ram.update(addr as int, value), ..m1 }
}

// ---------------------------------------------------------------------------
// Instruction semantics, one pure function per mnemonic family.
// ---------------------------------------------------------------------------

/// Register A and the N, Z flags updated from a produced value `r`.
pub open spec fn spec_a_nz(m: NesV, r: u8) -> NesV {
    NesV {
        cpu: (Cpu { a: r, p: spec_flag_z(spec_flag_n(m.cpu.p, r), r), ..m.cpu }),
        ..m
    }
}

/// The add-with-carry core: `A + v + C` modulo 256, with N, V, Z, C derived
/// from the 9-bit sum. The subtraction hands the complemented operand here.
pub open spec fn spec_arith_core(m: NesV, v: u8) -> NesV {
    let c = m.cpu.p & 0x01;
    let sum = m.cpu.a + v + c;
    let r = wrap8(sum);
    let p1 = spec_flag_n(m.cpu.p, r);
    let p2 = spec_flag_v(p1, m.cpu.a, v, r);
    let p3 = spec_flag_z(p2, r);
    let p4 = spec_flag_c(p3, Instruction::ADC, sum as u16);
    NesV { cpu: (Cpu { a: r, p: p4, ..m.cpu }), ..m }
}

/// ADC: add the memory operand and the carry into A.
pub open spec fn spec_adc(m: NesV, addr: u16) -> NesV {
    spec_arith_core(m, spec_mem(m, addr))
}

/// SBC: subtract the memory operand and the borrow from A, which is the
/// add-with-carry core applied to the complemented operand.
pub open spec fn spec_sbc(m: NesV, addr: u16) -> NesV {
    spec_arith_core(m, spec_mem(m, addr) ^ 0xff)
}

/// AND: bitwise and of A with the memory operand.
pub open spec fn spec_and(m: NesV, addr: u16) -> NesV {
    spec_a_nz(m, m.cpu.a & spec_mem(m, addr))
}

/// ORA: bitwise or of A with the memory operand.
pub open spec fn spec_ora(m: NesV, addr: u16) -> NesV {
    spec_a_nz(m, m.cpu.a | spec_mem(m, addr))
}

/// EOR: bitwise exclusive or of A with the memory operand.
pub open spec fn spec_eor(m: NesV, addr: u16) -> NesV {
    spec_a_nz(m, m.cpu.a ^ spec_mem(m, addr))
}

/// The byte a shift or rotate operates on: A in accumulator mode, else the
/// byte at the effective address.
pub open spec fn spec_operand_byte(m: NesV, op: Operand) -> u8 {
    match op {
        Operand::Memory(a) => m.ram[a as int],
        _ => m.cpu.a,
    }
}

/// A shift or rotate's write-back and flags: C receives the bit shifted
/// out, N and Z follow the produced value, and the value returns to A or to
/// the memory byte it came from.
pub open spec fn spec_shift_result(m: NesV, op: Operand, v2: u8, carry: bool) -> NesV {
    let p1 = if carry {
        m.cpu.p | 0x01
    } else {
        m.cpu.p & 0xfe
    };
    let p = spec_flag_z(spec_flag_n(p1, v2), v2);
    match op {
        Operand::Memory(a) => NesV {
            cpu: (Cpu { p, ..m.cpu }),
            ram: m.ram.update(a as int, v2),
            ..m
        },
        _ => NesV { cpu: (Cpu { a: v2, p, ..m.cpu }), ..m },
    }
}

/// ASL: shift left; the bit shifted out goes to C.
pub open spec fn spec_asl(m: NesV, op: Operand) -> NesV {
    let v = spec_operand_byte(m, op);
    spec_shift_result(m, op, v << 1, v & 0x80 != 0)
}

/// LSR: shift right; the bit shifted out goes to C.
pub open spec fn spec_lsr(m: NesV, op: Operand) -> NesV {
    let v = spec_operand_byte(m, op);
    spec_shift_result(m, op, v >> 1, v & 0x01 != 0)
}

/// ROL: rotate left through C.
pub open spec fn spec_rol(m: NesV, op: Operand) -> NesV {
    let v = spec_operand_byte(m, op);
    let c = m.cpu.p & 0x01;
    let v2 = if c > 0 {
        (v << 1) | 0x01
    } else {
        (v << 1) & 0xfe
    };
    spec_shift_result(m, op, v2, v & 0x80 != 0)
}

/// ROR: rotate right through C.
pub open spec fn spec_ror(m: NesV, op: Operand) -> NesV {
    let v = spec_operand_byte(m, op);
    let c = m.cpu.p & 0x01;
    let v2 = if c > 0 {
        (v >> 1) | 0x80
    } else {
        (v >> 1) & 0x7f
    };
    spec_shift_result(m, op, v2, v & 0x01 != 0)
}

/// A branch: the program counter moves to the resolved target exactly when
/// the tested condition holds.
pub open spec fn spec_branch(m: NesV, addr: u16, taken: bool) -> NesV {
    if taken {
        NesV { cpu: (Cpu { pc: addr, ..m.cpu }), ..m }
    } else {
        m
    }
}

/// BIT: Z from `A & v`, N from bit 7 of `v`, V from bit 6 of `v`.
pub open spec fn spec_bit(m: NesV, addr: u16) -> NesV {
    let v = spec_mem(m, addr);
    let p1 = spec_flag_z(m.cpu.p, v & m.cpu.a);
    let p2 = spec_flag_n(p1, v);
    let p3 = if v & 0x40 != 0 {
        p2 | 0x40
    } else {
        p2 & 0xbf
    };
    NesV { cpu: (Cpu { p: p3, ..m.cpu }), ..m }
}

/// JSR: push `PC - 1` high byte first, then jump.
pub open spec fn spec_jsr(m: NesV, addr: u16) -> NesV {
    let ret = wrap16(m.cpu.pc - 1);
    let m1 = spec_push(m, (ret / 256) as u8);
    let m2 = spec_push(m1, (ret % 256) as u8);
    NesV { cpu: (Cpu { pc: addr, ..m2.cpu }), ..m2 }
}

/// RTS: pull low then high, and resume one byte past the pulled address.
pub open spec fn spec_rts(m: NesV) -> NesV {
    let m1 = spec_pull(m).0;
    let lo = spec_pull(m).1;
    let m2 = spec_pull(m1).0;
    let hi = spec_pull(m1).1;
    NesV { cpu: (Cpu { pc: wrap16(hi * 256 + lo + 1), ..m2.cpu }), ..m2 }
}

/// BRK: when interrupts are enabled, set B, push `PC + 1` high byte first,
/// push P, set I, and jump through the vector at `0xFFFE`/`0xFFFF`.
pub open spec fn spec_brk(m: NesV) -> NesV {
    if m.cpu.p & 0x04 == 0 {
        let p1 = m.cpu.p | 0x10;
        let pc1 = wrap16(m.cpu.pc + 1);
        let m1 = NesV { cpu: (Cpu { p: p1, pc: pc1, ..m.cpu }), ..m };
        let m2 = spec_push(m1, (pc1 / 256) as u8);
        let m3 = spec_push(m2, (pc1 % 256) as u8);
        let m4 = spec_push(m3, p1);
        NesV {
            cpu: (Cpu {
                p: p1 | 0x04,
                pc: (m.ram[0xffff] * 256 + m.ram[0xfffe]) as u16,
                ..m4.cpu
            }),
            ..m4
        }
    } else {
        m
    }
}

/// RTI: pull P (the reserved bit reads as 1), then pull the program counter
/// low byte first.
pub open spec fn spec_rti(m: NesV) -> NesV {
    let m1 = spec_pull(m).0;
    let sr = spec_pull(m).1;
    let m1b = NesV { cpu: (Cpu { p: sr | 0x20, ..m1.cpu }), ..m1 };
    let m2 = spec_pull(m1b).0;
    let lo = spec_pull(m1b).1;
    let m3 = spec_pull(m2).0;
    let hi = spec_pull(m2).1;
    NesV { cpu: (Cpu { pc: (hi * 256 + lo) as u16, ..m3.cpu }), ..m3 }
}

/// The value a load reads: the byte at the effective address, except that a
/// load from PPUDATA reads VRAM through the pointer and advances it.
pub open spec fn spec_load_value(m: NesV, addr: u16) -> (NesV, u8) {
    if addr == 0x2007 {
        spec_vram_read(m)
    } else {
        (m, spec_mem(m, addr))
    }
}

/// LDA: load A, with N and Z.
pub open spec fn spec_lda(m: NesV, addr: u16) -> NesV {
    let m1 = spec_load_value(m, addr).0;
    let v = spec_load_value(m, addr).1;
    NesV {
        cpu: (Cpu { a: v, p: spec_flag_z(spec_flag_n(m1.cpu.p, v), v), ..m1.cpu }),
        ..m1
    }
}

/// LDX: load X, with N and Z.
pub open spec fn spec_ldx(m: NesV, addr: u16) -> NesV {
    let m1 = spec_load_value(m, addr).0;
    let v = spec_load_value(m, addr).1;
    NesV {
        cpu: (Cpu { x: v, p: spec_flag_z(spec_flag_n(m1.cpu.p, v), v), ..m1.cpu }),
        ..m1
    }
}

/// LDY: load Y, with N and Z.
pub open spec fn spec_ldy(m: NesV, addr: u16) -> NesV {
    let m1 = spec_load_value(m, addr).0;
    let v = spec_load_value(m, addr).1;
    NesV {
        cpu: (Cpu { y: v, p: spec_flag_z(spec_flag_n(m1.cpu.p, v), v), ..m1.cpu }),
        ..m1
    }
}

/// INC: the byte at the effective address incremented, wrapping, with N
/// and Z from the produced byte.
pub open spec fn spec_inc(m: NesV, addr: u16) -> NesV {
    let r = wrap8(m.ram[addr as int] + 1);
    NesV {
        cpu: (Cpu { p: spec_flag_z(spec_flag_n(m.cpu.p, r), r), ..m.cpu }),
        ram: m.ram.update(addr as int, r),
        ..m
    }
}

/// DEC: the byte at the effective address decremented, wrapping, with N
/// and Z from the produced byte.
pub open spec fn spec_dec(m: NesV, addr: u16) -> NesV {
    let r = wrap8(m.ram[addr as int] - 1);
    NesV {
        cpu: (Cpu { p: spec_flag_z(spec_flag_n(m.cpu.p, r), r), ..m.cpu }),
        ram: m.ram.update(addr as int, r),
        ..m
    }
}

/// A compare: N and Z from the low byte of the 16-bit wrapped difference,
/// C set exactly when the register is at least the operand.
pub open spec fn spec_compare(m: NesV, instruction: Instruction, reg: u8, addr: u16) -> NesV {
    let v = spec_mem(m, addr);
    let d16 = wrap16(reg - v);
    let low = wrap8(d16 as int);
    let p = spec_flag_c(spec_flag_z(spec_flag_n(m.cpu.p, low), low), instruction, d16);
    NesV { cpu: (Cpu { p, ..m.cpu }), ..m }
}

/// Register X and the N, Z flags updated from a produced value.
pub open spec fn spec_x_nz(m: NesV, r: u8) -> NesV {
    NesV {
        cpu: (Cpu { x: r, p: spec_flag_z(spec_flag_n(m.cpu.p, r), r), ..m.cpu }),
        ..m
    }
}

/// Register Y and the N, Z flags updated from a produced value.
pub open spec fn spec_y_nz(m: NesV, r: u8) -> NesV {
    NesV {
        cpu: (Cpu { y: r, p: spec_flag_z(spec_flag_n(m.cpu.p, r), r), ..m.cpu }),
        ..m
    }
}

impl Nes {
    /// Push a byte onto the stack.
    pub fn push8(&mut self, value: u8)
        requires
            old(self).inv(),
        ensures
            final(self).inv(),
            final(self)@ == spec_push(old(self)@, value),
    {
        let s = self.cpu.s;
        self.set_memory8(s, value);
        self.cpu.s = 0x100 + ((s - 0x100 + 0xff) % 0x100);
    }

    /// Pull a byte from the stack.
    pub fn pull8(&mut self) -> (r: u8)
        requires
            old(self).inv(),
        ensures
            final(self).inv(),
            final(self)@ == spec_pull(old(self)@).0,
            r == spec_pull(old(self)@).1,
    {
        let s2: u16 = 0x100 + ((self.cpu.s - 0x100 + 1) % 0x100);
        self.cpu.s = s2;
        self.fetch_memory8(s2)
    }

    /// The VRAM auto-increment selected by PPUCTRL bit 2.
    pub fn get_vram_delta(&self) -> (r: u16)
        ensures
            r == spec_vram_delta(self@),
    {
        let value = self.fetch_memory8(0x2000);
        if value & 0x04 != 0 {
            32
        } else {
            1
        }
    }

    /// Read VRAM through the pointer and advance it, as a load from PPUDATA
    /// does.
    pub fn vram_read8(&mut self) -> (r: u8)
        ensures
            final(self)@ == spec_vram_read(old(self)@).0,
            r == spec_vram_read(old(self)@).1,
            final(self).cpu == old(self).cpu,
    {
        let idx = self.ppu.ptr % 0x4000;
        let v = self.ppu.ram[idx as usize];
        let d = self.get_vram_delta();
        self.ppu.ptr = self.ppu.ptr.wrapping_add(d);
        v
    }

    /// Write VRAM through the pointer, applying the palette and nametable
    /// mirrors, and advance the pointer.
    pub fn set_vram(&mut self, value: u8)
        ensures
            final(self)@ == spec_set_vram(old(self)@, value),
            final(self).cpu == old(self).cpu,
    {
        let idx = self.ppu.ptr % 0x4000;
        let d = self.get_vram_delta();
        self.ppu.ram[idx as usize] = value;
        if idx == 0x3f00 || idx == 0x3f04 || idx == 0x3f08 || idx == 0x3f0c {
            self.ppu.ram[(idx + 0x10) as usize] = value;
        } else if idx == 0x3f10 || idx == 0x3f14 || idx == 0x3f18 || idx == 0x3f1c {
            self.ppu.ram[(idx - 0x10) as usize] = value;
        } else if !self.ppu.mirror && ((0x2000 <= idx && idx < 0x2400) || (0x2800 <= idx && idx
            < 0x2c00)) {
            self.ppu.ram[(idx + 0x400) as usize] = value;
        } else if self.ppu.mirror && (0x2000 <= idx && idx < 0x2800) {
            self.ppu.ram[(idx + 0x800) as usize] = value;
        }
        self.ppu.ptr = self.ppu.ptr.wrapping_add(d);
    }

    /// A store seen by the memory map: dispatch the side effect of the
    /// matching I/O register, then write the backing array.
    pub fn io_store(&mut self, addr: u16, value: u8)
        ensures
            final(self)@ == spec_io_write(old(self)@, addr, value),
            final(self).cpu == old(self).cpu,
    {
        if addr == 0x2004 {
            let oam_addr = self.fetch_memory8(0x2003);
            self.ppu.s_ram[oam_addr as usize] = value;
            self.set_memory8(0x2003, oam_addr.wrapping_add(1));
        } else if addr == 0x2005 {
            if self.ppu.scroll_flag {
                self.ppu.scroll[1] = value;
                self.ppu.scroll_flag = false;
            } else {
                self.ppu.scroll[0] = value;
                self.ppu.scroll_flag = true;
            }
        } else if addr == 0x2006 {
            self.ppu.ptr = (self.ppu.ptr << 8) | value as u16;
        } else if addr == 0x2007 {
            self.set_vram(value);
        } else if addr == 0x4014 {
            let start: u16 = (value as u16) * 256;
            let mut i: usize = 0;
            while i < 0x100
                invariant
                    i <= 0x100,
                    start == value * 256,
                    self.cpu == old(self).cpu,
                    self.ram@ == old(self)@.ram,
                    self.ppu@.ram == old(self)@.ppu.ram,
                    self.ppu@.mirror == old(self)@.ppu.mirror,
                    self.ppu@.ptr == old(self)@.ppu.ptr,
                    self.ppu@.ppudata_buf == old(self)@.ppu.ppudata_buf,
                    self.ppu@.scroll0 == old(self)@.ppu.scroll0,
                    self.ppu@.scroll1 == old(self)@.ppu.scroll1,
                    self.ppu@.scroll_flag == old(self)@.ppu.scroll_flag,
                    self.ppu@.raster == old(self)@.ppu.raster,
                    self.ppu@.cycle == old(self)@.ppu.cycle,
                    forall|j: int|
                        0 <= j < i ==> self.ppu@.s_ram[j] == old(self)@.ram[value * 256 + j],
                    forall|j: int|
                        i <= j < 0x100 ==> self.ppu@.s_ram[j] == old(self)@.ppu.s_ram[j],
                decreases 0x100 - i,
            {
                let b = self.fetch_memory8(start + i as u16);
                let ghost prev: Seq<u8> = self.ppu@.s_ram;
                self.ppu.s_ram[i] = b;
                proof {
                    assert forall|j: int| 0 <= j < i + 1 implies self.ppu@.s_ram[j] == old(
                        self,
                    )@.ram[value * 256 + j] by {
                        assert(self.ppu@.s_ram == prev.update(i as int, b));
                        if j != i as int {
                            assert(self.ppu@.s_ram[j] == prev[j]);
                        }
                    }
                    assert forall|j: int| i + 1 <= j < 0x100 implies self.ppu@.s_ram[j] == old(
                        self,
                    )@.ppu.s_ram[j] by {
                        assert(self.ppu@.s_ram[j] == prev[j]);
                    }
                }
                i = i + 1;
            }
            proof {
                assert(self.ppu@.s_ram =~= Seq::new(
                    0x100,
                    |j: int| old(self)@.ram[value * 256 + j],
                ));
            }
        }
        self.set_memory8(addr, value);
    }

    /// ADC and SBC share this core: add `v` and the carry into A, deriving
    /// N, V, Z, C from the 9-bit sum.
    pub fn add_with_carry(&mut self, v: u8)
        requires
            old(self).inv(),
        ensures
            final(self).inv(),
            final(self)@ == spec_arith_core(old(self)@, v),
    {
        let c: u8 = self.cpu.p & 0x01;
        let a0 = self.cpu.a;
        let sum: u16 = a0 as u16 + v as u16 + c as u16;
        let r: u8 = (sum % 256) as u8;
        self.cpu.a = r;
        self.flag_n(r);
        self.flag_v(a0, v, r);
        self.flag_z(r);
        self.flag_c(Instruction::ADC, sum);
    }

    /// ADC: add the memory operand and the carry into A.
    pub fn adc(&mut self, addr: u16)
        requires
            old(self).inv(),
        ensures
            final(self).inv(),
            final(self)@ == spec_adc(old(self)@, addr),
    {
        let v = self.fetch_memory8(addr);
        self.add_with_carry(v);
    }

    /// SBC: subtract the memory operand and the borrow from A, by adding
    /// the complemented operand with the carry.
    pub fn sbc(&mut self, addr: u16)
        requires
            old(self).inv(),
        ensures
            final(self).inv(),
            final(self)@ == spec_sbc(old(self)@, addr),
    {
        let v = self.fetch_memory8(addr);
        self.add_with_carry(v ^ 0xff);
    }

    /// AND: bitwise and of A with the memory operand.
    pub fn and(&mut self, addr: u16)
        requires
            old(self).inv(),
        ensures
            final(self).inv(),
            final(self)@ == spec_and(old(self)@, addr),
    {
        let value = self.cpu.a & self.fetch_memory8(addr);
        self.cpu.a = value;
        self.flag_n(value);
        self.flag_z(value);
    }

    /// ORA: bitwise or of A with the memory operand.
    pub fn ora(&mut self, addr: u16)
        requires
            old(self).inv(),
        ensures
            final(self).inv(),
            final(self)@ == spec_ora(old(self)@, addr),
    {
        let value = self.cpu.a | self.fetch_memory8(addr);
        self.cpu.a = value;
        self.flag_n(value);
        self.flag_z(value);
    }

    /// EOR: bitwise exclusive or of A with the memory operand.
    pub fn eor(&mut self, addr: u16)
        requires
            old(self).inv(),
        ensures
            final(self).inv(),
            final(self)@ == spec_eor(old(self)@, addr),
    {
        let value = self.cpu.a ^ self.fetch_memory8(addr);
        self.cpu.a = value;
        self.flag_n(value);
        self.flag_z(value);
    }

    /// ASL: shift the operand left; the bit shifted out goes to C.
    pub fn asl(&mut self, op: Operand)
        requires
            old(self).inv(),
        ensures
            final(self).inv(),
            final(self)@ == spec_asl(old(self)@, op),
    {
        match op {
            Operand::Memory(addr) => {
                let v = self.fetch_memory8(addr);
                if v & 0x80 != 0 {
                    self.set_c_flag()
                } else {
                    self.clear_c_flag()
                }
                let v2: u8 = v << 1;
                self.set_memory8(addr, v2);
                self.flag_n(v2);
                self.flag_z(v2);
            },
            _ => {
                let v = self.cpu.a;
                if v & 0x80 != 0 {
                    self.set_c_flag()
                } else {
                    self.clear_c_flag()
                }
                let v2: u8 = v << 1;
                self.cpu.a = v2;
                self.flag_n(v2);
                self.flag_z(v2);
            },
        }
    }

    /// LSR: shift the operand right; the bit shifted out goes to C.
    pub fn lsr(&mut self, op: Operand)
        requires
            old(self).inv(),
        ensures
            final(self).inv(),
            final(self)@ == spec_lsr(old(self)@, op),
    {
        match op {
            Operand::Memory(addr) => {
                let v = self.fetch_memory8(addr);
                if v & 0x01 != 0 {
                    self.set_c_flag()
                } else {
                    self.clear_c_flag()
                }
                let v2: u8 = v >> 1;
                self.set_memory8(addr, v2);
                self.flag_n(v2);
                self.flag_z(v2);
            },
            _ => {
                let v = self.cpu.a;
                if v & 0x01 != 0 {
                    self.set_c_flag()
                } else {
                    self.clear_c_flag()
                }
                let v2: u8 = v >> 1;
                self.cpu.a = v2;
                self.flag_n(v2);
                self.flag_z(v2);
            },
        }
    }

    /// ROL: rotate the operand left through C.
    pub fn rol(&mut self, op: Operand)
        requires
            old(self).inv(),
        ensures
            final(self).inv(),
            final(self)@ == spec_rol(old(self)@, op),
    {
        let c_flag: u8 = self.cpu.p & 0x01;
        match op {
            Operand::Memory(addr) => {
                let v = self.fetch_memory8(addr);
                if v & 0x80 != 0 {
                    self.set_c_flag()
                } else {
                    self.clear_c_flag()
                }
                let v2: u8 = if c_flag > 0 {
                    (v << 1) | 0x01
                } else {
                    (v << 1) & 0xfe
                };
                self.set_memory8(addr, v2);
                self.flag_n(v2);
                self.flag_z(v2);
            },
            _ => {
                let v = self.cpu.a;
                if v & 0x80 != 0 {
                    self.set_c_flag()
                } else {
                    self.clear_c_flag()
                }
                let v2: u8 = if c_flag > 0 {
                    (v << 1) | 0x01
                } else {
                    (v << 1) & 0xfe
                };
                self.cpu.a = v2;
                self.flag_n(v2);
                self.flag_z(v2);
            },
        }
    }

    /// ROR: rotate the operand right through C.
    pub fn ror(&mut self, op: Operand)
        requires
            old(self).inv(),
        ensures
            final(self).inv(),
            final(self)@ == spec_ror(old(self)@, op),
    {
        let c_flag: u8 = self.cpu.p & 0x01;
        match op {
            Operand::Memory(addr) => {
                let v = self.fetch_memory8(addr);
                if v & 0x01 != 0 {
                    self.set_c_flag()
                } else {
                    self.clear_c_flag()
                }
                let v2: u8 = if c_flag > 0 {
                    (v >> 1) | 0x80
                } else {
                    (v >> 1) & 0x7f
                };
                self.set_memory8(addr, v2);
                self.flag_n(v2);
                self.flag_z(v2);
            },
            _ => {
                let v = self.cpu.a;
                if v & 0x01 != 0 {
                    self.set_c_flag()
                } else {
                    self.clear_c_flag()
                }
                let v2: u8 = if c_flag > 0 {
                    (v >> 1) | 0x80
                } else {
                    (v >> 1) & 0x7f
                };
                self.cpu.a = v2;
                self.flag_n(v2);
                self.flag_z(v2);
            },
        }
    }

    /// RTI: pull P, then the program counter, low byte first.
    pub fn rti(&mut self)
        requires
            old(self).inv(),
        ensures
            final(self).inv(),
            final(self)@ == spec_rti(old(self)@),
    {
        let sr = self.pull8();
        self.cpu.p = sr | 0x20;
        proof {
            lemma_or_0x20_sets_bit5(sr);
        }
        let lower = self.pull8();
        let upper = self.pull8();
        self.cpu.pc = (upper as u16) * 256 + (lower as u16);
    }

    /// BCC: branch when C is clear.
    pub fn bcc(&mut self, addr: u16)
        ensures
            final(self)@ == spec_branch(old(self)@, addr, old(self).cpu.p & 0x01 == 0),
    {
        let c_flag = self.cpu.p & 0x01;
        if c_flag == 0 {
            self.cpu.pc = addr
        }
    }

    /// BCS: branch when C is set.
    pub fn bcs(&mut self, addr: u16)
        ensures
            final(self)@ == spec_branch(old(self)@, addr, old(self).cpu.p & 0x01 != 0),
    {
        let c_flag = self.cpu.p & 0x01;
        if c_flag > 0 {
            self.cpu.pc = addr
        }
    }

    /// BEQ: branch when Z is set.
    pub fn beq(&mut self, addr: u16)
        ensures
            final(self)@ == spec_branch(old(self)@, addr, old(self).cpu.p & 0x02 != 0),
    {
        let z_flag = self.cpu.p & 0x02;
        if z_flag > 0 {
            self.cpu.pc = addr
        }
    }

    /// BNE: branch when Z is clear.
    pub fn bne(&mut self, addr: u16)
        ensures
            final(self)@ == spec_branch(old(self)@, addr, old(self).cpu.p & 0x02 == 0),
    {
        let z_flag = self.cpu.p & 0x02;
        if z_flag == 0 {
            self.cpu.pc = addr
        }
    }

    /// BMI: branch when N is set.
    pub fn bmi(&mut self, addr: u16)
        ensures
            final(self)@ == spec_branch(old(self)@, addr, old(self).cpu.p & 0x80 != 0),
    {
        let n_flag = self.cpu.p & 0x80;
        if n_flag > 0 {
            self.cpu.pc = addr
        }
    }

    /// BPL: branch when N is clear.
    pub fn bpl(&mut self, addr: u16)
        ensures
            final(self)@ == spec_branch(old(self)@, addr, old(self).cpu.p & 0x80 == 0),
    {
        let n_flag = self.cpu.p & 0x80;
        if n_flag == 0 {
            self.cpu.pc = addr
        }
    }

    /// BVC: branch when V is clear.
    pub fn bvc(&mut self, addr: u16)
        ensures
            final(self)@ == spec_branch(old(self)@, addr, old(self).cpu.p & 0x40 == 0),
    {
        let v_flag = self.cpu.p & 0x40;
        if v_flag == 0 {
            self.cpu.pc = addr
        }
    }

    /// BVS: branch when V is set.
    pub fn bvs(&mut self, addr: u16)
        ensures
            final(self)@ == spec_branch(old(self)@, addr, old(self).cpu.p & 0x40 != 0),
    {
        let v_flag = self.cpu.p & 0x40;
        if v_flag > 0 {
            self.cpu.pc = addr
        }
    }

    /// BIT: test the memory operand against A without storing anything.
    pub fn bit(&mut self, addr: u16)
        requires
            old(self).inv(),
        ensures
            final(self).inv(),
            final(self)@ == spec_bit(old(self)@, addr),
    {
        let value = self.fetch_memory8(addr);
        let a = self.cpu.a;
        self.flag_z(value & a);
        self.flag_n(value);
        proof {
            lemma_flag_mask_keeps_bit5(self.cpu.p);
        }
        if value & 0x40 != 0 {
            self.cpu.p = self.cpu.p | 0x40;
        } else {
            self.cpu.p = self.cpu.p & 0xbf;
        }
    }

    /// JMP: jump to the resolved address.
    pub fn jmp(&mut self, addr: u16)
        ensures
            final(self)@ == (NesV { cpu: (Cpu { pc: addr, ..old(self).cpu }), ..old(self)@ }),
    {
        self.cpu.pc = addr
    }

    /// JSR: push the return address minus one, high byte first, then jump.
    pub fn jsr(&mut self, addr: u16)
        requires
            old(self).inv(),
        ensures
            final(self).inv(),
            final(self)@ == spec_jsr(old(self)@, addr),
    {
        let ret = self.cpu.pc.wrapping_sub(1);
        self.push8((ret / 256) as u8);
        self.push8((ret % 256) as u8);
        self.cpu.pc = addr;
    }

    /// RTS: pull the return address, low byte first, and resume one byte
    /// past it.
    pub fn rts(&mut self)
        requires
            old(self).inv(),
        ensures
            final(self).inv(),
            final(self)@ == spec_rts(old(self)@),
    {
        let lower = self.pull8();
        let upper = self.pull8();
        let target: u16 = (upper as u16) * 256 + (lower as u16);
        self.cpu.pc = target.wrapping_add(1);
    }

    /// BRK: force an interrupt when I is clear.
    pub fn brk(&mut self)
        requires
            old(self).inv(),
        ensures
            final(self).inv(),
            final(self)@ == spec_brk(old(self)@),
    {
        let iflag = self.cpu.p & 0x04;
        if iflag == 0 {
            proof {
                lemma_flag_mask_keeps_bit5(self.cpu.p);
            }
            self.cpu.p = self.cpu.p | 0x10;
            let p1 = self.cpu.p;
            self.cpu.pc = self.cpu.pc.wrapping_add(1);
            let pc1 = self.cpu.pc;
            self.push8((pc1 / 256) as u8);
            self.push8((pc1 % 256) as u8);
            self.push8(p1);
            proof {
                lemma_flag_mask_keeps_bit5(self.cpu.p);
            }
            self.cpu.p = self.cpu.p | 0x04;
            let lower1 = self.fetch_memory8(0xfffe);
            let upper1 = self.fetch_memory8(0xffff);
            self.cpu.pc = (upper1 as u16) * 256 + (lower1 as u16);
        }
    }

    /// TXS: copy X into the low byte of the stack pointer; the high byte
    /// stays `0x01`. The one transfer that alters no flags.
    pub fn txs(&mut self)
        requires
            old(self).inv(),
        ensures
            final(self).inv(),
            final(self)@ == (NesV {
                cpu: (Cpu { s: ((0x100 + old(self).cpu.x) as u16), ..old(self).cpu }),
                ..old(self)@
            }),
    {
        let x = self.cpu.x;
        self.cpu.s = 0x100 + x as u16;
    }

    /// SEI: set the interrupt-disable flag.
    pub fn sei(&mut self)
        requires
            old(self).inv(),
        ensures
            final(self).inv(),
            final(self)@ == (NesV {
                cpu: (Cpu { p: old(self).cpu.p | 0x04, ..old(self).cpu }),
                ..old(self)@
            }),
    {
        proof {
            lemma_flag_mask_keeps_bit5(self.cpu.p);
        }
        self.cpu.p = self.cpu.p | 0x04;
    }

    /// LDA: load A from the effective address, with N and Z.
    pub fn lda(&mut self, addr: u16)
        requires
            old(self).inv(),
        ensures
            final(self).inv(),
            final(self)@ == spec_lda(old(self)@, addr),
    {
        let v = if addr == 0x2007 {
            self.vram_read8()
        } else {
            self.fetch_memory8(addr)
        };
        self.cpu.a = v;
        self.flag_n(v);
        self.flag_z(v);
    }

    /// LDX: load X from the effective address, with N and Z.
    pub fn ldx(&mut self, addr: u16)
        requires
            old(self).inv(),
        ensures
            final(self).inv(),
            final(self)@ == spec_ldx(old(self)@, addr),
    {
        let v = if addr == 0x2007 {
            self.vram_read8()
        } else {
            self.fetch_memory8(addr)
        };
        self.cpu.x = v;
        self.flag_n(v);
        self.flag_z(v);
    }

    /// LDY: load Y from the effective address, with N and Z.
    pub fn ldy(&mut self, addr: u16)
        requires
            old(self).inv(),
        ensures
            final(self).inv(),
            final(self)@ == spec_ldy(old(self)@, addr),
    {
        let v = if addr == 0x2007 {
            self.vram_read8()
        } else {
            self.fetch_memory8(addr)
        };
        self.cpu.y = v;
        self.flag_n(v);
        self.flag_z(v);
    }

    /// STA: store A through the memory map.
    pub fn sta(&mut self, addr: u16)
        ensures
            final(self)@ == spec_io_write(old(self)@, addr, old(self).cpu.a),
            final(self).cpu == old(self).cpu,
    {
        let v = self.cpu.a;
        self.io_store(addr, v);
    }

    /// STX: store X through the memory map.
    pub fn stx(&mut self, addr: u16)
        ensures
            final(self)@ == spec_io_write(old(self)@, addr, old(self).cpu.x),
            final(self).cpu == old(self).cpu,
    {
        let v = self.cpu.x;
        self.io_store(addr, v);
    }

    /// STY: store Y through the memory map.
    pub fn sty(&mut self, addr: u16)
        ensures
            final(self)@ == spec_io_write(old(self)@, addr, old(self).cpu.y),
            final(self).cpu == old(self).cpu,
    {
        let v = self.cpu.y;
        self.io_store(addr, v);
    }

    /// INX: increment X, wrapping, with N and Z.
    pub fn inx(&mut self)
        requires
            old(self).inv(),
        ensures
            final(self).inv(),
            final(self)@ == spec_x_nz(old(self)@, wrap8(old(self).cpu.x + 1)),
    {
        let r = self.cpu.x.wrapping_add(1);
        self.cpu.x = r;
        self.flag_n(r);
        self.flag_z(r);
    }

    /// DEX: decrement X, wrapping, with N and Z.
    pub fn dex(&mut self)
        requires
            old(self).inv(),
        ensures
            final(self).inv(),
            final(self)@ == spec_x_nz(old(self)@, wrap8(old(self).cpu.x - 1)),
    {
        let r = self.cpu.x.wrapping_sub(1);
        self.cpu.x = r;
        self.flag_n(r);
        self.flag_z(r);
    }

    /// INY: increment Y, wrapping, with N and Z.
    pub fn iny(&mut self)
        requires
            old(self).inv(),
        ensures
            final(self).inv(),
            final(self)@ == spec_y_nz(old(self)@, wrap8(old(self).cpu.y + 1)),
    {
        let r = self.cpu.y.wrapping_add(1);
        self.cpu.y = r;
        self.flag_n(r);
        self.flag_z(r);
    }

    /// DEY: decrement Y, wrapping, with N and Z.
    pub fn dey(&mut self)
        requires
            old(self).inv(),
        ensures
            final(self).inv(),
            final(self)@ == spec_y_nz(old(self)@, wrap8(old(self).cpu.y - 1)),
    {
        let r = self.cpu.y.wrapping_sub(1);
        self.cpu.y = r;
        self.flag_n(r);
        self.flag_z(r);
    }

    /// CMP: compare A with the memory operand.
    pub fn cmp(&mut self, addr: u16)
        requires
            old(self).inv(),
        ensures
            final(self).inv(),
            final(self)@ == spec_compare(old(self)@, Instruction::CMP, old(self).cpu.a, addr),
    {
        let v = self.fetch_memory8(addr);
        let d16 = (self.cpu.a as u16).wrapping_sub(v as u16);
        let low = (d16 % 256) as u8;
        self.flag_n(low);
        self.flag_z(low);
        self.flag_c(Instruction::CMP, d16);
    }

    /// CPX: compare X with the memory operand.
    pub fn cpx(&mut self, addr: u16)
        requires
            old(self).inv(),
        ensures
            final(self).inv(),
            final(self)@ == spec_compare(old(self)@, Instruction::CPX, old(self).cpu.x, addr),
    {
        let v = self.fetch_memory8(addr);
        let d16 = (self.cpu.x as u16).wrapping_sub(v as u16);
        let low = (d16 % 256) as u8;
        self.flag_n(low);
        self.flag_z(low);
        self.flag_c(Instruction::CPX, d16);
    }

    /// CPY: compare Y with the memory operand.
    pub fn cpy(&mut self, addr: u16)
        requires
            old(self).inv(),
        ensures
            final(self).inv(),
            final(self)@ == spec_compare(old(self)@, Instruction::CPY, old(self).cpu.y, addr),
    {
        let v = self.fetch_memory8(addr);
        let d16 = (self.cpu.y as u16).wrapping_sub(v as u16);
        let low = (d16 % 256) as u8;
        self.flag_n(low);
        self.flag_z(low);
        self.flag_c(Instruction::CPY, d16);
    }

    /// INC: increment the byte at the effective address, wrapping, with N
    /// and Z.
    pub fn inc(&mut self, addr: u16)
        requires
            old(self).inv(),
        ensures
            final(self).inv(),
            final(self)@ == spec_inc(old(self)@, addr),
    {
        let v = self.fetch_memory8(addr);
        let r = v.wrapping_add(1);
        self.set_memory8(addr, r);
        self.flag_n(r);
        self.flag_z(r);
    }

    /// DEC: decrement the byte at the effective address, wrapping, with N
    /// and Z.
    pub fn dec(&mut self, addr: u16)
        requires
            old(self).inv(),
        ensures
            final(self).inv(),
            final(self)@ == spec_dec(old(self)@, addr),
    {
        let v = self.fetch_memory8(addr);
        let r = v.wrapping_sub(1);
        self.set_memory8(addr, r);
        self.flag_n(r);
        self.flag_z(r);
    }

    /// SEC: set the carry flag.
    pub fn sec(&mut self)
        requires
            old(self).inv(),
        ensures
            final(self).inv(),
            final(self)@ == (NesV {
                cpu: (Cpu { p: old(self).cpu.p | 0x01, ..old(self).cpu }),
                ..old(self)@
            }),
    {
        proof {
            lemma_flag_mask_keeps_bit5(self.cpu.p);
        }
        self.cpu.p = self.cpu.p | 0x01;
    }

    /// CLI: clear the interrupt-disable flag.
    pub fn cli(&mut self)
        requires
            old(self).inv(),
        ensures
            final(self).inv(),
            final(self)@ == (NesV {
                cpu: (Cpu { p: spec_flag_i(old(self).cpu.p, false), ..old(self).cpu }),
                ..old(self)@
            }),
    {
        self.flag_i(false)
    }

    /// CLC: clear the carry flag.
    pub fn clc(&mut self)
        requires
            old(self).inv(),
        ensures
            final(self).inv(),
            final(self)@ == (NesV {
                cpu: (Cpu { p: old(self).cpu.p & 0xfe, ..old(self).cpu }),
                ..old(self)@
            }),
    {
        proof {
            lemma_flag_mask_keeps_bit5(self.cpu.p);
        }
        self.cpu.p = self.cpu.p & 0xfe;
    }

    /// CLD: clear the decimal flag.
    pub fn cld(&mut self)
        requires
            old(self).inv(),
        ensures
            final(self).inv(),
            final(self)@ == (NesV {
                cpu: (Cpu { p: spec_flag_d(old(self).cpu.p, false), ..old(self).cpu }),
                ..old(self)@
            }),
    {
        self.flag_d(false);
    }

    /// SED: set the decimal flag.
    pub fn sed(&mut self)
        requires
            old(self).inv(),
        ensures
            final(self).inv(),
            final(self)@ == (NesV {
                cpu: (Cpu { p: spec_flag_d(old(self).cpu.p, true), ..old(self).cpu }),
                ..old(self)@
            }),
    {
        self.flag_d(true);
    }

    /// CLV: clear the overflow flag.
    pub fn clv(&mut self)
        requires
            old(self).inv(),
        ensures
            final(self).inv(),
            final(self)@ == (NesV {
                cpu: (Cpu { p: old(self).cpu.p & 0xbf, ..old(self).cpu }),
                ..old(self)@
            }),
    {
        proof {
            lemma_flag_mask_keeps_bit5(self.cpu.p);
        }
        self.cpu.p = self.cpu.p & 0xbf;
    }

    /// TAX: copy A into X, with N and Z.
    pub fn tax(&mut self)
        requires
            old(self).inv(),
        ensures
            final(self).inv(),
            final(self)@ == spec_x_nz(old(self)@, old(self).cpu.a),
    {
        let r = self.cpu.a;
        self.cpu.x = r;
        self.flag_n(r);
        self.flag_z(r);
    }

    /// TAY: copy A into Y, with N and Z.
    pub fn tay(&mut self)
        requires
            old(self).inv(),
        ensures
            final(self).inv(),
            final(self)@ == spec_y_nz(old(self)@, old(self).cpu.a),
    {
        let r = self.cpu.a;
        self.cpu.y = r;
        self.flag_n(r);
        self.flag_z(r);
    }

    /// TXA: copy X into A, with N and Z.
    pub fn txa(&mut self)
        requires
            old(self).inv(),
        ensures
            final(self).inv(),
            final(self)@ == spec_a_nz(old(self)@, old(self).cpu.x),
    {
        let r = self.cpu.x;
        self.cpu.a = r;
        self.flag_n(r);
        self.flag_z(r);
    }

    /// TYA: copy Y into A, with N and Z.
    pub fn tya(&mut self)
        requires
            old(self).inv(),
        ensures
            final(self).inv(),
            final(self)@ == spec_a_nz(old(self)@, old(self).cpu.y),
    {
        let r = self.cpu.y;
        self.cpu.a = r;
        self.flag_n(r);
        self.flag_z(r);
    }

    /// TSX: copy the low byte of the stack pointer into X, with N and Z.
    pub fn tsx(&mut self)
        requires
            old(self).inv(),
        ensures
            final(self).inv(),
            final(self)@ == spec_x_nz(old(self)@, wrap8(old(self).cpu.s as int)),
    {
        let r = (self.cpu.s % 256) as u8;
        self.cpu.x = r;
        self.flag_n(r);
        self.flag_z(r);
    }

    /// PHA: push A.
    pub fn pha(&mut self)
        requires
            old(self).inv(),
        ensures
            final(self).inv(),
            final(self)@ == spec_push(old(self)@, old(self).cpu.a),
    {
        let v = self.cpu.a;
        self.push8(v);
    }

    /// PLA: pull into A, with N and Z.
    pub fn pla(&mut self)
        requires
            old(self).inv(),
        ensures
            final(self).inv(),
            final(self)@ == spec_a_nz(spec_pull(old(self)@).0, spec_pull(old(self)@).1),
    {
        let v = self.pull8();
        self.cpu.a = v;
        self.flag_n(v);
        self.flag_z(v);
    }

    /// PHP: push the status register.
    pub fn php(&mut self)
        requires
            old(self).inv(),
        ensures
            final(self).inv(),
            final(self)@ == spec_push(old(self)@, old(self).cpu.p),
    {
        let v = self.cpu.p;
        self.push8(v);
    }

    /// PLP: pull the status register; the reserved bit 5 reads as 1.
    pub fn plp(&mut self)
        requires
            old(self).inv(),
        ensures
            final(self).inv(),
            final(self)@ == (NesV {
                cpu: (Cpu {
                    p: spec_pull(old(self)@).1 | 0x20,
                    ..spec_pull(old(self)@).0.cpu
                }),
                ..spec_pull(old(self)@).0
            }),
    {
        let v = self.pull8();
        proof {
            lemma_or_0x20_sets_bit5(v);
        }
        self.cpu.p = v | 0x20;
    }

    /// NOP: do nothing.
    pub fn nop(&mut self)
        ensures
            final(self)@ == old(self)@,
    {
    }
}

} // verus!
