use vstd::prelude::*;
use crate::cpu::Cpu;
use crate::instruction::Instruction;
use crate::nes::{Nes, NesV};

verus! {

/// Status register with N set to bit 7 of the produced value `b`.
pub open spec fn spec_flag_n(p: u8, b: u8) -> u8 {
    if b & 0x80 != 0 {
        p | 0x80
    } else {
        p & 0x7f
    }
}

/// Status register with Z set exactly when the produced value `b` is zero.
pub open spec fn spec_flag_z(p: u8, b: u8) -> u8 {
    if b == 0 {
        p | 0x02
    } else {
        p & 0xfd
    }
}

/// Status register with V derived from an addition `a + m` (after operand
/// complement, for a subtraction) that produced `r`: overflow occurred
/// exactly when the operands agree in sign and the result does not.
pub open spec fn spec_flag_v(p: u8, a: u8, m: u8, r: u8) -> u8 {
    if (a ^ r) & (m ^ r) & 0x80 != 0 {
        p | 0x40
    } else {
        p & 0xbf
    }
}

/// Status register with I set or cleared.
pub open spec fn spec_flag_i(p: u8, active: bool) -> u8 {
    if active {
        p | 0x04
    } else {
        p & 0xfb
    }
}

/// Status register with D set or cleared.
pub open spec fn spec_flag_d(p: u8, active: bool) -> u8 {
    if active {
        p | 0x08
    } else {
        p & 0xf7
    }
}

/// Status register with C derived from the 9-bit quantity `b`: for ADC the
/// carry is the ninth bit of the sum; for SBC and the compares, `b` is the
/// 16-bit wrapped difference and C is set exactly when no borrow occurred,
/// that is, when the high byte is zero.
pub open spec fn spec_flag_c(p: u8, instruction: Instruction, b: u16) -> u8 {
    if b >> 8 != 0 {
        if instruction == Instruction::ADC {
            p | 0x01
        } else {
            p & 0xfe
        }
    } else {
        if instruction == Instruction::ADC {
            p & 0xfe
        } else {
            p | 0x01
        }
    }
}

/// Every mask the flag unit applies leaves the reserved bit 5 of the status
/// register set.
pub proof fn lemma_flag_mask_keeps_bit5(p: u8)
    by (bit_vector)
    requires
        p & 0x20 == 0x20,
    ensures
        (p | 0x80) & 0x20 == 0x20,
        (p & 0x7f) & 0x20 == 0x20,
        (p | 0x02) & 0x20 == 0x20,
        (p & 0xfd) & 0x20 == 0x20,
        (p | 0x40) & 0x20 == 0x20,
        (p & 0xbf) & 0x20 == 0x20,
        (p | 0x04) & 0x20 == 0x20,
        (p & 0xfb) & 0x20 == 0x20,
        (p | 0x08) & 0x20 == 0x20,
        (p & 0xf7) & 0x20 == 0x20,
        (p | 0x01) & 0x20 == 0x20,
        (p & 0xfe) & 0x20 == 0x20,
        (p | 0x10) & 0x20 == 0x20,
{
}

/// Clearing the vertical-blank bit indeed leaves bit 7 clear.
pub proof fn lemma_mask_7f_clears_bit7(v: u8)
    by (bit_vector)
    ensures
        (v & 0x7f) & 0x80 == 0,
{
}

/// Forcing bit 5 on, as the pulls of the status register do, indeed leaves
/// it set.
pub proof fn lemma_or_0x20_sets_bit5(v: u8)
    by (bit_vector)
    ensures
        (v | 0x20) & 0x20 == 0x20,
{
}

impl Nes {
    /// Set the vertical-blank bit of PPUSTATUS.
    pub fn set_v_blank(&mut self)
        ensures
            final(self)@ == (NesV {
                ram: old(self)@.ram.update(0x2002, old(self)@.ram[0x2002] | 0x80),
                ..old(self)@
            }),
    {
        let v = self.fetch_memory8(0x2002);
        self.set_memory8(0x2002, v | 0x80);
    }

    /// Clear the vertical-blank bit of PPUSTATUS.
    pub fn clear_v_blank(&mut self)
        ensures
            final(self)@ == (NesV {
                ram: old(self)@.ram.update(0x2002, old(self)@.ram[0x2002] & 0x7f),
                ..old(self)@
            }),
    {
        let v = self.fetch_memory8(0x2002);
        self.set_memory8(0x2002, v & 0x7f);
    }

    /// Update N from the produced value `b`.
    pub fn flag_n(&mut self, b: u8)
        ensures
            final(self)@ == (NesV {
                cpu: (Cpu { p: spec_flag_n(old(self).cpu.p, b), ..old(self).cpu }),
                ..old(self)@
            }),
            old(self).cpu.p & 0x20 == 0x20 ==> final(self).cpu.p & 0x20 == 0x20,
    {
        proof {
            if old(self).cpu.p & 0x20 == 0x20 {
                lemma_flag_mask_keeps_bit5(old(self).cpu.p);
            }
        }
        if b & 0x80 != 0 {
            self.cpu.p = self.cpu.p | 0x80;
        } else {
            self.cpu.p = self.cpu.p & 0x7f;
        }
    }

    /// Update V for an addition of `a` and `m` (the subtractions hand the
    /// complemented operand) that produced `r`.
    pub fn flag_v(&mut self, a: u8, m: u8, r: u8)
        ensures
            final(self)@ == (NesV {
                cpu: (Cpu { p: spec_flag_v(old(self).cpu.p, a, m, r), ..old(self).cpu }),
                ..old(self)@
            }),
            old(self).cpu.p & 0x20 == 0x20 ==> final(self).cpu.p & 0x20 == 0x20,
    {
        proof {
            if old(self).cpu.p & 0x20 == 0x20 {
                lemma_flag_mask_keeps_bit5(old(self).cpu.p);
            }
        }
        if (a ^ r) & (m ^ r) & 0x80 != 0 {
            self.cpu.p = self.cpu.p | 0x40;
        } else {
            self.cpu.p = self.cpu.p & 0xbf;
        }
    }

    /// Update Z from the produced value `b`.
    pub fn flag_z(&mut self, b: u8)
        ensures
            final(self)@ == (NesV {
                cpu: (Cpu { p: spec_flag_z(old(self).cpu.p, b), ..old(self).cpu }),
                ..old(self)@
            }),
            old(self).cpu.p & 0x20 == 0x20 ==> final(self).cpu.p & 0x20 == 0x20,
    {
        proof {
            if old(self).cpu.p & 0x20 == 0x20 {
                lemma_flag_mask_keeps_bit5(old(self).cpu.p);
            }
        }
        if b == 0 {
            self.cpu.p = self.cpu.p | 0x02;
        } else {
            self.cpu.p = self.cpu.p & 0xfd;
        }
    }

    /// Set or clear the interrupt-disable flag I.
    pub fn flag_i(&mut self, active: bool)
        ensures
            final(self)@ == (NesV {
                cpu: (Cpu { p: spec_flag_i(old(self).cpu.p, active), ..old(self).cpu }),
                ..old(self)@
            }),
            old(self).cpu.p & 0x20 == 0x20 ==> final(self).cpu.p & 0x20 == 0x20,
    {
        proof {
            if old(self).cpu.p & 0x20 == 0x20 {
                lemma_flag_mask_keeps_bit5(old(self).cpu.p);
            }
        }
        if active {
            self.cpu.p = self.cpu.p | 0x04;
        } else {
            self.cpu.p = self.cpu.p & 0xfb;
        }
    }

    /// Update C from the 9-bit quantity `b` produced by `instruction`.
    pub fn flag_c(&mut self, instruction: Instruction, b: u16)
        ensures
            final(self)@ == (NesV {
                cpu: (Cpu {
                    p: spec_flag_c(old(self).cpu.p, instruction, b),
                    ..old(self).cpu
                }),
                ..old(self)@
            }),
            old(self).cpu.p & 0x20 == 0x20 ==> final(self).cpu.p & 0x20 == 0x20,
    {
        proof {
            if old(self).cpu.p & 0x20 == 0x20 {
                lemma_flag_mask_keeps_bit5(old(self).cpu.p);
            }
        }
        if b >> 8u16 != 0 {
            if let Instruction::ADC = instruction {
                self.set_c_flag()
            } else {
                self.clear_c_flag()
            }
        } else if let Instruction::ADC = instruction {
            self.clear_c_flag()
        } else {
            self.set_c_flag()
        }
    }

    /// Set or clear the decimal flag D.
    pub fn flag_d(&mut self, active: bool)
        ensures
            final(self)@ == (NesV {
                cpu: (Cpu { p: spec_flag_d(old(self).cpu.p, active), ..old(self).cpu }),
                ..old(self)@
            }),
            old(self).cpu.p & 0x20 == 0x20 ==> final(self).cpu.p & 0x20 == 0x20,
    {
        proof {
            if old(self).cpu.p & 0x20 == 0x20 {
                lemma_flag_mask_keeps_bit5(old(self).cpu.p);
            }
        }
        if active {
            self.cpu.p = self.cpu.p | 0x08;
        } else {
            self.cpu.p = self.cpu.p & 0xf7;
        }
    }

    /// Set the carry flag.
    pub fn set_c_flag(&mut self)
        ensures
            final(self)@ == (NesV {
                cpu: (Cpu { p: old(self).cpu.p | 0x01, ..old(self).cpu }),
                ..old(self)@
            }),
            old(self).cpu.p & 0x20 == 0x20 ==> final(self).cpu.p & 0x20 == 0x20,
    {
        proof {
            if old(self).cpu.p & 0x20 == 0x20 {
                lemma_flag_mask_keeps_bit5(old(self).cpu.p);
            }
        }
        self.cpu.p = self.cpu.p | 0x01;
    }

    /// Clear the carry flag.
    pub fn clear_c_flag(&mut self)
        ensures
            final(self)@ == (NesV {
                cpu: (Cpu { p: old(self).cpu.p & 0xfe, ..old(self).cpu }),
                ..old(self)@
            }),
            old(self).cpu.p & 0x20 == 0x20 ==> final(self).cpu.p & 0x20 == 0x20,
    {
        proof {
            if old(self).cpu.p & 0x20 == 0x20 {
                lemma_flag_mask_keeps_bit5(old(self).cpu.p);
            }
        }
        self.cpu.p = self.cpu.p & 0xfe;
    }
}

} // verus!
