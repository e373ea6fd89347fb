use vstd::prelude::*;
use crate::instruction::{
    spec_arith_core, spec_io_write, spec_pull, spec_push, spec_sbc, spec_set_vram,
};
use crate::nes::{NesV, spec_inv, spec_mem};

verus! {

/// The scalar core of the add-with-carry law: with the status chain the
/// flag unit applies, the carry out is the ninth bit of the sum, overflow
/// is `(a ^ r) & (v ^ r) & 0x80`, and N and Z follow the result.
proof fn lemma_adc_flags(p: u8, a: u8, v: u8)
    by (bit_vector)
    ensures
        ({
            let c: u8 = p & 0x01;
            let su: u16 = (a as u16 + v as u16 + c as u16) as u16;
            let r: u8 = (su % 256) as u8;
            let p1 = if r & 0x80 != 0 {
                p | 0x80
            } else {
                p & 0x7f
            };
            let p2 = if (a ^ r) & (v ^ r) & 0x80 != 0 {
                p1 | 0x40
            } else {
                p1 & 0xbf
            };
            let p3 = if r == 0 {
                p2 | 0x02
            } else {
                p2 & 0xfd
            };
            let p4 = if su >> 8 != 0 {
                p3 | 0x01
            } else {
                p3 & 0xfe
            };
            &&& c <= 1
            &&& r == ((su & 0xff) as u8)
            &&& (p4 & 0x01 == 0x01 <==> su > 0xff)
            &&& (p4 & 0x40 == 0x40 <==> (a ^ r) & (v ^ r) & 0x80 != 0)
            &&& (p4 & 0x80 == 0x80 <==> r & 0x80 != 0)
            &&& (p4 & 0x02 == 0x02 <==> r == 0)
        }),
{
}

/// The add-with-carry law: for every accumulator `a`, operand `v` and
/// carry `c`, the accumulator receives the low 8 bits of `a + v + c`, the
/// carry flag holds exactly when the sum exceeds `0xFF`, the overflow flag
/// holds exactly when `(a ^ r) & (v ^ r) & 0x80` is set, and N and Z follow
/// the result. Everything else is untouched.
pub proof fn lemma_adc(m: NesV, v: u8)
    ensures
        ({
            let c = m.cpu.p & 0x01;
            let r = spec_arith_core(m, v);
            &&& c <= 1
            &&& r.cpu.a == (m.cpu.a + v + c) % 256
            &&& (r.cpu.p & 0x01 == 0x01 <==> m.cpu.a + v + c > 0xff)
            &&& (r.cpu.p & 0x40 == 0x40 <==> (m.cpu.a ^ r.cpu.a) & (v ^ r.cpu.a) & 0x80 != 0)
            &&& (r.cpu.p & 0x80 == 0x80 <==> r.cpu.a & 0x80 != 0)
            &&& (r.cpu.p & 0x02 == 0x02 <==> r.cpu.a == 0)
            &&& r.cpu.x == m.cpu.x
            &&& r.cpu.y == m.cpu.y
            &&& r.cpu.s == m.cpu.s
            &&& r.cpu.pc == m.cpu.pc
            &&& r.ram == m.ram
            &&& r.ppu == m.ppu
        }),
{
    lemma_adc_flags(m.cpu.p, m.cpu.a, v);
}

/// The subtraction law: SBC on an operand is exactly the add-with-carry
/// core applied to the complemented operand, carry and flags included.
pub proof fn lemma_sbc_is_adc_of_complement(m: NesV, addr: u16)
    ensures
        spec_sbc(m, addr) == spec_arith_core(m, spec_mem(m, addr) ^ 0xff),
{
}

/// The balanced-stack law: pushing a byte and pulling again hands the byte
/// back, returns the stack pointer to its starting value, and leaves memory
/// equal to its pre-sequence content everywhere but the one consumed stack
/// slot, which holds the pushed byte; when that byte equals what the slot
/// already held, memory is restored in full. Balanced sequences of any
/// depth compose from this law one pair at a time.
pub proof fn lemma_push_pull(m: NesV, v: u8)
    requires
        spec_inv(m),
    ensures
        spec_pull(spec_push(m, v)).1 == v,
        spec_pull(spec_push(m, v)).0.cpu == m.cpu,
        spec_pull(spec_push(m, v)).0.ppu == m.ppu,
        spec_pull(spec_push(m, v)).0.ram == m.ram.update(m.cpu.s as int, v),
        forall|i: int|
            0 <= i < m.ram.len() && i != m.cpu.s ==> spec_pull(spec_push(m, v)).0.ram[i]
                == m.ram[i],
        v == m.ram[m.cpu.s as int] ==> spec_pull(spec_push(m, v)).0.ram == m.ram,
{
    let lo: int = m.cpu.s - 0x100;
    assert(((lo + 0xff) % 0x100 + 1) % 0x100 == lo);
    if v == m.ram[m.cpu.s as int] {
        assert(m.ram.update(m.cpu.s as int, v) =~= m.ram);
    }
}

/// The palette-mirror law: a write through PPUDATA to a universal
/// background entry `0x3F00/04/08/0C` also lands at the matching
/// `0x3F10/14/18/1C` entry, and the other way round.
pub proof fn lemma_palette_mirror(m: NesV, value: u8)
    requires
        m.ppu.ram.len() == 0x4000,
    ensures
        ({
            let idx = (m.ppu.ptr % 0x4000) as int;
            let r = spec_set_vram(m, value);
            &&& (idx == 0x3f00 || idx == 0x3f04 || idx == 0x3f08 || idx == 0x3f0c)
                ==> r.ppu.ram[idx] == value && r.ppu.ram[idx + 0x10] == value
            &&& (idx == 0x3f10 || idx == 0x3f14 || idx == 0x3f18 || idx == 0x3f1c)
                ==> r.ppu.ram[idx] == value && r.ppu.ram[idx - 0x10] == value
        }),
{
}

/// The address-latch law: writing H then L to PPUADDR leaves the VRAM
/// pointer at exactly `H * 256 + L`, whatever it held before.
pub proof fn lemma_ppuaddr_round_trip(m: NesV, h: u8, l: u8)
    ensures
        spec_io_write(spec_io_write(m, 0x2006, h), 0x2006, l).ppu.ptr == h * 256 + l,
{
    let p0 = m.ppu.ptr;
    assert(((((p0 << 8) | (h as u16)) << 8) | (l as u16)) == (h as u16) * 256 + (l as u16))
        by (bit_vector);
}

} // verus!
