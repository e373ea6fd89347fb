use vstd::prelude::*;
use crate::cpu::{lemma_decode_cycles, spec_step};
use crate::flag::lemma_mask_7f_clears_bit7;
use crate::nes::{Nes, NesV};
use crate::ppu::{PpuV, spec_pixel};

verus! {

/// A pixel position: `(x, y)` inside an 8-by-8 tile, `(b_x, b_y)` the tile's
/// block coordinate in the 32-by-30 nametable grid.
#[derive(Clone, Copy, PartialEq, Eq, Structural, Debug)]
pub struct GridPosition {
    pub x: u16,
    pub y: u16,
    pub b_x: u16,
    pub b_y: u16,
}

impl GridPosition {
    /// Horizontal screen coordinate of the pixel, origin top-left.
    pub fn screen_x(&self) -> (r: u16)
        requires
            self.x < 8,
            self.b_x < 32,
        ensures
            r == self.b_x * 8 + self.x,
    {
        self.b_x * 8 + self.x
    }

    /// Vertical screen coordinate of the pixel, origin top-left.
    pub fn screen_y(&self) -> (r: u16)
        requires
            self.y < 8,
            self.b_y < 30,
        ensures
            r == self.b_y * 8 + self.y,
    {
        self.b_y * 8 + self.y
    }
}

/// The position of the pixel at index `i` of a frame's emission: rows of
/// 256 pixels come out top to bottom, each row left to right.
pub open spec fn spec_frame_position(i: int) -> GridPosition {
    GridPosition {
        x: ((i % 8) as u16),
        y: (((i / 256) % 8) as u16),
        b_x: (((i % 256) / 8) as u16),
        b_y: ((i / 2048) as u16),
    }
}

/// Decomposing a frame index back into its pixel coordinates.
proof fn lemma_pixel_index(b_y: int, y: int, b_x: int, x: int)
    by (nonlinear_arith)
    requires
        0 <= x < 8,
        0 <= b_x < 32,
        0 <= y < 8,
        0 <= b_y,
    ensures
        (2048 * b_y + 256 * y + 8 * b_x + x) % 8 == x,
        ((2048 * b_y + 256 * y + 8 * b_x + x) / 256) % 8 == y,
        ((2048 * b_y + 256 * y + 8 * b_x + x) % 256) / 8 == b_x,
        (2048 * b_y + 256 * y + 8 * b_x + x) / 2048 == b_y,
{
}

/// Decomposing a row index back into its tile and column.
proof fn lemma_row_index(b_x: int, x: int)
    by (nonlinear_arith)
    requires
        0 <= x < 8,
        0 <= b_x < 32,
    ensures
        (8 * b_x + x) % 8 == x,
        (8 * b_x + x) / 8 == b_x,
{
}

/// The 256 pixels of scanline row `(b_y, y)`, left to right, synthesized
/// from the machine's video RAM.
pub open spec fn spec_row(m: NesV, y: u16, b_y: u16) -> Seq<(GridPosition, (u8, u8, u8))> {
    Seq::new(
        256,
        |k: int|
            (
                GridPosition { x: ((k % 8) as u16), y, b_x: ((k / 8) as u16), b_y },
                spec_pixel(m.ppu.ram, (k % 8) as u16, y, (k / 8) as u16, b_y),
            ),
    )
}

/// The frame driver's loop state: the machine, the current intra-tile row
/// and block row, the dots consumed so far, and the pixels emitted so far.
#[verifier::ext_equal]
pub struct FrameState {
    pub m: NesV,
    pub y: u16,
    pub b_y: u16,
    pub total: int,
    pub pixels: Seq<(GridPosition, (u8, u8, u8))>,
}

/// The frame loop as a function of the driver's state: step the CPU,
/// convert its cycles to three dots apiece, and when 341 dots accumulate
/// cross one scanline, emitting its row while the row is visible; the loop
/// ends after the frame's `260 * 341` dots, or at an unknown opcode, which
/// the second component reports as `false`.
#[verifier::opaque]
pub open spec fn spec_frame_from(s: FrameState) -> (FrameState, bool)
    decreases 88680 - s.total,
{
    if s.total >= 88660 {
        (s, true)
    } else {
        let m1 = spec_step(s.m).0;
        match spec_step(s.m).1 {
            None => ((FrameState { m: m1, ..s }), false),
            Some(cy) => {
                proof {
                    lemma_decode_cycles(s.m.ram[s.m.cpu.pc as int]);
                }
                let dots = 3 * cy;
                let total2 = s.total + dots;
                let cyc2 = m1.ppu.cycle + dots;
                if cyc2 >= 341 {
                    let m2 = NesV {
                        ppu: (PpuV { cycle: ((cyc2 - 341) as usize), ..m1.ppu }),
                        ..m1
                    };
                    let pixels2 = if s.b_y < 30 {
                        s.pixels + spec_row(m2, s.y, s.b_y)
                    } else {
                        s.pixels
                    };
                    let y2: u16 = if s.y == 7 {
                        0
                    } else {
                        ((s.y + 1) as u16)
                    };
                    let b_y2: u16 = if s.y == 7 {
                        ((s.b_y + 1) as u16)
                    } else {
                        s.b_y
                    };
                    spec_frame_from(
                        FrameState { m: m2, y: y2, b_y: b_y2, total: total2, pixels: pixels2 },
                    )
                } else {
                    let m2 = NesV { ppu: (PpuV { cycle: (cyc2 as usize), ..m1.ppu }), ..m1 };
                    spec_frame_from(FrameState { m: m2, total: total2, ..s })
                }
            },
        }
    }
}

/// The machine after the vertical-blank bit of PPUSTATUS was set or
/// cleared.
pub open spec fn spec_with_vblank(m: NesV, on: bool) -> NesV {
    if on {
        NesV { ram: m.ram.update(0x2002, m.ram[0x2002] | 0x80), ..m }
    } else {
        NesV { ram: m.ram.update(0x2002, m.ram[0x2002] & 0x7f), ..m }
    }
}

/// The result of driving one frame from machine `m`: the loop runs from the
/// machine with the vertical-blank bit set, and the bit is cleared at the
/// end.
pub open spec fn spec_frame(m: NesV) -> (FrameState, bool) {
    spec_frame_from(
        FrameState {
            m: spec_with_vblank(m, true),
            y: 0,
            b_y: 0,
            total: 0,
            pixels: Seq::empty(),
        },
    )
}

impl Nes {
    /// Drive one frame, scanline-consistent: set the vertical-blank bit,
    /// repeatedly step the CPU converting each step's cycles to three
    /// picture-processor dots apiece, and every 341 dots cross one scanline,
    /// emitting its 256 pixels while the scanline is visible; the frame ends
    /// after the 240 visible and 20 padding scanlines, with the
    /// vertical-blank bit cleared.
    ///
    /// Yields exactly the pixels of `spec_frame`: 240 rows of 256, each
    /// showing its row's background color at the moment the scanline was
    /// crossed; `None` reports a fatal unknown opcode.
    #[verifier::rlimit(100)]
    pub fn render_frame(&mut self) -> (r: Option<Vec<(GridPosition, (u8, u8, u8))>>)
        requires
            old(self).inv(),
            old(self).ppu.cycle < 341,
        ensures
            final(self).inv(),
            r is Some ==> final(self).ppu.cycle < 341,
            r is Some ==> final(self)@.ram[0x2002] & 0x80 == 0,
            r is Some ==> r.unwrap()@.len() == 61440,
            r is Some ==> forall|i: int|
                0 <= i < r.unwrap()@.len() ==> (#[trigger] r.unwrap()@[i]).0
                    == spec_frame_position(i),
            r is Some ==> spec_frame(old(self)@).1 && r.unwrap()@ == spec_frame(old(self)@).0.pixels
                && final(self)@ == spec_with_vblank(spec_frame(old(self)@).0.m, false),
            r is None ==> !spec_frame(old(self)@).1 && final(self)@ == spec_frame(old(self)@).0.m,
    {
        self.set_v_blank();
        let ghost cycle0: int = self.ppu.cycle as int;
        let ghost target: (FrameState, bool) = spec_frame(old(self)@);
        let mut pixels: Vec<(GridPosition, (u8, u8, u8))> = Vec::new();
        let mut y: u16 = 0;
        let mut b_y: u16 = 0;
        let mut total: u32 = 0;
        proof {
            assert(self@ == spec_with_vblank(old(self)@, true));
        }
        while total < 88660
            invariant
                self.inv(),
                cycle0 < 341,
                self.ppu.cycle < 341,
                total <= 88680,
                y < 8,
                8 * b_y + y <= 261,
                341 * (8 * b_y + y) + self.ppu.cycle == cycle0 + total,
                pixels@.len() == 256 * (if 8 * b_y + y <= 240 {
                    8 * b_y + y as int
                } else {
                    240
                }),
                forall|i: int|
                    0 <= i < pixels@.len() ==> (#[trigger] pixels@[i]).0
                        == spec_frame_position(i),
                target == spec_frame(old(self)@),
                target == spec_frame_from(
                    FrameState { m: self@, y, b_y, total: total as int, pixels: pixels@ },
                ),
            decreases 88680 - total,
        {
            let ghost s_cur = FrameState {
                m: self@,
                y,
                b_y,
                total: total as int,
                pixels: pixels@,
            };
            let cycle_opt = self.step();
            let cy: u8 = match cycle_opt {
                Some(c) => c,
                None => {
                    proof {
                        reveal_with_fuel(spec_frame_from, 1);
                        assert(spec_frame_from(s_cur) == (
                            FrameState { m: self@, ..s_cur },
                            false,
                        ));
                    }
                    return None;
                },
            };
            proof {
                lemma_decode_cycles(s_cur.m.ram[s_cur.m.cpu.pc as int]);
                assert(2 <= cy <= 7);
            }
            let dots: u32 = 3 * cy as u32;
            total = total + dots;
            self.ppu.cycle = self.ppu.cycle + dots as usize;
            if self.ppu.cycle >= 341 {
                self.ppu.cycle = self.ppu.cycle - 341;
                if b_y < 30 {
                    let ghost len0: int = pixels@.len() as int;
                    let ghost pix0: Seq<(GridPosition, (u8, u8, u8))> = pixels@;
                    let ghost row = spec_row(self@, y, b_y);
                    let mut b_x: u16 = 0;
                    while b_x < 32
                        invariant
                            b_x <= 32,
                            y < 8,
                            b_y < 30,
                            len0 == 2048 * b_y + 256 * y,
                            pix0.len() == len0,
                            row == spec_row(self@, y, b_y),
                            pixels@.len() == len0 + 8 * b_x,
                            pixels@ == pix0 + row.take(8 * b_x),
                            forall|i: int|
                                0 <= i < pixels@.len() ==> (#[trigger] pixels@[i]).0
                                    == spec_frame_position(i),
                        decreases 32 - b_x,
                    {
                        let mut x: u16 = 0;
                        while x < 8
                            invariant
                                x <= 8,
                                b_x < 32,
                                y < 8,
                                b_y < 30,
                                len0 == 2048 * b_y + 256 * y,
                                pix0.len() == len0,
                                row == spec_row(self@, y, b_y),
                                pixels@.len() == len0 + 8 * b_x + x,
                                pixels@ == pix0 + row.take(8 * b_x + x),
                                forall|i: int|
                                    0 <= i < pixels@.len() ==> (#[trigger] pixels@[i]).0
                                        == spec_frame_position(i),
                            decreases 8 - x,
                        {
                            let rgb = self.ppu.step(x, y, b_x, b_y);
                            proof {
                                lemma_pixel_index(b_y as int, y as int, b_x as int, x as int);
                                lemma_row_index(b_x as int, x as int);
                                let k: int = 8 * b_x + x;
                                assert(row[k] == (GridPosition { x, y, b_x, b_y }, rgb));
                                assert(pix0 + row.take(k + 1) =~= (pix0 + row.take(k)).push(
                                    row[k],
                                ));
                            }
                            pixels.push((GridPosition { x, y, b_x, b_y }, rgb));
                            x = x + 1;
                        }
                        b_x = b_x + 1;
                    }
                    proof {
                        assert(row.take(256) =~= row);
                    }
                }
                if y == 7 {
                    y = 0;
                    b_y = b_y + 1;
                } else {
                    y = y + 1;
                }
            }
            proof {
                reveal_with_fuel(spec_frame_from, 1);
                let s_next = FrameState {
                    m: self@,
                    y,
                    b_y,
                    total: total as int,
                    pixels: pixels@,
                };
                assert(spec_frame_from(s_cur) == spec_frame_from(s_next));
            }
        }
        proof {
            reveal_with_fuel(spec_frame_from, 1);
            assert(8 * b_y + y > 240);
            assert(target == (
                FrameState { m: self@, y, b_y, total: total as int, pixels: pixels@ },
                true,
            ));
        }
        let ghost vb: u8 = self@.ram[0x2002];
        self.clear_v_blank();
        proof {
            lemma_mask_7f_clears_bit7(vb);
        }
        Some(pixels)
    }
}

} // verus!
