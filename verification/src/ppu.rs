use vstd::prelude::*;

verus! {

/// Picture processor state: 16 KiB of video RAM, 256 B of object-attribute
/// RAM, the nametable mirror mode, the `0x2006` address latch, the `0x2005`
/// scroll latch, and the dot counter for the current scanline.
pub struct Ppu {
    pub ram: [u8; 0x4000],
    pub s_ram: [u8; 0x100],
    pub mirror: bool,
    pub ptr: u16,
    pub ppudata_buf: u8,
    pub scroll: [u8; 2],
    pub scroll_flag: bool,
    pub raster: u16,
    pub cycle: usize,
}

/// Mathematical model of the picture processor state.
#[verifier::ext_equal]
pub struct PpuV {
    pub ram: Seq<u8>,
    pub s_ram: Seq<u8>,
    pub mirror: bool,
    pub ptr: u16,
    pub ppudata_buf: u8,
    pub scroll0: u8,
    pub scroll1: u8,
    pub scroll_flag: bool,
    pub raster: u16,
    pub cycle: usize,
}

impl View for Ppu {
    type V = PpuV;

    open spec fn view(&self) -> PpuV {
        PpuV {
            ram: self.ram@,
            s_ram: self.s_ram@,
            mirror: self.mirror,
            ptr: self.ptr,
            ppudata_buf: self.ppudata_buf,
            scroll0: self.scroll@[0],
            scroll1: self.scroll@[1],
            scroll_flag: self.scroll_flag,
            raster: self.raster,
            cycle: self.cycle,
        }
    }
}

impl Default for Ppu {
    /// Power-on picture processor state: zeroed memories, horizontal
    /// mirroring, address latch and scroll latch cleared.
    fn default() -> (r: Ppu)
        ensures
            r@.ram == Seq::new(0x4000, |i: int| 0u8),
            r@.s_ram == Seq::new(0x100, |i: int| 0u8),
            r@.mirror == false,
            r@.ptr == 0u16,
            r@.ppudata_buf == 0u8,
            r@.scroll0 == 0u8,
            r@.scroll1 == 0u8,
            r@.scroll_flag == false,
            r@.raster == 0u16,
            r@.cycle == 0usize,
    {
        let r = Ppu {
            ram: [0u8; 0x4000],
            s_ram: [0u8; 0x100],
            mirror: false,
            ptr: 0,
            ppudata_buf: 0,
            scroll: [0u8; 2],
            scroll_flag: false,
            raster: 0,
            cycle: 0,
        };
        proof {
            assert(r.ram@ =~= Seq::new(0x4000, |i: int| 0u8));
            assert(r.s_ram@ =~= Seq::new(0x100, |i: int| 0u8));
        }
        r
    }
}


/// The fixed 64-entry system palette: the RGB triple displayed for a
/// 6-bit color value.
pub open spec fn spec_system_palette(i: u8) -> (u8, u8, u8) {
    if i == 0 {
        (0x80, 0x80, 0x80)
    } else if i == 1 {
        (0x00, 0x3d, 0xa6)
    } else if i == 2 {
        (0x00, 0x12, 0xb0)
    } else if i == 3 {
        (0x44, 0x00, 0x96)
    } else if i == 4 {
        (0xa1, 0x00, 0x5e)
    } else if i == 5 {
        (0xc7, 0x00, 0x28)
    } else if i == 6 {
        (0xba, 0x06, 0x00)
    } else if i == 7 {
        (0x8c, 0x17, 0x00)
    } else if i == 8 {
        (0x5c, 0x2f, 0x00)
    } else if i == 9 {
        (0x10, 0x45, 0x00)
    } else if i == 10 {
        (0x05, 0x4a, 0x00)
    } else if i == 11 {
        (0x00, 0x47, 0x2e)
    } else if i == 12 {
        (0x00, 0x41, 0x66)
    } else if i == 13 {
        (0x00, 0x00, 0x00)
    } else if i == 14 {
        (0x05, 0x05, 0x05)
    } else if i == 15 {
        (0x05, 0x05, 0x05)
    } else if i == 16 {
        (0xc7, 0xc7, 0xc7)
    } else if i == 17 {
        (0x00, 0x77, 0xff)
    } else if i == 18 {
        (0x21, 0x55, 0xff)
    } else if i == 19 {
        (0x82, 0x37, 0xfa)
    } else if i == 20 {
        (0xeb, 0x2f, 0xb5)
    } else if i == 21 {
        (0xff, 0x29, 0x50)
    } else if i == 22 {
        (0xff, 0x22, 0x00)
    } else if i == 23 {
        (0xd6, 0x32, 0x00)
    } else if i == 24 {
        (0xc4, 0x62, 0x00)
    } else if i == 25 {
        (0x35, 0x80, 0x00)
    } else if i == 26 {
        (0x05, 0x8f, 0x00)
    } else if i == 27 {
        (0x00, 0x8a, 0x55)
    } else if i == 28 {
        (0x00, 0x99, 0xcc)
    } else if i == 29 {
        (0x21, 0x21, 0x21)
    } else if i == 30 {
        (0x09, 0x09, 0x09)
    } else if i == 31 {
        (0x09, 0x09, 0x09)
    } else if i == 32 {
        (0xff, 0xff, 0xff)
    } else if i == 33 {
        (0x0f, 0xd7, 0xff)
    } else if i == 34 {
        (0x69, 0xa2, 0xff)
    } else if i == 35 {
        (0xd4, 0x80, 0xff)
    } else if i == 36 {
        (0xff, 0x45, 0xf3)
    } else if i == 37 {
        (0xff, 0x61, 0x8b)
    } else if i == 38 {
        (0xff, 0x88, 0x33)
    } else if i == 39 {
        (0xff, 0x9c, 0x12)
    } else if i == 40 {
        (0xfa, 0xbc, 0x20)
    } else if i == 41 {
        (0x9f, 0xe3, 0x0e)
    } else if i == 42 {
        (0x2b, 0xf0, 0x35)
    } else if i == 43 {
        (0x0c, 0xf0, 0xa4)
    } else if i == 44 {
        (0x05, 0xfb, 0xff)
    } else if i == 45 {
        (0x5e, 0x5e, 0x5e)
    } else if i == 46 {
        (0x0d, 0x0d, 0x0d)
    } else if i == 47 {
        (0x0d, 0x0d, 0x0d)
    } else if i == 48 {
        (0xff, 0xff, 0xff)
    } else if i == 49 {
        (0xa6, 0xfc, 0xff)
    } else if i == 50 {
        (0xb3, 0xec, 0xff)
    } else if i == 51 {
        (0xda, 0xab, 0xeb)
    } else if i == 52 {
        (0xff, 0xa8, 0xf9)
    } else if i == 53 {
        (0xff, 0xab, 0xb3)
    } else if i == 54 {
        (0xff, 0xd2, 0xb0)
    } else if i == 55 {
        (0xff, 0xef, 0xa6)
    } else if i == 56 {
        (0xff, 0xf7, 0x9c)
    } else if i == 57 {
        (0xd7, 0xe8, 0x95)
    } else if i == 58 {
        (0xa6, 0xed, 0xaf)
    } else if i == 59 {
        (0xa2, 0xf2, 0xda)
    } else if i == 60 {
        (0x99, 0xff, 0xfc)
    } else if i == 61 {
        (0xdd, 0xdd, 0xdd)
    } else if i == 62 {
        (0x11, 0x11, 0x11)
    } else {
        (0x11, 0x11, 0x11)
    }
}

/// Which 2-bit palette number an attribute byte assigns to the quadrant of
/// the block coordinate: bits 0-1 for the top-left 2-by-2 quadrant, 2-3 for
/// the top-right, 4-5 for the bottom-left, 6-7 for the bottom-right.
pub open spec fn spec_palette_number(attr: u8, b_x: u16, b_y: u16) -> u8 {
    if b_x % 4 < 2 && b_y % 4 < 2 {
        attr & 0x03
    } else if b_x % 4 >= 2 && b_y % 4 < 2 {
        (attr & 0x0c) >> 2
    } else if b_x % 4 < 2 {
        (attr & 0x30) >> 4
    } else {
        (attr & 0xc0) >> 6
    }
}

/// The color index a background pixel selects into the palette RAM: the
/// tile index comes from the nametable, the palette number from the
/// attribute table, and the two low bits from the tile's pattern planes.
pub open spec fn spec_pixel_color(vram: Seq<u8>, x: u16, y: u16, b_x: u16, b_y: u16) -> u8 {
    let tile = vram[0x2000 + b_x + b_y * 0x20];
    let attr = vram[0x23c0 + b_x / 4 + (b_y / 4) * 0x08];
    let pal = spec_palette_number(attr, b_x, b_y);
    let low = vram[tile * 16 + y];
    let high = vram[tile * 16 + y + 8];
    let c0 = (low >> ((7 - x) as u8)) & 1;
    let c1 = ((high >> ((7 - x) as u8)) & 1) << 1;
    (pal * 4 + c0 + c1) as u8
}

/// The RGB triple a background pixel displays: the palette RAM entry the
/// color index selects, taken to the system palette. Palette bytes are
/// masked to the 64 palette entries.
pub open spec fn spec_pixel(vram: Seq<u8>, x: u16, y: u16, b_x: u16, b_y: u16) -> (u8, u8, u8) {
    spec_system_palette(vram[0x3f00 + spec_pixel_color(vram, x, y, b_x, b_y)] & 0x3f)
}

/// The pieces of a pixel computation stay inside their ranges.
proof fn lemma_pixel_bits(attr: u8, low: u8, high: u8, sh: u8, v: u8)
    by (bit_vector)
    ensures
        attr & 0x03 < 4,
        (attr & 0x0c) >> 2 < 4,
        (attr & 0x30) >> 4 < 4,
        (attr & 0xc0) >> 6 < 4,
        (low >> sh) & 1 < 2,
        ((high >> sh) & 1) << 1 < 3,
        v & 0x3f < 64,
{
}

/// The RGB triple displayed for a 6-bit color value.
pub fn system_palette(i: u8) -> (rgb: (u8, u8, u8))
    ensures
        rgb == spec_system_palette(i),
{
    match i {
        0 => (0x80, 0x80, 0x80),
        1 => (0x00, 0x3d, 0xa6),
        2 => (0x00, 0x12, 0xb0),
        3 => (0x44, 0x00, 0x96),
        4 => (0xa1, 0x00, 0x5e),
        5 => (0xc7, 0x00, 0x28),
        6 => (0xba, 0x06, 0x00),
        7 => (0x8c, 0x17, 0x00),
        8 => (0x5c, 0x2f, 0x00),
        9 => (0x10, 0x45, 0x00),
        10 => (0x05, 0x4a, 0x00),
        11 => (0x00, 0x47, 0x2e),
        12 => (0x00, 0x41, 0x66),
        13 => (0x00, 0x00, 0x00),
        14 => (0x05, 0x05, 0x05),
        15 => (0x05, 0x05, 0x05),
        16 => (0xc7, 0xc7, 0xc7),
        17 => (0x00, 0x77, 0xff),
        18 => (0x21, 0x55, 0xff),
        19 => (0x82, 0x37, 0xfa),
        20 => (0xeb, 0x2f, 0xb5),
        21 => (0xff, 0x29, 0x50),
        22 => (0xff, 0x22, 0x00),
        23 => (0xd6, 0x32, 0x00),
        24 => (0xc4, 0x62, 0x00),
        25 => (0x35, 0x80, 0x00),
        26 => (0x05, 0x8f, 0x00),
        27 => (0x00, 0x8a, 0x55),
        28 => (0x00, 0x99, 0xcc),
        29 => (0x21, 0x21, 0x21),
        30 => (0x09, 0x09, 0x09),
        31 => (0x09, 0x09, 0x09),
        32 => (0xff, 0xff, 0xff),
        33 => (0x0f, 0xd7, 0xff),
        34 => (0x69, 0xa2, 0xff),
        35 => (0xd4, 0x80, 0xff),
        36 => (0xff, 0x45, 0xf3),
        37 => (0xff, 0x61, 0x8b),
        38 => (0xff, 0x88, 0x33),
        39 => (0xff, 0x9c, 0x12),
        40 => (0xfa, 0xbc, 0x20),
        41 => (0x9f, 0xe3, 0x0e),
        42 => (0x2b, 0xf0, 0x35),
        43 => (0x0c, 0xf0, 0xa4),
        44 => (0x05, 0xfb, 0xff),
        45 => (0x5e, 0x5e, 0x5e),
        46 => (0x0d, 0x0d, 0x0d),
        47 => (0x0d, 0x0d, 0x0d),
        48 => (0xff, 0xff, 0xff),
        49 => (0xa6, 0xfc, 0xff),
        50 => (0xb3, 0xec, 0xff),
        51 => (0xda, 0xab, 0xeb),
        52 => (0xff, 0xa8, 0xf9),
        53 => (0xff, 0xab, 0xb3),
        54 => (0xff, 0xd2, 0xb0),
        55 => (0xff, 0xef, 0xa6),
        56 => (0xff, 0xf7, 0x9c),
        57 => (0xd7, 0xe8, 0x95),
        58 => (0xa6, 0xed, 0xaf),
        59 => (0xa2, 0xf2, 0xda),
        60 => (0x99, 0xff, 0xfc),
        61 => (0xdd, 0xdd, 0xdd),
        62 => (0x11, 0x11, 0x11),
        _ => (0x11, 0x11, 0x11),
    }
}

impl Ppu {
    /// Synthesize one background pixel: `(b_x, b_y)` picks the tile in the
    /// 32-by-30 nametable grid, `(x, y)` the pixel inside the 8-by-8 tile.
    pub fn step(&self, x: u16, y: u16, b_x: u16, b_y: u16) -> (rgb: (u8, u8, u8))
        requires
            x < 8,
            y < 8,
            b_x < 32,
            b_y < 30,
        ensures
            rgb == spec_pixel(self@.ram, x, y, b_x, b_y),
    {
        let tile = self.ram[(0x2000 + b_x + b_y * 0x20) as usize];
        let attr = self.ram[(0x23c0 + b_x / 4 + (b_y / 4) * 0x08) as usize];
        let pal: u8 = if b_x % 4 < 2 && b_y % 4 < 2 {
            attr & 0x03
        } else if b_x % 4 >= 2 && b_y % 4 < 2 {
            (attr & 0x0c) >> 2
        } else if b_x % 4 < 2 {
            (attr & 0x30) >> 4
        } else {
            (attr & 0xc0) >> 6
        };
        let low = self.ram[(tile as usize) * 16 + (y as usize)];
        let high = self.ram[(tile as usize) * 16 + (y as usize) + 8];
        let sh: u8 = (7 - x) as u8;
        let c0: u8 = (low >> sh) & 1;
        let c1: u8 = ((high >> sh) & 1) << 1;
        proof {
            lemma_pixel_bits(attr, low, high, sh, 0);
        }
        let p: u8 = pal * 4 + c0 + c1;
        let entry = self.ram[(0x3f00 + p as u16) as usize];
        proof {
            lemma_pixel_bits(attr, low, high, sh, entry);
        }
        system_palette(entry & 0x3f)
    }
}

} // verus!
