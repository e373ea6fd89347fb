use rusen::nes::Nes;
use rusen::ppu::system_palette;
use rusen::render::GridPosition;

fn machine() -> Nes {
    Nes::default()
}

/// Write a byte through the memory-mapped store path, as STA does.
fn store(nes: &mut Nes, addr: u16, value: u8) {
    nes.cpu.a = value;
    nes.sta(addr);
}

#[test]
fn test_ppuaddr_round_trip() {
    // Writing H then L to 0x2006 leaves ptr == (H << 8) | L.
    let mut nes = machine();
    store(&mut nes, 0x2006, 0x7f);
    store(&mut nes, 0x2006, 0x23);
    assert_eq!(nes.ppu.ptr, 0x7f23);
    // A second pair shifts the old contents out entirely.
    store(&mut nes, 0x2006, 0x12);
    store(&mut nes, 0x2006, 0x34);
    assert_eq!(nes.ppu.ptr, 0x1234);
}

#[test]
fn test_palette_mirror_forward() {
    // 0x2006 <- 0x3F, 0x2006 <- 0x00, 0x2007 <- 0x2A; VRAM 0x3F10
    // reads 0x2A.
    let mut nes = machine();
    store(&mut nes, 0x2006, 0x3f);
    store(&mut nes, 0x2006, 0x00);
    store(&mut nes, 0x2007, 0x2a);
    assert_eq!(nes.ppu.ram[0x3f10], 0x2a);
    assert_eq!(nes.ppu.ram[0x3f00], 0x2a);
}

#[test]
fn test_palette_mirror_backward() {
    // The other direction: a write to 0x3F14 also lands at 0x3F04.
    let mut nes = machine();
    store(&mut nes, 0x2006, 0x3f);
    store(&mut nes, 0x2006, 0x14);
    store(&mut nes, 0x2007, 0x66);
    assert_eq!(nes.ppu.ram[0x3f04], 0x66);
    assert_eq!(nes.ppu.ram[0x3f14], 0x66);
}

#[test]
fn test_vram_write_advances_pointer_by_one() {
    let mut nes = machine();
    store(&mut nes, 0x2006, 0x21);
    store(&mut nes, 0x2006, 0x08);
    store(&mut nes, 0x2007, 0x11);
    store(&mut nes, 0x2007, 0x22);
    assert_eq!(nes.ppu.ram[0x2108], 0x11);
    assert_eq!(nes.ppu.ram[0x2109], 0x22);
    assert_eq!(nes.ppu.ptr, 0x210a);
}

#[test]
fn test_vram_auto_increment_of_32() {
    // PPUCTRL bit 2 selects the auto-increment of 32.
    let mut nes = machine();
    store(&mut nes, 0x2000, 0x04);
    store(&mut nes, 0x2006, 0x21);
    store(&mut nes, 0x2006, 0x00);
    store(&mut nes, 0x2007, 0x55);
    assert_eq!(nes.ppu.ram[0x2100], 0x55);
    assert_eq!(nes.ppu.ptr, 0x2120);
}

#[test]
fn test_vram_pointer_wraps_modulo_vram_size() {
    // A pointer beyond 0x4000 reads and writes modulo 0x4000.
    let mut nes = machine();
    store(&mut nes, 0x2006, 0x52);
    store(&mut nes, 0x2006, 0x34);
    store(&mut nes, 0x2007, 0x99);
    assert_eq!(nes.ppu.ram[0x1234], 0x99);
}

#[test]
fn test_nametable_mirror_horizontal() {
    // Without vertical mirroring a nametable write echoes 0x400 higher.
    let mut nes = machine();
    assert!(!nes.ppu.mirror);
    store(&mut nes, 0x2006, 0x20);
    store(&mut nes, 0x2006, 0x05);
    store(&mut nes, 0x2007, 0x42);
    assert_eq!(nes.ppu.ram[0x2005], 0x42);
    assert_eq!(nes.ppu.ram[0x2405], 0x42);
}

#[test]
fn test_nametable_mirror_vertical() {
    // With vertical mirroring a nametable write echoes 0x800 higher.
    let mut nes = machine();
    nes.ppu.mirror = true;
    store(&mut nes, 0x2006, 0x20);
    store(&mut nes, 0x2006, 0x05);
    store(&mut nes, 0x2007, 0x42);
    assert_eq!(nes.ppu.ram[0x2005], 0x42);
    assert_eq!(nes.ppu.ram[0x2805], 0x42);
}

#[test]
fn test_ppudata_read_through_load() {
    // A load from 0x2007 reads VRAM at the pointer and advances it.
    let mut nes = machine();
    nes.ppu.ram[0x2100] = 0x77;
    nes.ppu.ram[0x2101] = 0x88;
    store(&mut nes, 0x2006, 0x21);
    store(&mut nes, 0x2006, 0x00);
    nes.cpu.pc = 0x8000;
    nes.set_memory8(0x8000, 0xad); // LDA absolute
    nes.set_memory8(0x8001, 0x07);
    nes.set_memory8(0x8002, 0x20);
    nes.step();
    assert_eq!(nes.cpu.a, 0x77);
    assert_eq!(nes.ppu.ptr, 0x2101);
    nes.cpu.pc = 0x8000;
    nes.step();
    assert_eq!(nes.cpu.a, 0x88);
}

#[test]
fn test_oam_write_increments_oam_address() {
    let mut nes = machine();
    nes.set_memory8(0x2003, 0x10);
    store(&mut nes, 0x2004, 0xaa);
    assert_eq!(nes.ppu.s_ram[0x10], 0xaa);
    assert_eq!(nes.fetch_memory8(0x2003), 0x11);
    store(&mut nes, 0x2004, 0xbb);
    assert_eq!(nes.ppu.s_ram[0x11], 0xbb);
}

#[test]
fn test_sprite_dma_copies_a_page() {
    let mut nes = machine();
    let mut i: u16 = 0;
    while i < 256 {
        nes.set_memory8(0x0300 + i, i as u8);
        i += 1;
    }
    store(&mut nes, 0x4014, 0x03);
    assert_eq!(nes.ppu.s_ram[0], 0);
    assert_eq!(nes.ppu.s_ram[0x7f], 0x7f);
    assert_eq!(nes.ppu.s_ram[0xff], 0xff);
}

#[test]
fn test_scroll_latch_toggles() {
    // First write X-scroll, second Y-scroll, and the toggle alternates so
    // a third write lands in X-scroll again.
    let mut nes = machine();
    store(&mut nes, 0x2005, 0x21);
    assert_eq!(nes.ppu.scroll[0], 0x21);
    assert!(nes.ppu.scroll_flag);
    store(&mut nes, 0x2005, 0x43);
    assert_eq!(nes.ppu.scroll[1], 0x43);
    assert_eq!(nes.ppu.scroll[0], 0x21);
    assert!(!nes.ppu.scroll_flag);
    store(&mut nes, 0x2005, 0x65);
    assert_eq!(nes.ppu.scroll[0], 0x65);
    assert_eq!(nes.ppu.scroll[1], 0x43);
    assert!(nes.ppu.scroll_flag);
}

#[test]
fn test_background_pixel() {
    // Tile 1 from the nametable, attribute selecting palette 1, the
    // pattern's low plane contributing color bit 0.
    let mut nes = machine();
    nes.ppu.ram[0x2000] = 0x01;
    nes.ppu.ram[0x23c0] = 0b0000_0001;
    nes.ppu.ram[0x10] = 0x80;
    nes.ppu.ram[0x18] = 0x00;
    nes.ppu.ram[0x3f04] = 0x06;
    let rgb = nes.ppu.step(0, 0, 0, 0);
    // Palette 1, color index 1: the palette byte is VRAM[0x3F05], which is
    // still 0, so the pixel shows system palette entry 0.
    assert_eq!(rgb, system_palette(nes.ppu.ram[0x3f05]));
    assert_eq!(rgb, (0x80, 0x80, 0x80));
    // Filling 0x3F05 changes the same pixel.
    nes.ppu.ram[0x3f05] = 0x21;
    assert_eq!(nes.ppu.step(0, 0, 0, 0), (0x0f, 0xd7, 0xff));
}

#[test]
fn test_pixel_pattern_planes_combine() {
    // Both planes set at bit 6: color index 3 inside palette 0.
    let mut nes = machine();
    nes.ppu.ram[0x2000] = 0x02;
    nes.ppu.ram[0x20] = 0x40; // tile 2, low plane, row 0
    nes.ppu.ram[0x28] = 0x40; // tile 2, high plane, row 0
    nes.ppu.ram[0x3f03] = 0x16;
    let rgb = nes.ppu.step(1, 0, 0, 0);
    assert_eq!(rgb, system_palette(0x16));
}

#[test]
fn test_attribute_quadrants_select_palettes() {
    // One attribute byte, four quadrants: 0b11100100 assigns palette 0, 1,
    // 2, 3 to the four 2-by-2 quadrants of the 4-by-4 block.
    let mut nes = machine();
    nes.ppu.ram[0x23c0] = 0b1110_0100;
    nes.ppu.ram[0x3f00] = 0x01;
    nes.ppu.ram[0x3f04] = 0x02;
    nes.ppu.ram[0x3f08] = 0x03;
    nes.ppu.ram[0x3f0c] = 0x04;
    // Tile 0 with empty patterns: color index 0 in each palette.
    assert_eq!(nes.ppu.step(0, 0, 0, 0), system_palette(0x01));
    assert_eq!(nes.ppu.step(0, 0, 2, 0), system_palette(0x02));
    assert_eq!(nes.ppu.step(0, 0, 0, 2), system_palette(0x03));
    assert_eq!(nes.ppu.step(0, 0, 2, 2), system_palette(0x04));
}

#[test]
fn test_system_palette_values() {
    assert_eq!(system_palette(0), (0x80, 0x80, 0x80));
    assert_eq!(system_palette(1), (0x00, 0x3d, 0xa6));
    assert_eq!(system_palette(0x20), (0xff, 0xff, 0xff));
    assert_eq!(system_palette(0x3f), (0x11, 0x11, 0x11));
}

#[test]
fn test_grid_position_screen_coordinates() {
    let pos = GridPosition { x: 3, y: 5, b_x: 10, b_y: 20 };
    assert_eq!(pos.screen_x(), 83);
    assert_eq!(pos.screen_y(), 165);
}

#[test]
fn test_render_frame_emits_full_picture() {
    // A zeroed machine executes BRK with interrupts disabled forever; the
    // frame still crosses its 260 scanlines and emits 240 visible rows of
    // 256 pixels.
    let mut nes = machine();
    let pixels = nes.render_frame().unwrap();
    assert_eq!(pixels.len(), 240 * 256);
    // Vertical blank is cleared at the end of the frame.
    assert_eq!(nes.fetch_memory8(0x2002) & 0x80, 0);
    // The first emitted pixel is the top-left corner showing the universal
    // background color.
    let (pos, rgb) = pixels[0];
    assert_eq!((pos.b_x, pos.b_y, pos.x, pos.y), (0, 0, 0, 0));
    assert_eq!(rgb, (0x80, 0x80, 0x80));
}

#[test]
fn test_render_frame_row_major_order() {
    // Pixels come out row by row, 256 per scanline, left to right.
    let mut nes = machine();
    let pixels = nes.render_frame().unwrap();
    let (p9, _) = pixels[9]; // second tile of the top row
    assert_eq!((p9.b_x, p9.b_y, p9.x, p9.y), (1, 0, 1, 0));
    let (p2048, _) = pixels[2048]; // first pixel of the second tile row
    assert_eq!((p2048.b_x, p2048.b_y, p2048.x, p2048.y), (0, 1, 0, 0));
    let (p256, _) = pixels[256]; // first pixel of the second scanline
    assert_eq!((p256.b_x, p256.b_y, p256.x, p256.y), (0, 0, 0, 1));
    let (last, _) = pixels[61439]; // bottom-right corner
    assert_eq!((last.b_x, last.b_y, last.x, last.y), (31, 29, 7, 7));
}

#[test]
fn test_render_frame_shows_cpu_palette_write() {
    // The CPU writes the universal background color through 0x2006/0x2007
    // during the frame's first scanline, then spins; every visible row is
    // synthesized after the write and shows the new color.
    let mut nes = machine();
    let program: [u8; 18] = [
        0xa9, 0x3f, // LDA #$3F
        0x8d, 0x06, 0x20, // STA $2006
        0xa9, 0x00, // LDA #$00
        0x8d, 0x06, 0x20, // STA $2006
        0xa9, 0x21, // LDA #$21
        0x8d, 0x07, 0x20, // STA $2007
        0x4c, 0x0f, 0x80, // JMP $800F
    ];
    let mut addr: u16 = 0x8000;
    for b in program.iter() {
        nes.set_memory8(addr, *b);
        addr += 1;
    }
    nes.cpu.pc = 0x8000;
    let pixels = nes.render_frame().unwrap();
    assert_eq!(nes.ppu.ram[0x3f00], 0x21);
    assert_eq!(nes.ppu.ram[0x3f10], 0x21);
    assert_eq!(pixels[0].1, system_palette(0x21));
    assert_eq!(pixels[61439].1, system_palette(0x21));
}

#[test]
fn test_render_frame_reports_unknown_opcode() {
    let mut nes = machine();
    nes.set_memory8(0x0000, 0x02);
    assert_eq!(nes.render_frame(), None);
}
