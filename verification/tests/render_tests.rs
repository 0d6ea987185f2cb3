use nes_core::instructions::lookup;
use nes_core::ppu::Mirroring;
use nes_core::ppu::Ppu;
use nes_core::render::Frame;
use nes_core::render::bg_palette;
use nes_core::render::render;
use nes_core::render::sprite_palette;
use nes_core::render::system_palette;
use nes_core::tile::show_tile;

fn ppu_with_chr(chr: Vec<u8>) -> Ppu {
    Ppu::new(chr, Mirroring::Horizontal)
}

#[test]
fn test_system_palette_entries() {
    assert_eq!(system_palette(0), (0x80, 0x80, 0x80));
    assert_eq!(system_palette(1), (0x00, 0x3d, 0xa6));
    assert_eq!(system_palette(0x30), (0xff, 0xff, 0xff));
    // Indices fold into the 64-entry table.
    assert_eq!(system_palette(64), system_palette(0));
}

#[test]
fn test_bg_palette_selection() {
    // Quadrant selection within an attribute byte: tile (2, 0) is the
    // top-right sub-block of attribute cell 0, bits 2-3.
    let mut ppu = ppu_with_chr(vec![0; 0x2000]);
    ppu.vram[0x3c0] = 0b0000_0100;  // sub-palette 1 for the top-right block
    ppu.palette_table[0] = 9;
    ppu.palette_table[5] = 11;
    ppu.palette_table[6] = 12;
    ppu.palette_table[7] = 13;
    let pal = bg_palette(&ppu, 2, 0);
    assert_eq!(pal, [9, 11, 12, 13]);
}

#[test]
fn test_sprite_palette_entries() {
    let mut ppu = ppu_with_chr(vec![0; 0x2000]);
    ppu.palette_table[0x15] = 21;
    ppu.palette_table[0x16] = 22;
    ppu.palette_table[0x17] = 23;
    let pal = sprite_palette(&ppu, 1);
    assert_eq!(pal, [0, 21, 22, 23]);
}

#[test]
fn test_render_background_pixel() {
    // Tile 1 with its first pattern row all set in the high plane gives
    // pixel value 2 across the row; the selected sub-palette entry 2
    // maps it through the master colour table.
    let mut chr = vec![0u8; 0x2000];
    chr[16 + 8] = 0xff;  // tile 1, row 0, second plane
    let mut ppu = ppu_with_chr(chr);
    ppu.vram[0] = 1;  // top-left tile shows tile 1
    ppu.palette_table[0] = 0;
    ppu.palette_table[2] = 1;  // sub-palette 0, entry 2
    let mut frame = Frame::new();
    render(&ppu, &mut frame);
    // Pixel (0, 0) has value 2: colour index 1.
    let expected = system_palette(1);
    assert_eq!(frame.data[0], expected.0);
    assert_eq!(frame.data[1], expected.1);
    assert_eq!(frame.data[2], expected.2);
    // Pixel (0, 1) is in row 1 of the tile: value 0, the backdrop.
    let backdrop = system_palette(0);
    assert_eq!(frame.data[256 * 3], backdrop.0);
}

#[test]
fn test_render_sprite_overlays_background() {
    // A sprite showing tile 2 at the origin covers the backdrop; its
    // transparent pixels leave the background visible.
    let mut chr = vec![0u8; 0x2000];
    chr[32] = 0b1000_0000;  // tile 2, row 0, first plane: leftmost pixel value 1
    let mut ppu = ppu_with_chr(chr);
    ppu.palette_table[0x11] = 5;  // sprite sub-palette 0, entry 1
    ppu.oam_data[0] = 0;  // y
    ppu.oam_data[1] = 2;  // tile
    ppu.oam_data[2] = 0;  // attributes
    ppu.oam_data[3] = 0;  // x
    let mut frame = Frame::new();
    render(&ppu, &mut frame);
    let sprite_color = system_palette(5);
    let backdrop = system_palette(0);
    assert_eq!(frame.data[0], sprite_color.0);
    assert_eq!(frame.data[1], sprite_color.1);
    assert_eq!(frame.data[2], sprite_color.2);
    // The pixel to the right is transparent in the sprite.
    assert_eq!(frame.data[3], backdrop.0);
}

#[test]
fn test_render_sprite_horizontal_flip() {
    let mut chr = vec![0u8; 0x2000];
    chr[32] = 0b1000_0000;  // leftmost pixel value 1, unflipped
    let mut ppu = ppu_with_chr(chr);
    ppu.palette_table[0x11] = 5;
    ppu.oam_data[1] = 2;
    ppu.oam_data[2] = 0b0100_0000;  // horizontal flip
    let mut frame = Frame::new();
    render(&ppu, &mut frame);
    let sprite_color = system_palette(5);
    let backdrop = system_palette(0);
    assert_eq!(frame.data[0], backdrop.0);
    // The set pixel lands at x = 7.
    assert_eq!(frame.data[7 * 3], sprite_color.0);
}

#[test]
fn test_show_tile_draws_the_corner() {
    let mut chr = vec![0u8; 0x2000];
    chr[0] = 0b1000_0000;  // tile 0, row 0, first plane: pixel value 1
    let frame = show_tile(&chr, 0, 0);
    let lit = system_palette(0x23);
    let unlit = system_palette(0x01);
    assert_eq!(frame.data[0], lit.0);
    assert_eq!(frame.data[1], lit.1);
    assert_eq!(frame.data[2], lit.2);
    assert_eq!(frame.data[3], unlit.0);
    // Outside the tile the frame is black.
    assert_eq!(frame.data[(8 * 256) * 3 + 8 * 3], 0);
}

#[test]
fn test_instruction_table_rows() {
    let lda = lookup(0xa9);
    assert_eq!(lda.opcode, 0xa9);
    assert_eq!(lda.mnemonic, "LDA");
    assert_eq!(lda.len, 2);
    assert_eq!(lda.cycles, 2);
    let jsr = lookup(0x20);
    assert_eq!(jsr.mnemonic, "JSR");
    assert_eq!(jsr.len, 3);
    assert_eq!(jsr.cycles, 6);
    let dcp = lookup(0xc3);
    assert_eq!(dcp.mnemonic, "DCP");
    assert_eq!(dcp.len, 2);
}
