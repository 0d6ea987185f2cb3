//! The renderer: composes the background tiles and the sprite overlay
//! into a 256 by 240 red-green-blue byte buffer, once per frame.

use vstd::prelude::*;

use crate::ppu::CTRL_BACKGROUND_PATTERN_ADDR;
use crate::ppu::CTRL_SPRITE_PATTERN_ADDR;
use crate::ppu::Ppu;

verus! {

pub const FRAME_WIDTH: usize = 256;
pub const FRAME_HEIGHT: usize = 240;

/// A 256 by 240 image, three bytes per pixel, rows top to bottom.
pub struct Frame {
    pub data: Vec<u8>,
}

impl Frame {
    pub open spec fn wf(&self) -> bool {
        self.data@.len() == 256 * 240 * 3
    }

    pub fn new() -> (r: Frame)
        ensures
            r.wf(),
            r.data@ == Seq::new((256 * 240 * 3) as nat, |i: int| 0u8),
    {
        let data: Vec<u8> = vec![0; 256 * 240 * 3];
        proof {
            assert(data@ =~= Seq::new((256 * 240 * 3) as nat, |i: int| 0u8));
        }
        Frame { data }
    }

    /// Write one pixel; coordinates beyond the frame edge are ignored.
    pub fn set_pixel(&mut self, x: usize, y: usize, rgb: (u8, u8, u8))
        requires
            old(self).wf(),
        ensures
            final(self).wf(),
            final(self).data@ == (if x < 256 && y < 240 {
                old(self).data@.update((y * 256 + x) * 3, rgb.0).update(
                    (y * 256 + x) * 3 + 1,
                    rgb.1,
                ).update((y * 256 + x) * 3 + 2, rgb.2)
            } else {
                old(self).data@
            }),
    {
        if x < 256 && y < 240 {
            let base = (y * 256 + x) * 3;
            self.data[base] = rgb.0;
            self.data[base + 1] = rgb.1;
            self.data[base + 2] = rgb.2;
        }
    }
}

/// The two-bit pattern value of column `col` in row `row` of the tile at
/// `base`: the high bit from the second plane, the low bit from the
/// first.
pub open spec fn pattern_val_spec(chr: Seq<u8>, base: int, col: u8, row: u8) -> u8 {
    (((chr[base + row + 8] >> ((7 - col) as u8)) & 1) * 2 + ((chr[base + row] >> ((7 - col) as u8))
        & 1)) as u8
}

/// The four colour indices of the background sub-palette selected by the
/// attribute table for the tile at the given column and row: the shared
/// backdrop entry, then the sub-palette's three entries.
pub open spec fn bg_palette_spec(p: Ppu, tile_column: int, tile_row: int) -> Seq<u8> {
    let attr_byte = p.vram@[0x3c0 + tile_row / 4 * 8 + tile_column / 4];
    let palette_idx = if tile_column % 4 / 2 == 0 && tile_row % 4 / 2 == 0 {
        attr_byte & 0b11
    } else if tile_column % 4 / 2 == 1 && tile_row % 4 / 2 == 0 {
        (attr_byte >> 2) & 0b11
    } else if tile_column % 4 / 2 == 0 && tile_row % 4 / 2 == 1 {
        (attr_byte >> 4) & 0b11
    } else {
        (attr_byte >> 6) & 0b11
    };
    let start = 1 + palette_idx * 4;
    seq![
        p.palette_table@[0],
        p.palette_table@[start as int],
        p.palette_table@[start + 1],
        p.palette_table@[start + 2],
    ]
}

/// The four colour indices of a sprite sub-palette; the first entry is
/// transparent.
pub open spec fn sprite_palette_spec(p: Ppu, palette_idx: u8) -> Seq<u8> {
    let start = 0x11 + palette_idx * 4;
    seq![
        0u8,
        p.palette_table@[start as int],
        p.palette_table@[start + 1],
        p.palette_table@[start + 2],
    ]
}

/// The four colour indices the attribute table selects for a background
/// tile.
pub fn bg_palette(ppu: &Ppu, tile_column: usize, tile_row: usize) -> (r: [u8; 4])
    requires
        ppu.wf(),
        tile_column < 32,
        tile_row < 30,
    ensures
        r@ == bg_palette_spec(*ppu, tile_column as int, tile_row as int),
{
    let attr_table_idx = tile_row / 4 * 8 + tile_column / 4;
    let attr_byte = ppu.vram[0x3c0 + attr_table_idx];
    let palette_idx = if tile_column % 4 / 2 == 0 && tile_row % 4 / 2 == 0 {
        attr_byte & 0b11
    } else if tile_column % 4 / 2 == 1 && tile_row % 4 / 2 == 0 {
        (attr_byte >> 2) & 0b11
    } else if tile_column % 4 / 2 == 0 && tile_row % 4 / 2 == 1 {
        (attr_byte >> 4) & 0b11
    } else {
        (attr_byte >> 6) & 0b11
    };
    proof {
        assert(attr_byte & 0b11 < 4 && (attr_byte >> 2) & 0b11 < 4 && (attr_byte >> 4) & 0b11 < 4
            && (attr_byte >> 6) & 0b11 < 4) by (bit_vector);
    }
    let palette_start: usize = 1 + (palette_idx as usize) * 4;
    let r = [
        ppu.palette_table[0],
        ppu.palette_table[palette_start],
        ppu.palette_table[palette_start + 1],
        ppu.palette_table[palette_start + 2],
    ];
    proof {
        assert(r@ =~= bg_palette_spec(*ppu, tile_column as int, tile_row as int));
    }
    r
}

/// The four colour indices of a sprite sub-palette.
pub fn sprite_palette(ppu: &Ppu, palette_idx: u8) -> (r: [u8; 4])
    requires
        ppu.wf(),
        palette_idx < 4,
    ensures
        r@ == sprite_palette_spec(*ppu, palette_idx),
{
    let start = 0x11 + (palette_idx * 4) as usize;
    let r = [
        0,
        ppu.palette_table[start],
        ppu.palette_table[start + 1],
        ppu.palette_table[start + 2],
    ];
    proof {
        assert(r@ =~= sprite_palette_spec(*ppu, palette_idx));
    }
    r
}

/// The colour of background pixel `(x, y)`: the tile index comes from the
/// first nametable, its pattern from the bank the control register
/// selects, and the two-bit value picks from the attribute-selected
/// sub-palette, with value zero falling back to the shared backdrop.
pub open spec fn bg_pixel_spec(p: Ppu, x: int, y: int) -> (u8, u8, u8) {
    let tile_column = x / 8;
    let tile_row = y / 8;
    let tile = p.vram@[tile_row * 32 + tile_column];
    let bank: int = if p.ctrl.bits & CTRL_BACKGROUND_PATTERN_ADDR == 0 {
        0
    } else {
        0x1000
    };
    let val = pattern_val_spec(p.chr_rom@, bank + tile * 16, (x % 8) as u8, (y % 8) as u8);
    let pal = bg_palette_spec(p, tile_column, tile_row);
    if val == 0 {
        system_palette_spec(p.palette_table@[0])
    } else {
        system_palette_spec(pal[val as int])
    }
}

/// One channel of the background image, indexed as the frame buffer is.
pub open spec fn bg_channel_spec(p: Ppu, k: int) -> u8 {
    let x = (k / 3) % 256;
    let y = (k / 3) / 256;
    let rgb = bg_pixel_spec(p, x, y);
    if k % 3 == 0 {
        rgb.0
    } else if k % 3 == 1 {
        rgb.1
    } else {
        rgb.2
    }
}

/// The whole background image.
pub open spec fn bg_image_spec(p: Ppu) -> Seq<u8> {
    Seq::new((256 * 240 * 3) as nat, |k: int| bg_channel_spec(p, k))
}

pub open spec fn sprite_attr_spec(p: Ppu, i: int) -> u8 {
    p.oam_data@[i * 4 + 2]
}

/// The two-bit pattern value sprite `i` shows at offset `(dx, dy)` from
/// its corner, after its flip bits are applied.
pub open spec fn sprite_val_spec(p: Ppu, i: int, dx: int, dy: int) -> u8 {
    let attr = sprite_attr_spec(p, i);
    let col = if attr & 0x40 != 0 {
        7 - dx
    } else {
        dx
    };
    let row = if attr & 0x80 != 0 {
        7 - dy
    } else {
        dy
    };
    let tile = p.oam_data@[i * 4 + 1];
    let bank: int = if p.ctrl.bits & CTRL_SPRITE_PATTERN_ADDR == 0 {
        0
    } else {
        0x1000
    };
    pattern_val_spec(p.chr_rom@, bank + tile * 16, col as u8, row as u8)
}

/// The frame after sprite `i` is drawn over `f`: each of its 64 pixels
/// with a non-transparent value lands at the sprite position; pixels past
/// the frame edge are truncated.
pub open spec fn draw_sprite_spec(p: Ppu, f: Seq<u8>, i: int) -> Seq<u8> {
    Seq::new(
        f.len(),
        |k: int|
            {
                let x = (k / 3) % 256;
                let y = (k / 3) / 256;
                let dx = x - p.oam_data@[i * 4 + 3];
                let dy = y - p.oam_data@[i * 4];
                if 0 <= dx < 8 && 0 <= dy < 8 && sprite_val_spec(p, i, dx, dy) != 0 {
                    let rgb = system_palette_spec(
                        sprite_palette_spec(p, sprite_attr_spec(p, i) & 0b11)[sprite_val_spec(
                            p,
                            i,
                            dx,
                            dy,
                        ) as int],
                    );
                    if k % 3 == 0 {
                        rgb.0
                    } else if k % 3 == 1 {
                        rgb.1
                    } else {
                        rgb.2
                    }
                } else {
                    f[k]
                }
            },
    )
}

/// The frame after sprites 63 down to `i` are drawn over `f`, so that
/// sprites earlier in OAM land on top.
pub open spec fn sprites_from_spec(p: Ppu, f: Seq<u8>, i: int) -> Seq<u8>
    decreases 64 - i,
{
    if i >= 64 {
        f
    } else {
        draw_sprite_spec(p, sprites_from_spec(p, f, i + 1), i)
    }
}

/// Which frame indices the background pass has already written, walking
/// tiles in nametable order, rows within a tile, then columns.
pub open spec fn bg_before(k: int, t: int, py: int, dx: int) -> bool {
    let x = (k / 3) % 256;
    let y = (k / 3) / 256;
    let tt = (y / 8) * 32 + (x / 8);
    let r = y % 8;
    let c = x % 8;
    tt < t || (tt == t && (r < py || (r == py && c < dx)))
}

/// The frame holds the background image on the indices written so far and
/// the original bytes elsewhere.
pub open spec fn bg_partial(p: Ppu, f0: Seq<u8>, f: Seq<u8>, t: int, py: int, dx: int) -> bool {
    &&& f.len() == f0.len()
    &&& f0.len() == 256 * 240 * 3
    &&& forall|k: int|
        0 <= k < f.len() ==> f[k] == (if bg_before(k, t, py, dx) {
            bg_channel_spec(p, k)
        } else {
            f0[k]
        })
}

/// Draw the 960 background tiles of the first nametable.
fn render_background(ppu: &Ppu, frame: &mut Frame)
    requires
        ppu.wf(),
        ppu.chr_rom@.len() == 0x2000,
        old(frame).wf(),
    ensures
        final(frame).wf(),
        final(frame).data@ == bg_image_spec(*ppu),
{
    let ghost f0 = frame.data@;
    let bank = ppu.ctrl.bkgnd_pattern_addr() as usize;
    let mut i: usize = 0;
    while i < 960
        invariant
            ppu.wf(),
            ppu.chr_rom@.len() == 0x2000,
            frame.wf(),
            i <= 960,
            bank == (if ppu.ctrl.bits & CTRL_BACKGROUND_PATTERN_ADDR == 0 {
                0int
            } else {
                0x1000int
            }),
            bg_partial(*ppu, f0, frame.data@, i as int, 0, 0),
        decreases 960 - i,
    {
        let tile_column = i % 32;
        let tile_row = i / 32;
        let tile = ppu.vram[i] as usize;
        let pal = bg_palette(ppu, tile_column, tile_row);
        let mut py: usize = 0;
        while py < 8
            invariant
                ppu.wf(),
                ppu.chr_rom@.len() == 0x2000,
                frame.wf(),
                i < 960,
                py <= 8,
                tile_column == i % 32,
                tile_row == i / 32,
                tile == ppu.vram@[i as int],
                pal@ == bg_palette_spec(*ppu, tile_column as int, tile_row as int),
                bank == (if ppu.ctrl.bits & CTRL_BACKGROUND_PATTERN_ADDR == 0 {
                    0int
                } else {
                    0x1000int
                }),
                bg_partial(*ppu, f0, frame.data@, i as int, py as int, 0),
            decreases 8 - py,
        {
            let lo = ppu.chr_rom[bank + tile * 16 + py];
            let hi = ppu.chr_rom[bank + tile * 16 + py + 8];
            let mut dx: usize = 0;
            while dx < 8
                invariant
                    ppu.wf(),
                    ppu.chr_rom@.len() == 0x2000,
                    frame.wf(),
                    i < 960,
                    py < 8,
                    dx <= 8,
                    tile_column == i % 32,
                    tile_row == i / 32,
                    tile == ppu.vram@[i as int],
                    pal@ == bg_palette_spec(*ppu, tile_column as int, tile_row as int),
                    bank == (if ppu.ctrl.bits & CTRL_BACKGROUND_PATTERN_ADDR == 0 {
                        0int
                    } else {
                        0x1000int
                    }),
                    lo == ppu.chr_rom@[bank + tile * 16 + py],
                    hi == ppu.chr_rom@[bank + tile * 16 + py + 8],
                    bg_partial(*ppu, f0, frame.data@, i as int, py as int, dx as int),
                decreases 8 - dx,
            {
                let sh = (7 - dx) as u8;
                proof {
                    let h = hi;
                    let l = lo;
                    let s = sh;
                    assert((h >> s) & 1 <= 1 && (l >> s) & 1 <= 1) by (bit_vector);
                }
                let val = ((hi >> sh) & 1) * 2 + ((lo >> sh) & 1);
                let rgb = if val == 0 {
                    system_palette(ppu.palette_table[0])
                } else {
                    system_palette(pal[val as usize])
                };
                let x = tile_column * 8 + dx;
                let y = tile_row * 8 + py;
                let ghost fpre = frame.data@;
                frame.set_pixel(x, y, rgb);
                proof {
                    lemma_bg_step(*ppu, f0, fpre, frame.data@, i as int, py as int, dx as int, rgb);
                }
                dx = dx + 1;
            }
            py = py + 1;
            proof {
                assert(bg_partial(*ppu, f0, frame.data@, i as int, py as int, 0)) by {
                    assert(forall|k: int|
                        bg_before(k, i as int, py as int - 1, 8) == bg_before(
                            k,
                            i as int,
                            py as int,
                            0,
                        ));
                }
            }
        }
        i = i + 1;
        proof {
            assert(bg_partial(*ppu, f0, frame.data@, i as int, 0, 0)) by {
                assert(forall|k: int|
                    bg_before(k, i as int - 1, 8, 0) == bg_before(k, i as int, 0, 0));
            }
        }
    }
    proof {
        assert(final(frame).data@ =~= bg_image_spec(*ppu)) by {
            assert(forall|k: int|
                0 <= k < 256 * 240 * 3 ==> bg_before(k, 960, 0, 0));
        }
    }
}

/// One written pixel extends the background prefix by one column.
proof fn lemma_bg_step(
    p: Ppu,
    f0: Seq<u8>,
    fpre: Seq<u8>,
    fpost: Seq<u8>,
    t: int,
    py: int,
    dx: int,
    rgb: (u8, u8, u8),
)
    requires
        p.wf(),
        0 <= t < 960,
        0 <= py < 8,
        0 <= dx < 8,
        bg_partial(p, f0, fpre, t, py, dx),
        rgb == bg_pixel_spec(p, (t % 32) * 8 + dx, (t / 32) * 8 + py),
        fpost == ({
            let x = (t % 32) * 8 + dx;
            let y = (t / 32) * 8 + py;
            fpre.update((y * 256 + x) * 3, rgb.0).update((y * 256 + x) * 3 + 1, rgb.1).update(
                (y * 256 + x) * 3 + 2,
                rgb.2,
            )
        }),
    ensures
        bg_partial(p, f0, fpost, t, py, dx + 1),
{
    let x = (t % 32) * 8 + dx;
    let y = (t / 32) * 8 + py;
    let b = (y * 256 + x) * 3;
    assert(x < 256 && y < 240);
    assert forall|k: int| 0 <= k < fpost.len() implies fpost[k] == (if bg_before(
        k,
        t,
        py,
        dx + 1,
    ) {
        bg_channel_spec(p, k)
    } else {
        f0[k]
    }) by {
        let kx = (k / 3) % 256;
        let ky = (k / 3) / 256;
        if b <= k <= b + 2 {
            // The three bytes just written: their coordinates decode back
            // to the written pixel.
            assert(k / 3 == y * 256 + x);
            assert(kx == x && ky == y);
            assert(kx / 8 == t % 32 && kx % 8 == dx && ky / 8 == t / 32 && ky % 8 == py);
            assert(bg_before(k, t, py, dx + 1));
            assert(fpost[k] == bg_channel_spec(p, k));
        } else {
            assert(fpost[k] == fpre[k]);
            // Any other byte belongs to a different pixel, so its
            // written-before status does not change with this column.
            if bg_before(k, t, py, dx + 1) != bg_before(k, t, py, dx) {
                assert((ky / 8) * 32 + kx / 8 == t && ky % 8 == py && kx % 8 == dx);
                assert(kx / 8 == t % 32 && ky / 8 == t / 32);
                assert(kx == x && ky == y);
                assert(k / 3 == y * 256 + x);
                assert(false);
            }
        }
    }
}

/// Which frame indices the pass over sprite `i` has already visited:
/// those the sprite covers, rows first, then columns.
pub open spec fn sprite_before(p: Ppu, i: int, k: int, dy: int, dx: int) -> bool {
    let x = (k / 3) % 256;
    let y = (k / 3) / 256;
    let ddx = x - p.oam_data@[i * 4 + 3];
    let ddy = y - p.oam_data@[i * 4];
    0 <= ddx < 8 && 0 <= ddy < 8 && (ddy < dy || (ddy == dy && ddx < dx))
}

/// The frame holds sprite `i` drawn over `f0` on the indices visited so
/// far and the original bytes elsewhere.
pub open spec fn sprite_partial(
    p: Ppu,
    f0: Seq<u8>,
    f: Seq<u8>,
    i: int,
    dy: int,
    dx: int,
) -> bool {
    &&& f.len() == f0.len()
    &&& f0.len() == 256 * 240 * 3
    &&& forall|k: int|
        0 <= k < f.len() ==> f[k] == (if sprite_before(p, i, k, dy, dx) {
            draw_sprite_spec(p, f0, i)[k]
        } else {
            f0[k]
        })
}

/// One visited sprite pixel extends the prefix by one column, whether or
/// not anything was written.
proof fn lemma_sprite_step(
    p: Ppu,
    f0: Seq<u8>,
    fpre: Seq<u8>,
    fpost: Seq<u8>,
    i: int,
    dy: int,
    dx: int,
    rgb: (u8, u8, u8),
)
    requires
        p.wf(),
        0 <= i < 64,
        0 <= dy < 8,
        0 <= dx < 8,
        sprite_partial(p, f0, fpre, i, dy, dx),
        ({
            let val = sprite_val_spec(p, i, dx, dy);
            let x = p.oam_data@[i * 4 + 3] + dx;
            let y = p.oam_data@[i * 4] + dy;
            (val != 0 ==> rgb == system_palette_spec(
                sprite_palette_spec(p, sprite_attr_spec(p, i) & 0b11)[val as int],
            )) && fpost == (if val != 0 && x < 256 && y < 240 {
                fpre.update((y * 256 + x) * 3, rgb.0).update((y * 256 + x) * 3 + 1, rgb.1).update(
                    (y * 256 + x) * 3 + 2,
                    rgb.2,
                )
            } else {
                fpre
            })
        }),
    ensures
        sprite_partial(p, f0, fpost, i, dy, dx + 1),
{
    let val = sprite_val_spec(p, i, dx, dy);
    let sx = p.oam_data@[i * 4 + 3] as int;
    let sy = p.oam_data@[i * 4] as int;
    let x = sx + dx;
    let y = sy + dy;
    let b = (y * 256 + x) * 3;
    assert forall|k: int| 0 <= k < fpost.len() implies fpost[k] == (if sprite_before(
        p,
        i,
        k,
        dy,
        dx + 1,
    ) {
        draw_sprite_spec(p, f0, i)[k]
    } else {
        f0[k]
    }) by {
        let kx = (k / 3) % 256;
        let ky = (k / 3) / 256;
        if sprite_before(p, i, k, dy, dx + 1) && !sprite_before(p, i, k, dy, dx) {
            // Exactly the pixel visited in this step.
            assert(kx == x && ky == y);
            assert(x < 256 && y < 240);
            assert(k / 3 == y * 256 + x);
            assert(b <= k <= b + 2);
            if val != 0 {
                assert(fpost[k] == draw_sprite_spec(p, f0, i)[k]);
            } else {
                assert(fpost[k] == fpre[k]);
                assert(draw_sprite_spec(p, f0, i)[k] == f0[k]);
            }
        } else {
            if val != 0 && x < 256 && y < 240 && b <= k <= b + 2 {
                assert(k / 3 == y * 256 + x);
                assert(kx == x && ky == y);
                assert(sprite_before(p, i, k, dy, dx + 1));
                assert(false);
            }
            assert(fpost[k] == fpre[k]);
        }
    }
}

/// Draw one sprite over the frame, transparent pixels skipped, the flip
/// bits applied, pixels past the frame edge truncated.
fn draw_sprite(ppu: &Ppu, frame: &mut Frame, i: usize)
    requires
        ppu.wf(),
        ppu.chr_rom@.len() == 0x2000,
        old(frame).wf(),
        i < 64,
    ensures
        final(frame).wf(),
        final(frame).data@ == draw_sprite_spec(*ppu, old(frame).data@, i as int),
{
    let ghost f0 = frame.data@;
    let sy = ppu.oam_data[i * 4] as usize;
    let tile_idx = ppu.oam_data[i * 4 + 1] as usize;
    let attr = ppu.oam_data[i * 4 + 2];
    let sx = ppu.oam_data[i * 4 + 3] as usize;
    let flip_h = attr & 0x40 != 0;
    let flip_v = attr & 0x80 != 0;
    let palette_idx = attr & 0b11;
    proof {
        assert(attr & 0b11 < 4) by (bit_vector);
    }
    let pal = sprite_palette(ppu, palette_idx);
    let bank = ppu.ctrl.sprite_pattern_addr() as usize;
    let mut dy: usize = 0;
    while dy < 8
        invariant
            ppu.wf(),
            ppu.chr_rom@.len() == 0x2000,
            frame.wf(),
            i < 64,
            dy <= 8,
            sy == ppu.oam_data@[i as int * 4],
            tile_idx == ppu.oam_data@[i as int * 4 + 1],
            attr == ppu.oam_data@[i as int * 4 + 2],
            sx == ppu.oam_data@[i as int * 4 + 3],
            flip_h == (attr & 0x40 != 0),
            flip_v == (attr & 0x80 != 0),
            pal@ == sprite_palette_spec(*ppu, attr & 0b11),
            bank == (if ppu.ctrl.bits & CTRL_SPRITE_PATTERN_ADDR == 0 {
                0int
            } else {
                0x1000int
            }),
            sprite_partial(*ppu, f0, frame.data@, i as int, dy as int, 0),
        decreases 8 - dy,
    {
        let row = if flip_v {
            7 - dy
        } else {
            dy
        };
        let lo = ppu.chr_rom[bank + tile_idx * 16 + row];
        let hi = ppu.chr_rom[bank + tile_idx * 16 + row + 8];
        let mut dx: usize = 0;
        while dx < 8
            invariant
                ppu.wf(),
                ppu.chr_rom@.len() == 0x2000,
                frame.wf(),
                i < 64,
                dy < 8,
                dx <= 8,
                sy == ppu.oam_data@[i as int * 4],
                tile_idx == ppu.oam_data@[i as int * 4 + 1],
                attr == ppu.oam_data@[i as int * 4 + 2],
                sx == ppu.oam_data@[i as int * 4 + 3],
                flip_h == (attr & 0x40 != 0),
                flip_v == (attr & 0x80 != 0),
                pal@ == sprite_palette_spec(*ppu, attr & 0b11),
                bank == (if ppu.ctrl.bits & CTRL_SPRITE_PATTERN_ADDR == 0 {
                    0int
                } else {
                    0x1000int
                }),
                row == (if flip_v {
                    7 - dy as int
                } else {
                    dy as int
                }),
                lo == ppu.chr_rom@[bank + tile_idx * 16 + row],
                hi == ppu.chr_rom@[bank + tile_idx * 16 + row + 8],
                sprite_partial(*ppu, f0, frame.data@, i as int, dy as int, dx as int),
            decreases 8 - dx,
        {
            let col = if flip_h {
                7 - dx
            } else {
                dx
            };
            let sh = (7 - col) as u8;
            proof {
                let h = hi;
                let l = lo;
                let s = sh;
                assert((h >> s) & 1 <= 1 && (l >> s) & 1 <= 1) by (bit_vector);
            }
            let val = ((hi >> sh) & 1) * 2 + ((lo >> sh) & 1);
            proof {
                assert(val == sprite_val_spec(*ppu, i as int, dx as int, dy as int));
            }
            let ghost fpre = frame.data@;
            let mut rgb: (u8, u8, u8) = (0, 0, 0);
            if val != 0 {
                rgb = system_palette(pal[val as usize]);
                frame.set_pixel(sx + dx, sy + dy, rgb);
            }
            proof {
                lemma_sprite_step(
                    *ppu,
                    f0,
                    fpre,
                    frame.data@,
                    i as int,
                    dy as int,
                    dx as int,
                    rgb,
                );
            }
            dx = dx + 1;
        }
        dy = dy + 1;
        proof {
            assert(sprite_partial(*ppu, f0, frame.data@, i as int, dy as int, 0)) by {
                assert(forall|k: int|
                    sprite_before(*ppu, i as int, k, dy as int - 1, 8) == sprite_before(
                        *ppu,
                        i as int,
                        k,
                        dy as int,
                        0,
                    ));
            }
        }
    }
    proof {
        assert(frame.data@ =~= draw_sprite_spec(*ppu, f0, i as int));
    }
}

/// Compose the background and the sprite overlay into the frame: the 960
/// background tiles of the first nametable, then the 64 sprites, those
/// later in OAM drawn under those earlier.
pub fn render(ppu: &Ppu, frame: &mut Frame)
    requires
        ppu.wf(),
        ppu.chr_rom@.len() == 0x2000,
        old(frame).wf(),
    ensures
        final(frame).wf(),
        final(frame).data@ == sprites_from_spec(*ppu, bg_image_spec(*ppu), 0),
{
    render_background(ppu, frame);
    let ghost fbg = frame.data@;
    let mut i: usize = 64;
    while i > 0
        invariant
            ppu.wf(),
            ppu.chr_rom@.len() == 0x2000,
            frame.wf(),
            i <= 64,
            fbg == bg_image_spec(*ppu),
            frame.data@ == sprites_from_spec(*ppu, fbg, i as int),
        decreases i,
    {
        i = i - 1;
        draw_sprite(ppu, frame, i);
    }
}

/// The fixed 64-entry master colour table; indices are folded into it.
pub open spec fn system_palette_spec(idx: u8) -> (u8, u8, u8) {
    match idx % 64 {
        0 => (0x80, 0x80, 0x80),
        1 => (0x00, 0x3d, 0xa6),
        2 => (0x00, 0x12, 0xb0),
        3 => (0x44, 0x00, 0x96),
        4 => (0xa1, 0x00, 0x5e),
        5 => (0xc7, 0x00, 0x28),
        6 => (0xba, 0x06, 0x00),
        7 => (0x8c, 0x17, 0x00),
        8 => (0x5c, 0x2f, 0x00),
        9 => (0x10, 0x45, 0x00),
        10 => (0x05, 0x4a, 0x00),
        11 => (0x00, 0x47, 0x2e),
        12 => (0x00, 0x41, 0x66),
        13 => (0x00, 0x00, 0x00),
        14 => (0x05, 0x05, 0x05),
        15 => (0x05, 0x05, 0x05),
        16 => (0xc7, 0xc7, 0xc7),
        17 => (0x00, 0x77, 0xff),
        18 => (0x21, 0x55, 0xff),
        19 => (0x82, 0x37, 0xfa),
        20 => (0xeb, 0x2f, 0xb5),
        21 => (0xff, 0x29, 0x50),
        22 => (0xff, 0x22, 0x00),
        23 => (0xd6, 0x32, 0x00),
        24 => (0xc4, 0x62, 0x00),
        25 => (0x35, 0x80, 0x00),
        26 => (0x05, 0x8f, 0x00),
        27 => (0x00, 0x8a, 0x55),
        28 => (0x00, 0x99, 0xcc),
        29 => (0x21, 0x21, 0x21),
        30 => (0x09, 0x09, 0x09),
        31 => (0x09, 0x09, 0x09),
        32 => (0xff, 0xff, 0xff),
        33 => (0x0f, 0xd7, 0xff),
        34 => (0x69, 0xa2, 0xff),
        35 => (0xd4, 0x80, 0xff),
        36 => (0xff, 0x45, 0xf3),
        37 => (0xff, 0x61, 0x8b),
        38 => (0xff, 0x88, 0x33),
        39 => (0xff, 0x9c, 0x12),
        40 => (0xfa, 0xbc, 0x20),
        41 => (0x9f, 0xe3, 0x0e),
        42 => (0x2b, 0xf0, 0x35),
        43 => (0x0c, 0xf0, 0xa4),
        44 => (0x05, 0xfb, 0xff),
        45 => (0x5e, 0x5e, 0x5e),
        46 => (0x0d, 0x0d, 0x0d),
        47 => (0x0d, 0x0d, 0x0d),
        48 => (0xff, 0xff, 0xff),
        49 => (0xa6, 0xfc, 0xff),
        50 => (0xb3, 0xec, 0xff),
        51 => (0xda, 0xab, 0xeb),
        52 => (0xff, 0xa8, 0xf9),
        53 => (0xff, 0xab, 0xb3),
        54 => (0xff, 0xd2, 0xb0),
        55 => (0xff, 0xef, 0xa6),
        56 => (0xff, 0xf7, 0x9c),
        57 => (0xd7, 0xe8, 0x95),
        58 => (0xa6, 0xed, 0xaf),
        59 => (0xa2, 0xf2, 0xda),
        60 => (0x99, 0xff, 0xfc),
        61 => (0xdd, 0xdd, 0xdd),
        62 => (0x11, 0x11, 0x11),
        _ => (0x11, 0x11, 0x11),
    }
}

/// Look a palette index up in the master colour table.
pub fn system_palette(idx: u8) -> (r: (u8, u8, u8))
    ensures
        r == system_palette_spec(idx),
{
    match idx % 64 {
        0 => (0x80, 0x80, 0x80),
        1 => (0x00, 0x3d, 0xa6),
        2 => (0x00, 0x12, 0xb0),
        3 => (0x44, 0x00, 0x96),
        4 => (0xa1, 0x00, 0x5e),
        5 => (0xc7, 0x00, 0x28),
        6 => (0xba, 0x06, 0x00),
        7 => (0x8c, 0x17, 0x00),
        8 => (0x5c, 0x2f, 0x00),
        9 => (0x10, 0x45, 0x00),
        10 => (0x05, 0x4a, 0x00),
        11 => (0x00, 0x47, 0x2e),
        12 => (0x00, 0x41, 0x66),
        13 => (0x00, 0x00, 0x00),
        14 => (0x05, 0x05, 0x05),
        15 => (0x05, 0x05, 0x05),
        16 => (0xc7, 0xc7, 0xc7),
        17 => (0x00, 0x77, 0xff),
        18 => (0x21, 0x55, 0xff),
        19 => (0x82, 0x37, 0xfa),
        20 => (0xeb, 0x2f, 0xb5),
        21 => (0xff, 0x29, 0x50),
        22 => (0xff, 0x22, 0x00),
        23 => (0xd6, 0x32, 0x00),
        24 => (0xc4, 0x62, 0x00),
        25 => (0x35, 0x80, 0x00),
        26 => (0x05, 0x8f, 0x00),
        27 => (0x00, 0x8a, 0x55),
        28 => (0x00, 0x99, 0xcc),
        29 => (0x21, 0x21, 0x21),
        30 => (0x09, 0x09, 0x09),
        31 => (0x09, 0x09, 0x09),
        32 => (0xff, 0xff, 0xff),
        33 => (0x0f, 0xd7, 0xff),
        34 => (0x69, 0xa2, 0xff),
        35 => (0xd4, 0x80, 0xff),
        36 => (0xff, 0x45, 0xf3),
        37 => (0xff, 0x61, 0x8b),
        38 => (0xff, 0x88, 0x33),
        39 => (0xff, 0x9c, 0x12),
        40 => (0xfa, 0xbc, 0x20),
        41 => (0x9f, 0xe3, 0x0e),
        42 => (0x2b, 0xf0, 0x35),
        43 => (0x0c, 0xf0, 0xa4),
        44 => (0x05, 0xfb, 0xff),
        45 => (0x5e, 0x5e, 0x5e),
        46 => (0x0d, 0x0d, 0x0d),
        47 => (0x0d, 0x0d, 0x0d),
        48 => (0xff, 0xff, 0xff),
        49 => (0xa6, 0xfc, 0xff),
        50 => (0xb3, 0xec, 0xff),
        51 => (0xda, 0xab, 0xeb),
        52 => (0xff, 0xa8, 0xf9),
        53 => (0xff, 0xab, 0xb3),
        54 => (0xff, 0xd2, 0xb0),
        55 => (0xff, 0xef, 0xa6),
        56 => (0xff, 0xf7, 0x9c),
        57 => (0xd7, 0xe8, 0x95),
        58 => (0xa6, 0xed, 0xaf),
        59 => (0xa2, 0xf2, 0xda),
        60 => (0x99, 0xff, 0xfc),
        61 => (0xdd, 0xdd, 0xdd),
        62 => (0x11, 0x11, 0x11),
        _ => (0x11, 0x11, 0x11),
    }
}

} // verus!
