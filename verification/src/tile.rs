//! A tile viewer: draws a single pattern-table tile into the top-left
//! corner of a fresh frame, with a fixed preview palette.

use vstd::prelude::*;

use crate::render::Frame;
use crate::render::pattern_val_spec;
use crate::render::system_palette;
use crate::render::system_palette_spec;

verus! {

/// The preview colour of pattern value `v`: four fixed entries of the
/// master colour table.
pub open spec fn tile_preview_color_spec(v: u8) -> (u8, u8, u8) {
    if v == 0 {
        system_palette_spec(0x01)
    } else if v == 1 {
        system_palette_spec(0x23)
    } else if v == 2 {
        system_palette_spec(0x27)
    } else {
        system_palette_spec(0x30)
    }
}

/// The finished preview image: the tile in the top-left eight-by-eight
/// corner, black elsewhere.
pub open spec fn show_tile_image_spec(chr: Seq<u8>, bank: int, tile_n: int) -> Seq<u8> {
    Seq::new(
        (256 * 240 * 3) as nat,
        |k: int|
            {
                let x = (k / 3) % 256;
                let y = (k / 3) / 256;
                if x < 8 && y < 8 {
                    let rgb = tile_preview_color_spec(
                        pattern_val_spec(chr, bank * 0x1000 + tile_n * 16, x as u8, y as u8),
                    );
                    if k % 3 == 0 {
                        rgb.0
                    } else if k % 3 == 1 {
                        rgb.1
                    } else {
                        rgb.2
                    }
                } else {
                    0
                }
            },
    )
}

/// Which preview indices have been visited: the tile pixels in row-major
/// order.
pub open spec fn tile_before(k: int, py: int, px: int) -> bool {
    let x = (k / 3) % 256;
    let y = (k / 3) / 256;
    x < 8 && y < 8 && (y < py || (y == py && x < px))
}

/// Draw one eight-by-eight tile from the chosen pattern bank into the
/// corner of a fresh frame.
pub fn show_tile(chr_rom: &Vec<u8>, bank: usize, tile_n: usize) -> (r: Frame)
    requires
        chr_rom@.len() == 0x2000,
        bank <= 1,
        tile_n < 256,
    ensures
        r.wf(),
        r.data@ == show_tile_image_spec(chr_rom@, bank as int, tile_n as int),
{
    let mut frame = Frame::new();
    let ghost f0 = frame.data@;
    let base = bank * 0x1000 + tile_n * 16;
    let mut py: usize = 0;
    while py < 8
        invariant
            chr_rom@.len() == 0x2000,
            frame.wf(),
            py <= 8,
            bank <= 1,
            tile_n < 256,
            base == bank * 0x1000 + tile_n * 16,
            f0 == Seq::new((256 * 240 * 3) as nat, |i: int| 0u8),
            frame.data@.len() == 256 * 240 * 3,
            forall|k: int|
                0 <= k < frame.data@.len() ==> frame.data@[k] == (if tile_before(
                    k,
                    py as int,
                    0,
                ) {
                    show_tile_image_spec(chr_rom@, bank as int, tile_n as int)[k]
                } else {
                    0u8
                }),
        decreases 8 - py,
    {
        let lo = chr_rom[base + py];
        let hi = chr_rom[base + py + 8];
        let mut px: usize = 0;
        while px < 8
            invariant
                chr_rom@.len() == 0x2000,
                frame.wf(),
                py < 8,
                px <= 8,
                bank <= 1,
                tile_n < 256,
                base == bank * 0x1000 + tile_n * 16,
                lo == chr_rom@[base + py],
                hi == chr_rom@[base + py + 8],
                frame.data@.len() == 256 * 240 * 3,
                forall|k: int|
                    0 <= k < frame.data@.len() ==> frame.data@[k] == (if tile_before(
                        k,
                        py as int,
                        px as int,
                    ) {
                        show_tile_image_spec(chr_rom@, bank as int, tile_n as int)[k]
                    } else {
                        0u8
                    }),
            decreases 8 - px,
        {
            let sh = (7 - px) as u8;
            proof {
                let h = hi;
                let l = lo;
                let s = sh;
                assert((h >> s) & 1 <= 1 && (l >> s) & 1 <= 1) by (bit_vector);
            }
            let val = ((hi >> sh) & 1) * 2 + ((lo >> sh) & 1);
            let rgb = if val == 0 {
                system_palette(0x01)
            } else if val == 1 {
                system_palette(0x23)
            } else if val == 2 {
                system_palette(0x27)
            } else {
                system_palette(0x30)
            };
            let ghost fpre = frame.data@;
            frame.set_pixel(px, py, rgb);
            proof {
                let img = show_tile_image_spec(chr_rom@, bank as int, tile_n as int);
                let b = ((py * 256 + px) * 3) as int;
                assert forall|k: int| 0 <= k < frame.data@.len() implies frame.data@[k] == (
                if tile_before(k, py as int, px as int + 1) {
                    img[k]
                } else {
                    0u8
                }) by {
                    let kx = (k / 3) % 256;
                    let ky = (k / 3) / 256;
                    if b <= k <= b + 2 {
                        assert(k / 3 == py * 256 + px);
                        assert(kx == px && ky == py);
                        assert(frame.data@[k] == img[k]);
                    } else {
                        assert(frame.data@[k] == fpre[k]);
                        if tile_before(k, py as int, px as int + 1) != tile_before(
                            k,
                            py as int,
                            px as int,
                        ) {
                            assert(kx == px && ky == py);
                            assert(k / 3 == py * 256 + px);
                            assert(false);
                        }
                    }
                }
            }
            px = px + 1;
        }
        py = py + 1;
        proof {
            assert(forall|k: int|
                tile_before(k, py as int - 1, 8) == tile_before(k, py as int, 0));
        }
    }
    proof {
        assert(frame.data@ =~= show_tile_image_spec(chr_rom@, bank as int, tile_n as int));
    }
    frame
}

} // verus!
