//! The cartridge image parser. An image starts with a 16-byte header:
//! a four-byte magic number, the program ROM size in 16 KiB pages, the
//! character ROM size in 8 KiB pages, and two flag bytes carrying the
//! mirroring, an optional 512-byte trainer, and the mapper number. Only
//! the original header revision is accepted.

use vstd::prelude::*;

use crate::ppu::Mirroring;

verus! {

pub const PRG_ROM_PAGE_SIZE: usize = 16384;
pub const CHR_ROM_PAGE_SIZE: usize = 8192;

/// A parsed cartridge: program ROM, character ROM, the mapper number and
/// the nametable mirroring the board is wired for.
#[derive(Debug)]
pub struct Rom {
    pub prg_rom: Vec<u8>,
    pub chr_rom: Vec<u8>,
    pub mapper: u8,
    pub mirroring: Mirroring,
}

/// The image begins with the magic bytes `4E 45 53 1A`.
pub open spec fn rom_magic_ok(raw: Seq<u8>) -> bool {
    raw.len() >= 16 && raw[0] == 0x4e && raw[1] == 0x45 && raw[2] == 0x53 && raw[3] == 0x1a
}

/// The header revision carried in bits 2-3 of the last flag byte.
pub open spec fn rom_version(raw: Seq<u8>) -> u8 {
    ((raw[7] as int / 4) % 4) as u8
}

/// The mapper number: high nibble from byte 7, low nibble from byte 6.
pub open spec fn rom_mapper(raw: Seq<u8>) -> u8 {
    ((raw[7] & 0xf0) | (raw[6] as int / 16) as u8) as u8
}

/// The mirroring wiring: bit 3 of byte 6 selects four-screen, else bit 0
/// selects vertical over horizontal.
pub open spec fn rom_mirroring(raw: Seq<u8>) -> Mirroring {
    if raw[6] & 0b1000 != 0 {
        Mirroring::FourScreen
    } else if raw[6] & 0b1 != 0 {
        Mirroring::Vertical
    } else {
        Mirroring::Horizontal
    }
}

pub open spec fn rom_prg_size(raw: Seq<u8>) -> int {
    raw[4] * (PRG_ROM_PAGE_SIZE as int)
}

pub open spec fn rom_chr_size(raw: Seq<u8>) -> int {
    raw[5] * (CHR_ROM_PAGE_SIZE as int)
}

/// Where the program ROM starts: after the header, and after the 512-byte
/// trainer when bit 2 of byte 6 announces one.
pub open spec fn rom_prg_start(raw: Seq<u8>) -> int {
    16 + if raw[6] & 0b100 == 0 {
        0int
    } else {
        512int
    }
}

impl Rom {
    /// Parse a raw cartridge image. Accepts exactly the images with the
    /// magic bytes, the original header revision, and enough bytes for
    /// the ROM sizes the header declares.
    pub fn analyze_raw(raw: &Vec<u8>) -> (r: Result<Rom, &'static str>)
        ensures
            ({
                let prg_start = rom_prg_start(raw@);
                let chr_start = rom_prg_start(raw@) + rom_prg_size(raw@);
                if !rom_magic_ok(raw@) {
                    r is Err
                } else if rom_version(raw@) != 0 {
                    r is Err
                } else if chr_start + rom_chr_size(raw@) > raw@.len() {
                    r is Err
                } else {
                    r is Ok && {
                        let rom = r->Ok_0;
                        rom.prg_rom@ == raw@.subrange(prg_start, chr_start) && rom.chr_rom@
                            == raw@.subrange(chr_start, chr_start + rom_chr_size(raw@))
                            && rom.mapper == rom_mapper(raw@) && rom.mirroring == rom_mirroring(
                            raw@,
                        )
                    }
                }
            }),
    {
        if raw.len() < 16 {
            return Err("Not iNES file format");
        }
        if !(raw[0] == 0x4e && raw[1] == 0x45 && raw[2] == 0x53 && raw[3] == 0x1a) {
            return Err("Not iNES file format");
        }
        proof {
            let b7 = raw@[7];
            let b6 = raw@[6];
            assert((b7 >> 2) & 0b11 == ((b7 as int / 4) % 4) as u8) by (bit_vector);
            assert(b6 >> 4 == (b6 as int / 16) as u8) by (bit_vector);
        }
        let mapper = (raw[7] & 0b1111_0000) | (raw[6] >> 4);
        let ines_version = (raw[7] >> 2) & 0b11;
        if ines_version != 0 {
            return Err("Only iNES 1.0 is supported");
        }
        let is_four_screen = raw[6] & 0b1000 != 0;
        let is_vertical = raw[6] & 0b1 != 0;
        let mirroring = if is_four_screen {
            Mirroring::FourScreen
        } else if is_vertical {
            Mirroring::Vertical
        } else {
            Mirroring::Horizontal
        };
        let prg_rom_size = raw[4] as usize * PRG_ROM_PAGE_SIZE;
        let chr_rom_size = raw[5] as usize * CHR_ROM_PAGE_SIZE;
        let has_trainer = raw[6] & 0b100 != 0;
        let prg_rom_begin: usize = 16 + if has_trainer {
            512
        } else {
            0
        };
        let chr_rom_begin = prg_rom_begin + prg_rom_size;
        if chr_rom_begin + chr_rom_size > raw.len() {
            return Err("image is shorter than its header declares");
        }
        Ok(
            Rom {
                prg_rom: copy_range(raw, prg_rom_begin, chr_rom_begin),
                chr_rom: copy_range(raw, chr_rom_begin, chr_rom_begin + chr_rom_size),
                mapper,
                mirroring,
            },
        )
    }
}

/// Copy `src[start..end]` into a fresh vector.
fn copy_range(src: &Vec<u8>, start: usize, end: usize) -> (r: Vec<u8>)
    requires
        start <= end <= src@.len(),
    ensures
        r@ == src@.subrange(start as int, end as int),
{
    let mut out: Vec<u8> = Vec::new();
    let mut i = start;
    while i < end
        invariant
            start <= i <= end <= src@.len(),
            out@ == src@.subrange(start as int, i as int),
        decreases end - i,
    {
        out.push(src[i]);
        i = i + 1;
        proof {
            assert(out@ =~= src@.subrange(start as int, i as int));
        }
    }
    out
}

} // verus!
