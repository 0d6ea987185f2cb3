//! The picture processor: its memory-mapped register file, the shared
//! high/low write latch, VRAM with nametable mirroring, the read buffer,
//! and the scanline/cycle clock that raises the vertical-blank interrupt.

use vstd::prelude::*;

use crate::errors::EmuError;

verus! {

/// How the two physical nametable pages are mapped across the four
/// logical nametable quadrants.
#[derive(Debug, PartialEq, Eq, Structural, Clone, Copy)]
pub enum Mirroring {
    Vertical,
    Horizontal,
    FourScreen,
}

/// A primary colour channel.
#[derive(Debug, Clone, Copy)]
pub enum Color {
    Red,
    Green,
    Blue,
}

// Control register bits.
pub const CTRL_NAMETABLE1: u8 = 0b0000_0001;
pub const CTRL_NAMETABLE2: u8 = 0b0000_0010;
pub const CTRL_VRAM_ADD_INCREMENT: u8 = 0b0000_0100;
pub const CTRL_SPRITE_PATTERN_ADDR: u8 = 0b0000_1000;
pub const CTRL_BACKGROUND_PATTERN_ADDR: u8 = 0b0001_0000;
pub const CTRL_SPRITE_SIZE: u8 = 0b0010_0000;
pub const CTRL_MASTER_SLAVE_SELECT: u8 = 0b0100_0000;
pub const CTRL_GENERATE_NMI: u8 = 0b1000_0000;

// Status register bits.
pub const STAT_VBLANK: u8 = 0b1000_0000;
pub const STAT_SPRITE_ZERO_HIT: u8 = 0b0100_0000;
pub const STAT_SPRITE_OVERFLOW: u8 = 0b0010_0000;

/// The 14-bit VRAM pointer, assembled from two successive register writes
/// through a high/low latch.
#[derive(Debug, Clone, Copy)]
pub struct AddrRegister {
    /// High byte, then low byte, of the assembled pointer.
    pub value: (u8, u8),
    /// True when the next write supplies the high byte.
    pub hi_ptr: bool,
}

/// The address held by the register.
pub open spec fn addr_get_spec(r: AddrRegister) -> u16 {
    ((r.value.0 as u16) * 0x100 + (r.value.1 as u16)) as u16
}

/// The register after its 16-bit value is replaced (latch untouched).
pub open spec fn addr_set_spec(r: AddrRegister, data: u16) -> AddrRegister {
    AddrRegister { value: ((data / 0x100) as u8, (data % 0x100) as u8), hi_ptr: r.hi_ptr }
}

/// One write through the latch: high byte first, then low byte; the result
/// is masked to 14 bits and the latch toggles.
pub open spec fn addr_update_spec(r: AddrRegister, data: u8) -> AddrRegister {
    let written = if r.hi_ptr {
        AddrRegister { value: (data, r.value.1), hi_ptr: r.hi_ptr }
    } else {
        AddrRegister { value: (r.value.0, data), hi_ptr: r.hi_ptr }
    };
    let masked = if addr_get_spec(written) > 0x3fff {
        addr_set_spec(written, (addr_get_spec(written) % 0x4000) as u16)
    } else {
        written
    };
    AddrRegister { value: masked.value, hi_ptr: !r.hi_ptr }
}

/// The register after a post-access increment, masked to 14 bits.
pub open spec fn addr_inc_spec(r: AddrRegister, by: u8) -> AddrRegister {
    let lo = ((r.value.1 + by) % 0x100) as u8;
    let hi = if r.value.1 > lo {
        ((r.value.0 + 1) % 0x100) as u8
    } else {
        r.value.0
    };
    let bumped = AddrRegister { value: (hi, lo), hi_ptr: r.hi_ptr };
    if addr_get_spec(bumped) > 0x3fff {
        addr_set_spec(bumped, (addr_get_spec(bumped) % 0x4000) as u16)
    } else {
        bumped
    }
}

/// The register with the latch reset so the next write is the high byte.
pub open spec fn addr_reset_latch_spec(r: AddrRegister) -> AddrRegister {
    AddrRegister { value: r.value, hi_ptr: true }
}

impl AddrRegister {
    pub fn new() -> (r: AddrRegister)
        ensures
            r.value == (0u8, 0u8),
            r.hi_ptr == true,
    {
        AddrRegister { value: (0, 0), hi_ptr: true }
    }

    fn set(&mut self, data: u16)
        ensures
            *final(self) == addr_set_spec(*old(self), data),
    {
        self.value.0 = (data / 0x100) as u8;
        self.value.1 = (data % 0x100) as u8;
    }

    pub fn get(&self) -> (r: u16)
        ensures
            r == addr_get_spec(*self),
    {
        (self.value.0 as u16) * 0x100 + (self.value.1 as u16)
    }

    /// Feed one byte through the high/low latch.
    pub fn update(&mut self, data: u8)
        ensures
            *final(self) == addr_update_spec(*old(self), data),
    {
        if self.hi_ptr {
            self.value.0 = data;
        } else {
            self.value.1 = data;
        }
        if self.get() > 0x3fff {
            let masked = self.get() % 0x4000;
            self.set(masked);
        }
        self.hi_ptr = !self.hi_ptr;
    }

    /// Post-access increment by 1 or 32, wrapping within 14 bits.
    pub fn inc(&mut self, by: u8)
        ensures
            *final(self) == addr_inc_spec(*old(self), by),
    {
        let low = self.value.1;
        self.value.1 = self.value.1.wrapping_add(by);
        if low > self.value.1 {
            self.value.0 = self.value.0.wrapping_add(1);
        }
        if self.get() > 0x3fff {
            let masked = self.get() % 0x4000;
            self.set(masked);
        }
    }

    /// Reset the shared latch: the next write supplies the high byte.
    pub fn reset_latch(&mut self)
        ensures
            *final(self) == addr_reset_latch_spec(*old(self)),
    {
        self.hi_ptr = true;
    }
}

/// Two writes through a freshly reset latch assemble exactly the given
/// address, masked to 14 bits, whatever the register held before.
pub proof fn lemma_addr_write_round_trip(r: AddrRegister, hi: u8, lo: u8)
    ensures
        addr_get_spec(
            addr_update_spec(addr_update_spec(addr_reset_latch_spec(r), hi), lo),
        ) == (((hi as u16) * 0x100 + (lo as u16)) % 0x4000) as u16,
{
}

/// The control register: nametable select, address increment stride,
/// pattern banks, and the vertical-blank interrupt enable.
#[derive(Debug, Clone, Copy)]
pub struct ControlRegister {
    pub bits: u8,
}

impl ControlRegister {
    pub fn new() -> (r: ControlRegister)
        ensures
            r.bits == 0,
    {
        ControlRegister { bits: 0 }
    }

    /// The data-port address increment the register selects: 1 going
    /// across, 32 going down.
    pub fn inc_vram_addr(&self) -> (r: u8)
        ensures
            r == ctrl_increment_spec(*self),
    {
        if self.bits & CTRL_VRAM_ADD_INCREMENT == 0 {
            1
        } else {
            32
        }
    }

    /// Whether a non-maskable interrupt is generated at the start of the
    /// vertical-blank interval.
    pub fn generate_vblank_nmi(&self) -> (r: bool)
        ensures
            r == ctrl_nmi_enabled_spec(*self),
    {
        self.bits & CTRL_GENERATE_NMI != 0
    }

    /// Base address of the background pattern bank.
    pub fn bkgnd_pattern_addr(&self) -> (r: u16)
        ensures
            r == (if self.bits & CTRL_BACKGROUND_PATTERN_ADDR == 0 { 0u16 } else { 0x1000u16 }),
    {
        if self.bits & CTRL_BACKGROUND_PATTERN_ADDR == 0 {
            0
        } else {
            0x1000
        }
    }

    /// Base address of the sprite pattern bank.
    pub fn sprite_pattern_addr(&self) -> (r: u16)
        ensures
            r == (if self.bits & CTRL_SPRITE_PATTERN_ADDR == 0 { 0u16 } else { 0x1000u16 }),
    {
        if self.bits & CTRL_SPRITE_PATTERN_ADDR == 0 {
            0
        } else {
            0x1000
        }
    }

    pub fn update(&mut self, data: u8)
        ensures
            final(self).bits == data,
    {
        self.bits = data;
    }
}

pub open spec fn ctrl_increment_spec(c: ControlRegister) -> u8 {
    if c.bits & CTRL_VRAM_ADD_INCREMENT == 0 {
        1
    } else {
        32
    }
}

pub open spec fn ctrl_nmi_enabled_spec(c: ControlRegister) -> bool {
    c.bits & CTRL_GENERATE_NMI != 0
}

/// The mask register: greyscale, left-edge clipping, layer enables and
/// colour emphasis. The core only stores it.
#[derive(Debug, Clone, Copy)]
pub struct MaskRegister {
    pub bits: u8,
}

impl MaskRegister {
    pub fn new() -> (r: MaskRegister)
        ensures
            r.bits == 0,
    {
        MaskRegister { bits: 0 }
    }

    pub fn update(&mut self, data: u8)
        ensures
            final(self).bits == data,
    {
        self.bits = data;
    }
}

/// The status register: vertical-blank, sprite-zero hit and sprite
/// overflow bits.
#[derive(Debug, Clone, Copy)]
pub struct StatusRegister {
    pub bits: u8,
}

impl StatusRegister {
    pub fn new() -> (r: StatusRegister)
        ensures
            r.bits == 0,
    {
        StatusRegister { bits: 0 }
    }

    pub fn snapshot(&self) -> (r: u8)
        ensures
            r == self.bits,
    {
        self.bits
    }

    pub fn set_vblank_status(&mut self, on: bool)
        ensures
            final(self).bits == (if on {
                old(self).bits | STAT_VBLANK
            } else {
                old(self).bits & !STAT_VBLANK
            }),
    {
        if on {
            self.bits = self.bits | STAT_VBLANK;
        } else {
            self.bits = self.bits & !STAT_VBLANK;
        }
    }

    pub fn clear_vblank_status(&mut self)
        ensures
            final(self).bits == old(self).bits & !STAT_VBLANK,
    {
        self.bits = self.bits & !STAT_VBLANK;
    }

    pub fn set_sprite_zero_hit(&mut self, on: bool)
        ensures
            final(self).bits == (if on {
                old(self).bits | STAT_SPRITE_ZERO_HIT
            } else {
                old(self).bits & !STAT_SPRITE_ZERO_HIT
            }),
    {
        if on {
            self.bits = self.bits | STAT_SPRITE_ZERO_HIT;
        } else {
            self.bits = self.bits & !STAT_SPRITE_ZERO_HIT;
        }
    }

    pub fn is_in_vblank(&self) -> (r: bool)
        ensures
            r == (self.bits & STAT_VBLANK != 0),
    {
        self.bits & STAT_VBLANK != 0
    }
}

/// Facts about the status bits that the clock transitions rely on.
pub proof fn lemma_status_bits(b: u8)
    ensures
        ((b | STAT_VBLANK) & !STAT_SPRITE_ZERO_HIT) & STAT_VBLANK != 0,
        ((b | STAT_VBLANK) & !STAT_SPRITE_ZERO_HIT) & STAT_SPRITE_ZERO_HIT == 0,
        ((b | STAT_VBLANK) & !STAT_SPRITE_ZERO_HIT) & 0x3f == b & 0x3f,
        ((b & !STAT_SPRITE_ZERO_HIT) & !STAT_VBLANK) & STAT_VBLANK == 0,
        ((b & !STAT_SPRITE_ZERO_HIT) & !STAT_VBLANK) & STAT_SPRITE_ZERO_HIT == 0,
        ((b & !STAT_SPRITE_ZERO_HIT) & !STAT_VBLANK) & 0x3f == b & 0x3f,
{
    assert(((b | 0x80u8) & !0x40u8) & 0x80u8 != 0 && ((b | 0x80u8) & !0x40u8) & 0x40u8 == 0 && ((b
        | 0x80u8) & !0x40u8) & 0x3fu8 == b & 0x3fu8 && ((b & !0x40u8) & !0x80u8) & 0x80u8 == 0 && ((
    b & !0x40u8) & !0x80u8) & 0x40u8 == 0 && ((b & !0x40u8) & !0x80u8) & 0x3fu8 == b & 0x3fu8)
        by (bit_vector);
}

/// The scroll offsets, assembled through the same shared latch as the
/// address register: first write is the horizontal offset, second the
/// vertical one.
#[derive(Debug, Clone, Copy)]
pub struct ScrollRegister {
    pub scroll_x: u8,
    pub scroll_y: u8,
    /// True when the next write supplies the vertical offset.
    pub latch: bool,
}

impl ScrollRegister {
    pub fn new() -> (r: ScrollRegister)
        ensures
            r.scroll_x == 0,
            r.scroll_y == 0,
            r.latch == false,
    {
        ScrollRegister { scroll_x: 0, scroll_y: 0, latch: false }
    }

    pub fn write(&mut self, data: u8)
        ensures
            *final(self) == scroll_write_spec(*old(self), data),
    {
        if !self.latch {
            self.scroll_x = data;
        } else {
            self.scroll_y = data;
        }
        self.latch = !self.latch;
    }

    pub fn reset_latch(&mut self)
        ensures
            final(self).scroll_x == old(self).scroll_x,
            final(self).scroll_y == old(self).scroll_y,
            final(self).latch == false,
    {
        self.latch = false;
    }
}

pub open spec fn scroll_write_spec(r: ScrollRegister, data: u8) -> ScrollRegister {
    if !r.latch {
        ScrollRegister { scroll_x: data, scroll_y: r.scroll_y, latch: true }
    } else {
        ScrollRegister { scroll_x: r.scroll_x, scroll_y: data, latch: false }
    }
}

/// Maps a nametable address (`0x2000..=0x3eff`) to an index into the two
/// physical 1 KiB pages, applying the configured mirroring. Under
/// four-screen mirroring the upper quadrants keep their raw index; callers
/// fold it into the physical pages.
pub open spec fn mirror_vram_addr_spec(m: Mirroring, addr: u16) -> u16 {
    let mirrored = if addr >= 0x3000 {
        (addr - 0x1000) as u16
    } else {
        addr
    };
    let idx = (mirrored - 0x2000) as u16;
    let quadrant = idx / 0x400;
    match m {
        Mirroring::Vertical => if quadrant == 2 || quadrant == 3 {
            (idx - 0x800) as u16
        } else {
            idx
        },
        Mirroring::Horizontal => if quadrant == 1 || quadrant == 2 {
            (idx - 0x400) as u16
        } else if quadrant == 3 {
            (idx - 0x800) as u16
        } else {
            idx
        },
        Mirroring::FourScreen => idx,
    }
}

/// Under vertical mirroring the first and third logical nametables share
/// one physical page; under horizontal mirroring the first and second do.
pub proof fn lemma_nametable_mirroring(k: u16)
    requires
        k < 0x400,
    ensures
        mirror_vram_addr_spec(Mirroring::Vertical, (0x2000 + k) as u16) == mirror_vram_addr_spec(
            Mirroring::Vertical,
            (0x2800 + k) as u16,
        ),
        mirror_vram_addr_spec(Mirroring::Horizontal, (0x2000 + k) as u16)
            == mirror_vram_addr_spec(Mirroring::Horizontal, (0x2400 + k) as u16),
{
}

/// The index into the 32-byte palette for a data-port address in
/// `0x3f00..=0x3fff`: the palette repeats every 32 bytes, and the four
/// sprite backdrop entries alias the background backdrop entries.
pub open spec fn palette_index_spec(addr: u16) -> u16 {
    let i = ((addr - 0x3f00) % 0x20) as u16;
    if i == 0x10 || i == 0x14 || i == 0x18 || i == 0x1c {
        (i - 0x10) as u16
    } else {
        i
    }
}

/// The clock-facing portion of the picture processor's state.
pub struct PpuClock {
    pub scanline: u16,
    pub cycles: usize,
    pub vblank: bool,
    pub sprite_zero_hit: bool,
    pub nmi_enabled: bool,
    pub nmi_pending: bool,
}

/// One tick of `cycles` picture-processor cycles: every 341 cycles the
/// scanline advances; entering scanline 241 raises the vertical-blank flag
/// (and the interrupt when enabled); wrapping past 261 clears both and
/// signals a completed field.
pub open spec fn clock_tick_spec(c: PpuClock, n: u8) -> (PpuClock, bool) {
    let cy = c.cycles + n;
    if cy >= 341 {
        let cy2 = (cy - 341) as usize;
        let sl = (c.scanline + 1) as u16;
        if sl >= 262 {
            (
                PpuClock {
                    scanline: 0,
                    cycles: cy2,
                    vblank: false,
                    sprite_zero_hit: false,
                    nmi_enabled: c.nmi_enabled,
                    nmi_pending: false,
                },
                true,
            )
        } else if sl == 241 {
            (
                PpuClock {
                    scanline: sl,
                    cycles: cy2,
                    vblank: true,
                    sprite_zero_hit: false,
                    nmi_enabled: c.nmi_enabled,
                    nmi_pending: c.nmi_pending || c.nmi_enabled,
                },
                false,
            )
        } else {
            (
                PpuClock {
                    scanline: sl,
                    cycles: cy2,
                    vblank: c.vblank,
                    sprite_zero_hit: c.sprite_zero_hit,
                    nmi_enabled: c.nmi_enabled,
                    nmi_pending: c.nmi_pending,
                },
                false,
            )
        }
    } else {
        (
            PpuClock {
                scanline: c.scanline,
                cycles: cy as usize,
                vblank: c.vblank,
                sprite_zero_hit: c.sprite_zero_hit,
                nmi_enabled: c.nmi_enabled,
                nmi_pending: c.nmi_pending,
            },
            false,
        )
    }
}

pub open spec fn sum_chunks(chunks: Seq<u8>) -> int
    decreases chunks.len(),
{
    if chunks.len() == 0 {
        0
    } else {
        chunks[0] + sum_chunks(chunks.drop_first())
    }
}

/// Folds `clock_tick_spec` over a sequence of tick sizes; besides the end
/// state it counts the frame-complete signals and the rising edges of the
/// vertical-blank flag.
pub open spec fn clock_run_spec(c: PpuClock, chunks: Seq<u8>) -> (PpuClock, int, int)
    decreases chunks.len(),
{
    if chunks.len() == 0 {
        (c, 0, 0)
    } else {
        let stepped = clock_tick_spec(c, chunks[0]);
        let rise: int = if !c.vblank && stepped.0.vblank {
            1
        } else {
            0
        };
        let rest = clock_run_spec(stepped.0, chunks.drop_first());
        (
            rest.0,
            rest.1 + if stepped.1 {
                1int
            } else {
                0int
            },
            rest.2 + rise,
        )
    }
}

proof fn lemma_sum_chunks_nonneg(chunks: Seq<u8>)
    ensures
        sum_chunks(chunks) >= 0,
    decreases chunks.len(),
{
    if chunks.len() > 0 {
        lemma_sum_chunks_nonneg(chunks.drop_first());
    }
}

proof fn lemma_clock_run_zero(c: PpuClock, chunks: Seq<u8>)
    requires
        c.cycles < 341,
        sum_chunks(chunks) == 0,
    ensures
        clock_run_spec(c, chunks) == (c, 0int, 0int),
    decreases chunks.len(),
{
    if chunks.len() > 0 {
        lemma_sum_chunks_nonneg(chunks.drop_first());
        assert(chunks[0] == 0);
        let stepped = clock_tick_spec(c, chunks[0]);
        assert(stepped.0 == c);
        lemma_clock_run_zero(c, chunks.drop_first());
    }
}

proof fn lemma_clock_run_from(c: PpuClock, chunks: Seq<u8>)
    requires
        c.cycles < 341,
        c.scanline <= 261,
        c.vblank == (c.scanline >= 241),
        341 * c.scanline + c.cycles + sum_chunks(chunks) == 341 * 262,
    ensures
        ({
            let (end, frames, rises) = clock_run_spec(c, chunks);
            frames == 1 && rises == (if c.vblank {
                0int
            } else {
                1int
            }) && end.scanline == 0 && end.cycles == 0 && !end.vblank
        }),
    decreases chunks.len(),
{
    lemma_sum_chunks_nonneg(chunks);
    assert(chunks.len() > 0);
    let n = chunks[0];
    let stepped = clock_tick_spec(c, n);
    lemma_sum_chunks_nonneg(chunks.drop_first());
    if c.cycles + n >= 341 {
        let sl = c.scanline + 1;
        if sl >= 262 {
            // The field completes here; nothing of the budget is left.
            assert(stepped.0.cycles == 0);
            assert(sum_chunks(chunks.drop_first()) == 0);
            lemma_clock_run_zero(stepped.0, chunks.drop_first());
        } else {
            lemma_clock_run_from(stepped.0, chunks.drop_first());
        }
    } else {
        lemma_clock_run_from(stepped.0, chunks.drop_first());
    }
}

/// The picture processor: character ROM, the two physical nametable
/// pages, palette RAM, sprite attribute memory, the register file and the
/// scanline clock.
pub struct Ppu {
    pub chr_rom: Vec<u8>,
    pub palette_table: Vec<u8>,
    pub vram: Vec<u8>,
    pub oam_data: Vec<u8>,
    pub oam_addr: u8,
    pub mirroring: Mirroring,
    pub ctrl: ControlRegister,
    pub mask: MaskRegister,
    pub addr: AddrRegister,
    pub stat: StatusRegister,
    pub scroll: ScrollRegister,
    pub internal_buf: u8,
    pub scanline: u16,
    pub cycles: usize,
    pub nmi_interrupt: Option<u8>,
}

/// The byte the data port fetches from the pattern region; reads beyond
/// the character ROM are unmapped and yield 0.
pub open spec fn chr_byte_spec(chr: Seq<u8>, addr: u16) -> u8 {
    if addr < chr.len() {
        chr[addr as int]
    } else {
        0
    }
}

/// What one data-port store does: the store lands in the nametables or
/// the palette and the pointer advances; stores into the pattern region
/// or the unused span are faults and leave the state unchanged.
pub open spec fn write_data_rel(pre: Ppu, post: Ppu, value: u8, r: Result<(), EmuError>) -> bool {
    let addr = addr_get_spec(pre.addr);
    if addr <= 0x1fff {
        r == Err::<(), EmuError>(EmuError::WriteToChrRom { addr }) && post == pre
    } else if addr <= 0x2fff {
        r == Ok::<(), EmuError>(()) && post.vram@ == pre.vram@.update(
            mirror_vram_addr_spec(pre.mirroring, addr) as int % 0x800,
            value,
        ) && post == (Ppu {
            vram: post.vram,
            addr: addr_inc_spec(pre.addr, ctrl_increment_spec(pre.ctrl)),
            ..pre
        })
    } else if addr <= 0x3eff {
        r == Err::<(), EmuError>(EmuError::PpuForbiddenRange { addr }) && post == pre
    } else {
        r == Ok::<(), EmuError>(()) && post.palette_table@ == pre.palette_table@.update(
            palette_index_spec(addr) as int,
            value,
        ) && post == (Ppu {
            palette_table: post.palette_table,
            addr: addr_inc_spec(pre.addr, ctrl_increment_spec(pre.ctrl)),
            ..pre
        })
    }
}

/// What one data-port read returns: pattern and nametable reads return
/// the previously buffered byte; palette reads return immediately; the
/// unused span is a fault.
pub open spec fn read_data_result_spec(pre: Ppu) -> Result<u8, EmuError> {
    let addr = addr_get_spec(pre.addr);
    if addr <= 0x2fff {
        Ok(pre.internal_buf)
    } else if addr <= 0x3eff {
        Err(EmuError::PpuForbiddenRange { addr })
    } else {
        Ok(pre.palette_table@[palette_index_spec(addr) as int])
    }
}

/// The state after one data-port read: the buffer is refilled from the
/// current location for pattern and nametable reads, and the pointer
/// advances; a faulting read leaves the state unchanged.
pub open spec fn read_data_post_spec(pre: Ppu) -> Ppu {
    let addr = addr_get_spec(pre.addr);
    let bumped = addr_inc_spec(pre.addr, ctrl_increment_spec(pre.ctrl));
    if addr <= 0x1fff {
        Ppu { internal_buf: chr_byte_spec(pre.chr_rom@, addr), addr: bumped, ..pre }
    } else if addr <= 0x2fff {
        Ppu {
            internal_buf: pre.vram@[mirror_vram_addr_spec(pre.mirroring, addr) as int % 0x800],
            addr: bumped,
            ..pre
        }
    } else if addr <= 0x3eff {
        pre
    } else {
        Ppu { addr: bumped, ..pre }
    }
}

/// The state after a status read: the vertical-blank flag and the shared
/// write latch are cleared.
pub open spec fn read_status_post_spec(pre: Ppu) -> Ppu {
    Ppu {
        stat: StatusRegister { bits: pre.stat.bits & !STAT_VBLANK },
        addr: addr_reset_latch_spec(pre.addr),
        scroll: ScrollRegister {
            scroll_x: pre.scroll.scroll_x,
            scroll_y: pre.scroll.scroll_y,
            latch: false,
        },
        ..pre
    }
}

/// The state after a control write: turning the interrupt enable on while
/// the vertical-blank flag is set raises the interrupt immediately.
pub open spec fn write_ctrl_post_spec(pre: Ppu, value: u8) -> Ppu {
    Ppu {
        ctrl: ControlRegister { bits: value },
        nmi_interrupt: if pre.ctrl.bits & CTRL_GENERATE_NMI == 0 && value & CTRL_GENERATE_NMI != 0
            && pre.stat.bits & STAT_VBLANK != 0 {
            Some(1u8)
        } else {
            pre.nmi_interrupt
        },
        ..pre
    }
}

/// What one clock advance by `n` cycles does, and whether it signalled a
/// completed field.
pub open spec fn tick_rel(pre: Ppu, post: Ppu, n: u8, r: bool) -> bool {
    &&& clock_of(post) == clock_tick_spec(clock_of(pre), n).0
    &&& r == clock_tick_spec(clock_of(pre), n).1
    &&& post.stat.bits & 0x3f == pre.stat.bits & 0x3f
    &&& (post.nmi_interrupt is Some ==> post.nmi_interrupt == Some(1u8) || post.nmi_interrupt
        == pre.nmi_interrupt)
    &&& post.vram@ == pre.vram@
    &&& post.palette_table@ == pre.palette_table@
    &&& post.chr_rom@ == pre.chr_rom@
    &&& post.oam_data@ == pre.oam_data@
    &&& post.oam_addr == pre.oam_addr
    &&& post.mirroring == pre.mirroring
    &&& post.ctrl == pre.ctrl
    &&& post.mask == pre.mask
    &&& post.addr == pre.addr
    &&& post.scroll == pre.scroll
    &&& post.internal_buf == pre.internal_buf
}

/// The clock-facing portion of the state.
pub open spec fn clock_of(p: Ppu) -> PpuClock {
    PpuClock {
        scanline: p.scanline,
        cycles: p.cycles,
        vblank: p.stat.bits & STAT_VBLANK != 0,
        sprite_zero_hit: p.stat.bits & STAT_SPRITE_ZERO_HIT != 0,
        nmi_enabled: p.ctrl.bits & CTRL_GENERATE_NMI != 0,
        nmi_pending: p.nmi_interrupt is Some,
    }
}

impl Ppu {
    /// Structural soundness: the memories have their hardware sizes, the
    /// assembled VRAM pointer stays within 14 bits and the clock is
    /// within one frame.
    pub open spec fn wf(&self) -> bool {
        &&& self.vram@.len() == 2048
        &&& self.palette_table@.len() == 32
        &&& self.oam_data@.len() == 256
        &&& addr_get_spec(self.addr) <= 0x3fff
        &&& self.cycles < 341
        &&& self.scanline <= 261
    }

    pub fn new(chr_rom: Vec<u8>, mirroring: Mirroring) -> (r: Ppu)
        ensures
            r.wf(),
            r.chr_rom@ == chr_rom@,
            r.mirroring == mirroring,
            r.vram@ == Seq::new(2048, |i: int| 0u8),
            r.palette_table@ == Seq::new(32, |i: int| 0u8),
            r.oam_data@ == Seq::new(256, |i: int| 0u8),
            r.oam_addr == 0,
            r.ctrl.bits == 0,
            r.mask.bits == 0,
            r.stat.bits == 0,
            r.addr.value == (0u8, 0u8),
            r.addr.hi_ptr == true,
            r.scroll.scroll_x == 0 && r.scroll.scroll_y == 0 && r.scroll.latch == false,
            r.internal_buf == 0,
            r.scanline == 0,
            r.cycles == 0,
            r.nmi_interrupt is None,
    {
        let r = Ppu {
            chr_rom,
            palette_table: vec![0; 32],
            vram: vec![0; 2048],
            oam_data: vec![0; 256],
            oam_addr: 0,
            mirroring,
            ctrl: ControlRegister::new(),
            mask: MaskRegister::new(),
            addr: AddrRegister::new(),
            stat: StatusRegister::new(),
            scroll: ScrollRegister::new(),
            internal_buf: 0,
            scanline: 0,
            cycles: 0,
            nmi_interrupt: None,
        };
        proof {
            assert(r.vram@ =~= Seq::new(2048, |i: int| 0u8));
            assert(r.palette_table@ =~= Seq::new(32, |i: int| 0u8));
            assert(r.oam_data@ =~= Seq::new(256, |i: int| 0u8));
        }
        r
    }

    /// A processor wired to a blank 2 KiB character bank, as the register
    /// tests use it.
    pub fn new_empty_rom() -> (r: Ppu)
        ensures
            r.wf(),
            r.chr_rom@ == Seq::new(2048, |i: int| 0u8),
            r.mirroring == Mirroring::Horizontal,
            r.vram@ == Seq::new(2048, |i: int| 0u8),
            r.ctrl.bits == 0,
            r.stat.bits == 0,
            r.addr.value == (0u8, 0u8) && r.addr.hi_ptr == true,
            r.internal_buf == 0,
            r.nmi_interrupt is None,
    {
        let chr: Vec<u8> = vec![0; 2048];
        proof {
            assert(chr@ =~= Seq::new(2048, |i: int| 0u8));
        }
        Ppu::new(chr, Mirroring::Horizontal)
    }

    /// Write the control register. Turning the interrupt enable on while
    /// the vertical-blank flag is set raises the interrupt immediately.
    pub fn write_to_ctrl(&mut self, value: u8)
        requires
            old(self).wf(),
        ensures
            final(self).wf(),
            *final(self) == write_ctrl_post_spec(*old(self), value),
    {
        let prev_nmi_status = self.ctrl.generate_vblank_nmi();
        self.ctrl.update(value);
        if !prev_nmi_status && self.ctrl.generate_vblank_nmi() && self.stat.is_in_vblank() {
            self.nmi_interrupt = Some(1);
        }
    }

    pub fn write_to_mask(&mut self, value: u8)
        requires
            old(self).wf(),
        ensures
            final(self).wf(),
            final(self).mask.bits == value,
            *final(self) == (Ppu { mask: MaskRegister { bits: value }, ..*old(self) }),
    {
        self.mask.update(value);
    }

    pub fn write_to_scroll(&mut self, value: u8)
        requires
            old(self).wf(),
        ensures
            final(self).wf(),
            *final(self) == (Ppu {
                scroll: scroll_write_spec(old(self).scroll, value),
                ..*old(self)
            }),
    {
        self.scroll.write(value);
    }

    /// Feed one byte of the VRAM pointer through the shared latch.
    pub fn write_to_ppu_addr(&mut self, value: u8)
        requires
            old(self).wf(),
        ensures
            final(self).wf(),
            *final(self) == (Ppu { addr: addr_update_spec(old(self).addr, value), ..*old(self) }),
    {
        self.addr.update(value);
        proof {
            lemma_addr_update_bounded(old(self).addr, value);
        }
    }

    pub fn write_to_oam_addr(&mut self, value: u8)
        requires
            old(self).wf(),
        ensures
            final(self).wf(),
            *final(self) == (Ppu { oam_addr: value, ..*old(self) }),
    {
        self.oam_addr = value;
    }

    /// Store at the sprite-memory cursor and advance it.
    pub fn write_to_oam_data(&mut self, value: u8)
        requires
            old(self).wf(),
        ensures
            final(self).wf(),
            final(self).oam_data@ == old(self).oam_data@.update(old(self).oam_addr as int, value),
            final(self).oam_addr == (old(self).oam_addr + 1) % 0x100,
            *final(self) == (Ppu {
                oam_data: final(self).oam_data,
                oam_addr: final(self).oam_addr,
                ..*old(self)
            }),
    {
        let i = self.oam_addr as usize;
        self.oam_data[i] = value;
        self.oam_addr = self.oam_addr.wrapping_add(1);
    }

    pub fn read_oam_data(&self) -> (r: u8)
        requires
            self.wf(),
        ensures
            r == self.oam_data@[self.oam_addr as int],
    {
        self.oam_data[self.oam_addr as usize]
    }

    /// Read the status register: the returned snapshot is taken before
    /// the vertical-blank flag is cleared and the shared write latch is
    /// reset.
    pub fn read_status(&mut self) -> (r: u8)
        requires
            old(self).wf(),
        ensures
            final(self).wf(),
            r == old(self).stat.bits,
            *final(self) == read_status_post_spec(*old(self)),
    {
        let data = self.stat.snapshot();
        self.stat.clear_vblank_status();
        self.addr.reset_latch();
        self.scroll.reset_latch();
        data
    }

    fn inc_vram_addr(&mut self)
        requires
            old(self).wf(),
        ensures
            final(self).wf(),
            *final(self) == (Ppu {
                addr: addr_inc_spec(old(self).addr, ctrl_increment_spec(old(self).ctrl)),
                ..*old(self)
            }),
    {
        let by = self.ctrl.inc_vram_addr();
        self.addr.inc(by);
        proof {
            lemma_addr_inc_bounded(old(self).addr, by);
        }
    }

    /// Store through the data port at the assembled VRAM pointer, then
    /// advance the pointer. Stores into the pattern region or the unused
    /// span are faults and leave the state unchanged.
    pub fn write_to_data(&mut self, value: u8) -> (r: Result<(), EmuError>)
        requires
            old(self).wf(),
        ensures
            final(self).wf(),
            write_data_rel(*old(self), *final(self), value, r),
    {
        let addr = self.addr.get();
        if addr <= 0x1fff {
            Err(EmuError::WriteToChrRom { addr })
        } else if addr <= 0x2fff {
            let idx = (self.mirror_vram_addr(addr) % 0x800) as usize;
            self.vram[idx] = value;
            self.inc_vram_addr();
            Ok(())
        } else if addr <= 0x3eff {
            Err(EmuError::PpuForbiddenRange { addr })
        } else {
            let i = ((addr - 0x3f00) % 0x20) as usize;
            let i = if i == 0x10 || i == 0x14 || i == 0x18 || i == 0x1c {
                i - 0x10
            } else {
                i
            };
            self.palette_table[i] = value;
            self.inc_vram_addr();
            Ok(())
        }
    }

    /// Read through the data port at the assembled VRAM pointer, then
    /// advance the pointer. Pattern and nametable reads are buffered: they
    /// return the previously buffered byte and refill the buffer from the
    /// current location; palette reads return immediately.
    pub fn read_data(&mut self) -> (r: Result<u8, EmuError>)
        requires
            old(self).wf(),
        ensures
            final(self).wf(),
            r == read_data_result_spec(*old(self)),
            *final(self) == read_data_post_spec(*old(self)),
    {
        let addr = self.addr.get();
        if addr <= 0x1fff {
            let res = self.internal_buf;
            self.internal_buf = if (addr as usize) < self.chr_rom.len() {
                self.chr_rom[addr as usize]
            } else {
                0
            };
            self.inc_vram_addr();
            Ok(res)
        } else if addr <= 0x2fff {
            let res = self.internal_buf;
            let idx = (self.mirror_vram_addr(addr) % 0x800) as usize;
            self.internal_buf = self.vram[idx];
            self.inc_vram_addr();
            Ok(res)
        } else if addr <= 0x3eff {
            Err(EmuError::PpuForbiddenRange { addr })
        } else {
            let i = ((addr - 0x3f00) % 0x20) as usize;
            let i = if i == 0x10 || i == 0x14 || i == 0x18 || i == 0x1c {
                i - 0x10
            } else {
                i
            };
            let res = self.palette_table[i];
            self.inc_vram_addr();
            Ok(res)
        }
    }

    /// Map a nametable address to an index into the two physical pages.
    pub fn mirror_vram_addr(&self, addr: u16) -> (r: u16)
        requires
            0x2000 <= addr <= 0x3eff,
        ensures
            r == mirror_vram_addr_spec(self.mirroring, addr),
            self.mirroring != Mirroring::FourScreen ==> r < 0x800,
    {
        let mirrored_vram = if addr >= 0x3000 {
            addr - 0x1000
        } else {
            addr
        };
        let vram_index = mirrored_vram - 0x2000;
        let name_table = vram_index / 0x400;
        match self.mirroring {
            Mirroring::Vertical => {
                if name_table == 2 || name_table == 3 {
                    vram_index - 0x800
                } else {
                    vram_index
                }
            },
            Mirroring::Horizontal => {
                if name_table == 1 || name_table == 2 {
                    vram_index - 0x400
                } else if name_table == 3 {
                    vram_index - 0x800
                } else {
                    vram_index
                }
            },
            Mirroring::FourScreen => vram_index,
        }
    }

    /// Advance the clock by `cycles` picture-processor cycles; the result
    /// says whether a visible field was completed.
    pub fn tick(&mut self, cycles: u8) -> (r: bool)
        requires
            old(self).wf(),
        ensures
            final(self).wf(),
            tick_rel(*old(self), *final(self), cycles, r),
    {
        proof {
            lemma_status_bits(old(self).stat.bits);
        }
        self.cycles = self.cycles + cycles as usize;
        if self.cycles >= 341 {
            self.cycles = self.cycles - 341;
            self.scanline = self.scanline + 1;
            if self.scanline == 241 {
                self.stat.set_vblank_status(true);
                self.stat.set_sprite_zero_hit(false);
                if self.ctrl.generate_vblank_nmi() {
                    self.nmi_interrupt = Some(1);
                }
            }
            if self.scanline >= 262 {
                self.scanline = 0;
                self.nmi_interrupt = None;
                self.stat.set_sprite_zero_hit(false);
                self.stat.clear_vblank_status();
                return true;
            }
        }
        false
    }
}

/// The update discipline keeps the pointer within 14 bits.
proof fn lemma_addr_update_bounded(r: AddrRegister, data: u8)
    ensures
        addr_get_spec(addr_update_spec(r, data)) <= 0x3fff,
{
}

/// The increment discipline keeps the pointer within 14 bits.
proof fn lemma_addr_inc_bounded(r: AddrRegister, by: u8)
    ensures
        addr_get_spec(addr_inc_spec(r, by)) <= 0x3fff,
{
}

/// After consuming exactly one full field's worth of cycles (341 cycles
/// for each of the 262 scanlines) from the top of the frame, in ticks of
/// any sizes, the clock has reported exactly one frame-complete signal,
/// the vertical-blank flag has risen exactly once, and it is clear again
/// with the clock back at the top of the frame.
pub proof fn lemma_one_frame_per_field(c: PpuClock, chunks: Seq<u8>)
    requires
        c.scanline == 0,
        c.cycles == 0,
        !c.vblank,
        sum_chunks(chunks) == 341 * 262,
    ensures
        ({
            let (end, frames, rises) = clock_run_spec(c, chunks);
            frames == 1 && rises == 1 && end.scanline == 0 && end.cycles == 0 && !end.vblank
        }),
{
    lemma_clock_run_from(c, chunks);
}

} // verus!
