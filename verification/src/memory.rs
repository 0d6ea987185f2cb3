//! The memory bus: the address decoder that multiplexes the 2 KiB work
//! RAM, the picture processor's memory-mapped registers, and program ROM,
//! and the clock coupling that advances the picture processor three of
//! its cycles for every processor cycle.

use vstd::prelude::*;

use crate::errors::EmuError;
use crate::ines::Rom;
use crate::ppu::Ppu;
use crate::ppu::clock_tick_spec;
use crate::ppu::clock_of;
use crate::ppu::read_data_post_spec;
use crate::ppu::read_data_result_spec;
use crate::ppu::read_status_post_spec;
use crate::ppu::scroll_write_spec;
use crate::ppu::tick_rel;
use crate::ppu::write_ctrl_post_spec;
use crate::ppu::write_data_rel;
use crate::ppu::addr_update_spec;
use crate::ppu::MaskRegister;

verus! {

/// The bus: work RAM, program ROM, the picture processor, the running
/// cycle counter, and the latched frame-complete signal that the host
/// polls once per completed visible field.
pub struct Bus {
    pub cpu_vram: Vec<u8>,
    pub prg_rom: Vec<u8>,
    pub ppu: Ppu,
    pub cycles: usize,
    pub frame_complete: bool,
}

/// The byte of program ROM mapped at `addr` (`0x8000..=0xffff`); a
/// 16 KiB image is mirrored into the upper half.
pub open spec fn prg_byte_spec(b: Bus, addr: u16) -> u8 {
    let i = addr - 0x8000;
    if b.prg_rom@.len() == 0x4000 {
        b.prg_rom@[i % 0x4000]
    } else {
        b.prg_rom@[i]
    }
}

/// A side-effect-free read: work RAM and program ROM read normally,
/// everything else reads as zero.
pub open spec fn bus_peek_spec(b: Bus, addr: u16) -> u8 {
    if addr <= 0x1fff {
        b.cpu_vram@[addr as int % 0x800]
    } else if addr >= 0x8000 {
        prg_byte_spec(b, addr)
    } else {
        0
    }
}

/// Two side-effect-free reads, little-endian, the second address wrapping
/// around the top of the address space.
pub open spec fn bus_peek16_spec(b: Bus, pos: u16) -> u16 {
    (bus_peek_spec(b, ((pos + 1) % 0x10000) as u16) as u16 * 0x100 + bus_peek_spec(b, pos) as u16) as u16
}

/// The register the mirrors `0x2008..=0x3fff` fold onto.
pub open spec fn reg_mirror_spec(addr: u16) -> u16 {
    if 0x2008 <= addr <= 0x3fff {
        (0x2000 + (addr % 8)) as u16
    } else {
        addr
    }
}

/// What a routed load returns: a faulting data-port read is the only
/// error; write-only registers, the stubbed input/output region and
/// unmapped spans read as zero.
pub open spec fn bus_read_result_spec(b: Bus, addr: u16) -> Result<u8, EmuError> {
    let a = reg_mirror_spec(addr);
    if a == 0x2002 {
        Ok(b.ppu.stat.bits)
    } else if a == 0x2004 {
        Ok(b.ppu.oam_data@[b.ppu.oam_addr as int])
    } else if a == 0x2007 {
        read_data_result_spec(b.ppu)
    } else {
        Ok(bus_peek_spec(b, addr))
    }
}

/// The state after a routed load: only the status and data registers
/// have read side effects.
pub open spec fn bus_read_post_spec(b: Bus, addr: u16) -> Bus {
    let a = reg_mirror_spec(addr);
    if a == 0x2002 {
        Bus { ppu: read_status_post_spec(b.ppu), ..b }
    } else if a == 0x2007 {
        Bus { ppu: read_data_post_spec(b.ppu), ..b }
    } else {
        b
    }
}

/// What an OAM direct-memory transfer does: 256 bytes from the named page
/// land in sprite memory starting at the sprite-memory cursor, which is
/// left where it was.
pub open spec fn oam_dma_rel(pre: Bus, post: Bus, page: u8) -> bool {
    &&& post.ppu.oam_data@.len() == 256
    &&& forall|i: int|
        0 <= i < 256 ==> #[trigger] post.ppu.oam_data@[i] == bus_peek_spec(
            pre,
            (page * 0x100 + dma_offset_spec(pre.ppu.oam_addr, i)) as u16,
        )
    &&& post == (Bus { ppu: Ppu { oam_data: post.ppu.oam_data, ..pre.ppu }, ..pre })
}

/// How many transfer steps it takes for the transfer starting at cursor
/// `start` to reach sprite-memory index `i`.
pub open spec fn dma_offset_spec(start: u8, i: int) -> int {
    if i >= start {
        i - start
    } else {
        i + 256 - start
    }
}

impl Bus {
    /// Structural soundness: the RAM has its hardware size, the program
    /// ROM is one or two 16 KiB pages, and the picture processor is sound.
    pub open spec fn wf(&self) -> bool {
        &&& self.cpu_vram@.len() == 0x800
        &&& self.prg_rom@.len() == 0x4000 || self.prg_rom@.len() == 0x8000
        &&& self.ppu.wf()
    }

    /// Everything outside the picture processor.
    pub open spec fn rest_unchanged(&self, o: &Bus) -> bool {
        &&& self.cpu_vram@ == o.cpu_vram@
        &&& self.prg_rom@ == o.prg_rom@
        &&& self.cycles == o.cycles
        &&& self.frame_complete == o.frame_complete
    }

    /// Wire a bus from a parsed cartridge: blank RAM, the cartridge's
    /// program ROM, and a freshly reset picture processor on its
    /// character ROM.
    pub fn new(rom: Rom) -> (r: Bus)
        requires
            rom.prg_rom@.len() == 0x4000 || rom.prg_rom@.len() == 0x8000,
        ensures
            r.wf(),
            r.cpu_vram@ == Seq::new(0x800, |i: int| 0u8),
            r.prg_rom@ == rom.prg_rom@,
            r.ppu.chr_rom@ == rom.chr_rom@,
            r.ppu.mirroring == rom.mirroring,
            r.ppu.vram@ == Seq::new(2048, |i: int| 0u8),
            r.ppu.ctrl.bits == 0 && r.ppu.stat.bits == 0 && r.ppu.mask.bits == 0,
            r.ppu.addr.value == (0u8, 0u8) && r.ppu.addr.hi_ptr == true,
            r.ppu.internal_buf == 0 && r.ppu.oam_addr == 0,
            r.ppu.scanline == 0 && r.ppu.cycles == 0,
            r.ppu.nmi_interrupt is None,
            r.cycles == 0,
            r.frame_complete == false,
    {
        let ppu = Ppu::new(rom.chr_rom, rom.mirroring);
        let vram: Vec<u8> = vec![0; 0x800];
        proof {
            assert(vram@ =~= Seq::new(0x800, |i: int| 0u8));
        }
        Bus { cpu_vram: vram, prg_rom: rom.prg_rom, ppu, cycles: 0, frame_complete: false }
    }

    /// Report `cycles` consumed processor cycles: the picture processor
    /// advances three times as far, and a completed visible field latches
    /// the frame-complete signal until the host polls it.
    pub fn tick(&mut self, cycles: u8)
        requires
            old(self).wf(),
            cycles <= 85,
        ensures
            final(self).wf(),
            tick_rel(
                old(self).ppu,
                final(self).ppu,
                (cycles * 3) as u8,
                clock_tick_spec(clock_of(old(self).ppu), (cycles * 3) as u8).1,
            ),
            final(self).frame_complete == (old(self).frame_complete || clock_tick_spec(
                clock_of(old(self).ppu),
                (cycles * 3) as u8,
            ).1),
            final(self).cpu_vram@ == old(self).cpu_vram@,
            final(self).prg_rom@ == old(self).prg_rom@,
            old(self).cycles + cycles <= usize::MAX ==> final(self).cycles == old(self).cycles
                + cycles,
    {
        self.cycles = self.cycles.wrapping_add(cycles as usize);
        let new_frame = self.ppu.tick(cycles * 3);
        if new_frame {
            self.frame_complete = true;
        }
    }

    /// Take the pending interrupt, if any.
    pub fn poll_nmi_status(&mut self) -> (r: Option<u8>)
        requires
            old(self).wf(),
        ensures
            final(self).wf(),
            r == old(self).ppu.nmi_interrupt,
            *final(self) == (Bus {
                ppu: Ppu { nmi_interrupt: None, ..old(self).ppu },
                ..*old(self)
            }),
    {
        let r = self.ppu.nmi_interrupt;
        self.ppu.nmi_interrupt = None;
        r
    }

    /// Take the latched frame-complete signal.
    pub fn poll_frame_complete(&mut self) -> (r: bool)
        requires
            old(self).wf(),
        ensures
            final(self).wf(),
            r == old(self).frame_complete,
            *final(self) == (Bus { frame_complete: false, ..*old(self) }),
    {
        let r = self.frame_complete;
        self.frame_complete = false;
        r
    }

    /// Read without side effects: work RAM and program ROM read normally,
    /// everything else (the registers included) reads as zero.
    pub fn mem_peek(&self, addr: u16) -> (r: u8)
        requires
            self.wf(),
        ensures
            r == bus_peek_spec(*self, addr),
    {
        if addr <= 0x1fff {
            self.cpu_vram[(addr % 0x800) as usize]
        } else if addr >= 0x8000 {
            self.read_prg_rom(addr)
        } else {
            0
        }
    }

    /// Two side-effect-free reads, little-endian.
    pub fn mem_peek_u16(&self, pos: u16) -> (r: u16)
        requires
            self.wf(),
        ensures
            r == bus_peek16_spec(*self, pos),
    {
        let low = self.mem_peek(pos) as u16;
        let high = self.mem_peek(pos.wrapping_add(1)) as u16;
        high * 0x100 + low
    }

    /// The byte of program ROM mapped at `addr`; a 16 KiB image is
    /// mirrored into the upper half.
    pub fn read_prg_rom(&self, addr: u16) -> (r: u8)
        requires
            self.wf(),
            addr >= 0x8000,
        ensures
            r == prg_byte_spec(*self, addr),
    {
        let mut i = (addr - 0x8000) as usize;
        if self.prg_rom.len() == 0x4000 {
            i = i % 0x4000;
        }
        self.prg_rom[i]
    }

    /// Route a load by address: work RAM (mirrored through `0x1fff`), the
    /// picture processor's readable registers (with their side effects,
    /// mirrored through `0x3fff`), the stubbed input/output region, or
    /// program ROM. Loads from write-only registers and unmapped
    /// addresses read as zero.
    pub fn mem_read(&mut self, addr: u16) -> (r: Result<u8, EmuError>)
        requires
            old(self).wf(),
        ensures
            final(self).wf(),
            r == bus_read_result_spec(*old(self), addr),
            *final(self) == bus_read_post_spec(*old(self), addr),
    {
        let a = if 0x2008 <= addr && addr <= 0x3fff {
            0x2000 + (addr % 8)
        } else {
            addr
        };
        if a <= 0x1fff {
            Ok(self.cpu_vram[(a % 0x800) as usize])
        } else if a == 0x2000 || a == 0x2001 || a == 0x2003 || a == 0x2005 || a == 0x2006 {
            Ok(0)
        } else if a == 0x2002 {
            Ok(self.ppu.read_status())
        } else if a == 0x2004 {
            Ok(self.ppu.read_oam_data())
        } else if a == 0x2007 {
            self.ppu.read_data()
        } else if a >= 0x8000 {
            Ok(self.read_prg_rom(a))
        } else {
            // The input/output region and unmapped spans read as zero.
            Ok(0)
        }
    }

    /// Route a store by address: work RAM, the picture processor's
    /// writable registers (mirrored through `0x3fff`), the sprite-memory
    /// transfer port, or the stubbed input/output region. Stores into
    /// program ROM, the status register, or unmapped addresses are
    /// faults and leave the state unchanged.
    pub fn mem_write(&mut self, addr: u16, data: u8) -> (r: Result<(), EmuError>)
        requires
            old(self).wf(),
        ensures
            final(self).wf(),
            bus_write_rel(*old(self), *final(self), addr, data, r),
    {
        let a = if 0x2008 <= addr && addr <= 0x3fff {
            0x2000 + (addr % 8)
        } else {
            addr
        };
        if a <= 0x1fff {
            let i = (a % 0x800) as usize;
            proof {
                assert(addr as int % 0x800 == a as int % 0x800);
            }
            self.cpu_vram[i] = data;
            Ok(())
        } else if a == 0x2000 {
            self.ppu.write_to_ctrl(data);
            Ok(())
        } else if a == 0x2001 {
            self.ppu.write_to_mask(data);
            Ok(())
        } else if a == 0x2002 {
            Err(EmuError::WriteToPpuStatus)
        } else if a == 0x2003 {
            self.ppu.write_to_oam_addr(data);
            Ok(())
        } else if a == 0x2004 {
            self.ppu.write_to_oam_data(data);
            Ok(())
        } else if a == 0x2005 {
            self.ppu.write_to_scroll(data);
            Ok(())
        } else if a == 0x2006 {
            self.ppu.write_to_ppu_addr(data);
            Ok(())
        } else if a == 0x2007 {
            self.ppu.write_to_data(data)
        } else if a == 0x4014 {
            self.oam_dma(data);
            Ok(())
        } else if a <= 0x4017 {
            // The audio and controller region is stubbed.
            Ok(())
        } else if a >= 0x8000 {
            Err(EmuError::WriteToPrgRom { addr })
        } else {
            Err(EmuError::UnmappedWrite { addr })
        }
    }
}

/// What a routed store does, by address range.
pub open spec fn bus_write_rel(
    pre: Bus,
    post: Bus,
    addr: u16,
    data: u8,
    r: Result<(), EmuError>,
) -> bool {
                let a = reg_mirror_spec(addr);
                if a <= 0x1fff {
                    r == Ok::<(), EmuError>(()) && post.cpu_vram@ == pre.cpu_vram@.update(addr as int % 0x800, data) && post == (Bus {
                        cpu_vram: post.cpu_vram,
                        ..pre
                    })
                } else if a == 0x2000 {
                    r == Ok::<(), EmuError>(()) && post == (Bus {
                        ppu: write_ctrl_post_spec(pre.ppu, data),
                        ..pre
                    })
                } else if a == 0x2001 {
                    r == Ok::<(), EmuError>(()) && post == (Bus {
                        ppu: Ppu { mask: MaskRegister { bits: data }, ..pre.ppu },
                        ..pre
                    })
                } else if a == 0x2002 {
                    r == Err::<(), EmuError>(EmuError::WriteToPpuStatus) && post == pre
                } else if a == 0x2003 {
                    r == Ok::<(), EmuError>(()) && post == (Bus {
                        ppu: Ppu { oam_addr: data, ..pre.ppu },
                        ..pre
                    })
                } else if a == 0x2004 {
                    r == Ok::<(), EmuError>(()) && post.ppu.oam_data@ == pre.ppu.oam_data@.update(pre.ppu.oam_addr as int, data) && post
                        == (Bus {
                        ppu: Ppu {
                            oam_data: post.ppu.oam_data,
                            oam_addr: ((pre.ppu.oam_addr + 1) % 0x100) as u8,
                            ..pre.ppu
                        },
                        ..pre
                    })
                } else if a == 0x2005 {
                    r == Ok::<(), EmuError>(()) && post == (Bus {
                        ppu: Ppu {
                            scroll: scroll_write_spec(pre.ppu.scroll, data),
                            ..pre.ppu
                        },
                        ..pre
                    })
                } else if a == 0x2006 {
                    r == Ok::<(), EmuError>(()) && post == (Bus {
                        ppu: Ppu {
                            addr: addr_update_spec(pre.ppu.addr, data),
                            ..pre.ppu
                        },
                        ..pre
                    })
                } else if a == 0x2007 {
                    write_data_rel(pre.ppu, post.ppu, data, r) && post.rest_unchanged(&pre)
                } else if a == 0x4014 {
                    r == Ok::<(), EmuError>(()) && oam_dma_rel(pre, post, data)
                } else if a <= 0x4017 {
                    r == Ok::<(), EmuError>(()) && post == pre
                } else if a >= 0x8000 {
                    r == Err::<(), EmuError>(EmuError::WriteToPrgRom { addr }) && post
                        == pre
                } else {
                    r == Err::<(), EmuError>(EmuError::UnmappedWrite { addr }) && post
                        == pre
                }
}

impl Bus {
    /// Transfer 256 bytes from the named page into sprite memory,
    /// starting at the sprite-memory cursor and wrapping within it; the
    /// cursor ends where it began.
    fn oam_dma(&mut self, page: u8)
        requires
            old(self).wf(),
        ensures
            final(self).wf(),
            oam_dma_rel(*old(self), *final(self), page),
    {
        let base = (page as u16) * 0x100;
        let mut k: usize = 0;
        while k < 256
            invariant
                0 <= k <= 256,
                base == page as int * 0x100,
                old(self).wf(),
                self.wf(),
                self.ppu.oam_data@.len() == 256,
                forall|j: int|
                    0 <= j < 256 ==> #[trigger] self.ppu.oam_data@[j] == (if dma_offset_spec(
                        old(self).ppu.oam_addr,
                        j,
                    ) < k {
                        bus_peek_spec(
                            *old(self),
                            (page * 0x100 + dma_offset_spec(old(self).ppu.oam_addr, j)) as u16,
                        )
                    } else {
                        old(self).ppu.oam_data@[j]
                    }),
                *self == (Bus {
                    ppu: Ppu { oam_data: self.ppu.oam_data, ..old(self).ppu },
                    ..*old(self)
                }),
            decreases 256 - k,
        {
            let b = self.mem_peek(base + k as u16);
            let idx = (self.ppu.oam_addr.wrapping_add(k as u8)) as usize;
            self.ppu.oam_data[idx] = b;
            k = k + 1;
        }
    }
}

/// The routing interface the processor reads and writes memory through.
pub trait Mem {
    /// Structural soundness of the routed memories.
    spec fn mem_wf(&self) -> bool;

    fn mem_read(&mut self, addr: u16) -> (r: Result<u8, EmuError>)
        requires
            old(self).mem_wf(),
        ensures
            final(self).mem_wf(),
    ;

    fn mem_read_u16(&mut self, pos: u16) -> (r: Result<u16, EmuError>)
        requires
            old(self).mem_wf(),
        ensures
            final(self).mem_wf(),
    ;

    fn mem_write(&mut self, addr: u16, data: u8) -> (r: Result<(), EmuError>)
        requires
            old(self).mem_wf(),
        ensures
            final(self).mem_wf(),
    ;

    fn mem_write_u16(&mut self, addr: u16, data: u16) -> (r: Result<(), EmuError>)
        requires
            old(self).mem_wf(),
        ensures
            final(self).mem_wf(),
    ;

    fn read_prg_rom(&self, addr: u16) -> (r: u8)
        requires
            self.mem_wf(),
            addr >= 0x8000,
    ;
}

impl Mem for Bus {
    open spec fn mem_wf(&self) -> bool {
        self.wf()
    }

    fn mem_read(&mut self, addr: u16) -> (r: Result<u8, EmuError>)
        ensures
            r == bus_read_result_spec(*old(self), addr),
            *final(self) == bus_read_post_spec(*old(self), addr),
    {
        Bus::mem_read(self, addr)
    }

    #[verifier::rlimit(100)]
    #[verifier::spinoff_prover]
    fn mem_read_u16(&mut self, pos: u16) -> (r: Result<u16, EmuError>)
        ensures
            ({
                let p1 = ((pos + 1) % 0x10000) as u16;
                let midb = bus_read_post_spec(*old(self), pos);
                match bus_read_result_spec(*old(self), pos) {
                    Ok(lo) => {
                        let post2 = bus_read_post_spec(midb, p1);
                        match bus_read_result_spec(midb, p1) {
                            Ok(hi) => r == Ok::<u16, EmuError>((hi as int * 0x100 + lo) as u16)
                                && *final(self) == post2,
                            Err(e) => r == Err::<u16, EmuError>(e) && *final(self) == midb,
                        }
                    },
                    Err(e) => r == Err::<u16, EmuError>(e) && *final(self) == midb,
                }
            }),
    {
        let low = match Bus::mem_read(self, pos) {
            Ok(v) => v as u16,
            Err(e) => {
                return Err(e);
            },
        };
        let high = match Bus::mem_read(self, pos.wrapping_add(1)) {
            Ok(v) => v as u16,
            Err(e) => {
                return Err(e);
            },
        };
        Ok(high * 0x100 + low)
    }

    fn mem_write(&mut self, addr: u16, data: u8) -> (r: Result<(), EmuError>)
        ensures
            bus_write_rel(*old(self), *final(self), addr, data, r),
    {
        Bus::mem_write(self, addr, data)
    }

    #[verifier::rlimit(100)]
    #[verifier::spinoff_prover]
    fn mem_write_u16(&mut self, pos: u16, data: u16) -> (r: Result<(), EmuError>)
        ensures
            ({
                let p1 = ((pos + 1) % 0x10000) as u16;
                let lo = (data % 0x100) as u8;
                let hi = (data / 0x100) as u8;
                match r {
                    Ok(u) => exists|midb: Bus|
                        #[trigger] bus_write_rel(*old(self), midb, pos, lo, Ok::<(), EmuError>(()))
                            && bus_write_rel(midb, *final(self), p1, hi, Ok::<(), EmuError>(())),
                    Err(e) => bus_write_rel(*old(self), *final(self), pos, lo, Err::<(), EmuError>(e))
                        || exists|midb: Bus|
                        #[trigger] bus_write_rel(*old(self), midb, pos, lo, Ok::<(), EmuError>(()))
                            && bus_write_rel(midb, *final(self), p1, hi, Err::<(), EmuError>(e)),
                }
            }),
    {
        let high = (data / 0x100) as u8;
        let low = (data % 0x100) as u8;
        match Bus::mem_write(self, pos, low) {
            Ok(()) => (),
            Err(e) => {
                return Err(e);
            },
        }
        let ghost midb = *self;
        let r = Bus::mem_write(self, pos.wrapping_add(1), high);
        proof {
            assert(bus_write_rel(*old(self), midb, pos, (data % 0x100) as u8, Ok::<(), EmuError>(()))
                && bus_write_rel(
                midb,
                *self,
                ((pos + 1) % 0x10000) as u16,
                (data / 0x100) as u8,
                r,
            ));
        }
        r
    }

    fn read_prg_rom(&self, addr: u16) -> (r: u8)
        ensures
            r == prg_byte_spec(*self, addr),
    {
        Bus::read_prg_rom(self, addr)
    }
}

} // verus!
