//! Core of an emulator for the 8-bit home console built around the
//! MOS 6502-derived processor and its companion picture processor.
//!
//! The crate holds the cycle-counted CPU interpreter, the memory bus that
//! multiplexes work RAM, the picture processor's registers and program ROM,
//! the picture processor itself with its scanline clock and VRAM mirroring,
//! the background/sprite renderer, the cartridge image parser, and the
//! instruction tracer.

pub mod cpu;
pub mod errors;
pub mod ines;
pub mod instructions;
pub mod memory;
pub mod ppu;
pub mod render;
pub mod tile;
pub mod trace;
