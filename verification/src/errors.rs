//! Fatal emulation faults. They indicate a buggy ROM or a wrong use of the
//! core; they are never retried. The host terminates with a diagnostic
//! naming the faulting location.

use vstd::prelude::*;

verus! {

#[derive(Debug, PartialEq, Eq, Structural, Clone, Copy)]
pub enum EmuError {
    /// A store targeted the program ROM region.
    WriteToPrgRom { addr: u16 },
    /// A store targeted the read-only picture processor status register.
    WriteToPpuStatus,
    /// A data-port store targeted the character ROM region.
    WriteToChrRom { addr: u16 },
    /// A data-port access targeted the unused span between the nametables
    /// and the palette.
    PpuForbiddenRange { addr: u16 },
    /// A store targeted an address nothing is mapped at.
    UnmappedWrite { addr: u16 },
    /// The run loop's step counter was exhausted: more instructions were
    /// executed in one run than a 64-bit counter can hold. No real
    /// program reaches this.
    StepLimit,
}

} // verus!
