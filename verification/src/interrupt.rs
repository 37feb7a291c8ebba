//! The platform's interrupt taxonomy and cause encoding.

use vstd::prelude::*;
use crate::param::MASK_INTERRUPT_BIT;

verus! {

/// An asynchronous trap source. An interrupt `i` traps to M-mode when either
/// the current mode is below M or the current mode is M with `mstatus.MIE`
/// set, provided bit `i` is pending and enabled and not delegated by
/// `mideleg`; delegated interrupts trap to S-mode under the analogous rule
/// with `sstatus.SIE`. Simultaneous interrupts are taken in decreasing
/// priority order MEI, MSI, MTI, SEI, SSI, STI.
#[derive(Debug, Clone, Copy, PartialEq, Eq, Structural)]
pub enum Interrupt {
    SupervisorSoftwareInterrupt,
    MachineSoftwareInterrupt,
    SupervisorTimerInterrupt,
    MachineTimerInterrupt,
    SupervisorExternalInterrupt,
    MachineExternalInterrupt,
}

impl Interrupt {
    /// The interrupt's bit position in `mie`/`mip`.
    pub open spec fn spec_bit(self) -> u64 {
        match self {
            Interrupt::SupervisorSoftwareInterrupt => 1,
            Interrupt::MachineSoftwareInterrupt => 3,
            Interrupt::SupervisorTimerInterrupt => 5,
            Interrupt::MachineTimerInterrupt => 7,
            Interrupt::SupervisorExternalInterrupt => 9,
            Interrupt::MachineExternalInterrupt => 11,
        }
    }

    /// The trap cause: the bit position with the interrupt bit set on top.
    pub open spec fn spec_code(self) -> u64 {
        self.spec_bit() | MASK_INTERRUPT_BIT
    }

    /// Trap cause code of this interrupt, as written to `mcause`/`scause`.
    pub fn code(self) -> (c: u64)
        ensures
            c == self.spec_code(),
    {
        match self {
            Interrupt::SupervisorSoftwareInterrupt => 1 | MASK_INTERRUPT_BIT,
            Interrupt::MachineSoftwareInterrupt => 3 | MASK_INTERRUPT_BIT,
            Interrupt::SupervisorTimerInterrupt => 5 | MASK_INTERRUPT_BIT,
            Interrupt::MachineTimerInterrupt => 7 | MASK_INTERRUPT_BIT,
            Interrupt::SupervisorExternalInterrupt => 9 | MASK_INTERRUPT_BIT,
            Interrupt::MachineExternalInterrupt => 11 | MASK_INTERRUPT_BIT,
        }
    }
}

} // verus!
