//! The closed set of RISC-V exceptions, their cause codes, trap values, and
//! fatality classification.

use vstd::prelude::*;

verus! {

/// An unusual condition occurring at run time, associated with an instruction
/// of the current hart. Variants carry the trap value they report: the
/// faulting address, or the offending instruction word.
#[derive(Debug, Clone, Copy, PartialEq, Eq, Structural)]
pub enum Exception {
    InstructionAddressMisaligned,
    InstructionAccessFault,
    IllegalInstruction(u32),
    Breakpoint,
    LoadAddressMisaligned,
    LoadAccessFault(u64),
    StoreAMOAddressMisaligned,
    StoreAMOAccessFault(u64),
    EnvironmentCallFromUMode,
    EnvironmentCallFromSMode,
    EnvironmentCallFromMMode,
    InstructionPageFault(u64),
    LoadPageFault(u64),
    StoreAMOPageFault(u64),
}

impl Exception {
    /// The exception cause code written to `mcause`/`scause`.
    pub open spec fn spec_code(self) -> u64 {
        match self {
            Exception::InstructionAddressMisaligned => 0,
            Exception::InstructionAccessFault => 1,
            Exception::IllegalInstruction(_) => 2,
            Exception::Breakpoint => 3,
            Exception::LoadAddressMisaligned => 4,
            Exception::LoadAccessFault(_) => 5,
            Exception::StoreAMOAddressMisaligned => 6,
            Exception::StoreAMOAccessFault(_) => 7,
            Exception::EnvironmentCallFromUMode => 8,
            Exception::EnvironmentCallFromSMode => 9,
            Exception::EnvironmentCallFromMMode => 11,
            Exception::InstructionPageFault(_) => 12,
            Exception::LoadPageFault(_) => 13,
            Exception::StoreAMOPageFault(_) => 15,
        }
    }

    /// The trap value written to `mtval`/`stval`: the faulting address, the
    /// offending instruction word, or zero.
    pub open spec fn spec_value(self) -> u64 {
        match self {
            Exception::IllegalInstruction(inst) => inst as u64,
            Exception::LoadAccessFault(addr) => addr,
            Exception::StoreAMOAccessFault(addr) => addr,
            Exception::InstructionPageFault(addr) => addr,
            Exception::LoadPageFault(addr) => addr,
            Exception::StoreAMOPageFault(addr) => addr,
            _ => 0,
        }
    }

    /// Whether the run loop must stop after delivering this exception: true
    /// exactly for the access faults, which arise from touching an unmapped
    /// address.
    pub open spec fn spec_is_fatal(self) -> bool {
        match self {
            Exception::InstructionAccessFault => true,
            Exception::LoadAccessFault(_) => true,
            Exception::StoreAMOAccessFault(_) => true,
            _ => false,
        }
    }

    /// Exception cause code, in 0..=15.
    pub fn code(self) -> (c: u64)
        ensures
            c == self.spec_code(),
            c <= 15,
    {
        match self {
            Exception::InstructionAddressMisaligned => 0,
            Exception::InstructionAccessFault => 1,
            Exception::IllegalInstruction(_) => 2,
            Exception::Breakpoint => 3,
            Exception::LoadAddressMisaligned => 4,
            Exception::LoadAccessFault(_) => 5,
            Exception::StoreAMOAddressMisaligned => 6,
            Exception::StoreAMOAccessFault(_) => 7,
            Exception::EnvironmentCallFromUMode => 8,
            Exception::EnvironmentCallFromSMode => 9,
            Exception::EnvironmentCallFromMMode => 11,
            Exception::InstructionPageFault(_) => 12,
            Exception::LoadPageFault(_) => 13,
            Exception::StoreAMOPageFault(_) => 15,
        }
    }

    /// The trap value this exception reports.
    pub fn value(self) -> (v: u64)
        ensures
            v == self.spec_value(),
    {
        match self {
            Exception::IllegalInstruction(inst) => inst as u64,
            Exception::LoadAccessFault(addr) => addr,
            Exception::StoreAMOAccessFault(addr) => addr,
            Exception::InstructionPageFault(addr) => addr,
            Exception::LoadPageFault(addr) => addr,
            Exception::StoreAMOPageFault(addr) => addr,
            _ => 0,
        }
    }

    /// Whether the run loop must stop after delivering this exception.
    pub fn is_fatal(self) -> (f: bool)
        ensures
            f == self.spec_is_fatal(),
    {
        match self {
            Exception::InstructionAccessFault => true,
            Exception::LoadAccessFault(_) => true,
            Exception::StoreAMOAccessFault(_) => true,
            _ => false,
        }
    }
}

} // verus!
