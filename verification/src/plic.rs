//! Platform-level interrupt controller: pending and enable bits per source,
//! a priority threshold, and the claim/complete register. All sources share
//! one priority, so the highest-priority claimable source is the lowest
//! pending and enabled source number.

use vstd::prelude::*;
use crate::exception::Exception;
use crate::param::{PLIC_PENDING, PLIC_SCLAIM, PLIC_SENABLE, PLIC_SPRIORITY};

verus! {

/// The lowest set bit of `x` at position `i` or above, or 0 when none is set
/// below bit 32.
pub open spec fn first_source(x: u32, i: u64) -> u64
    decreases 32 - i,
{
    if i >= 32 {
        0
    } else if (x >> i) & 1 == 1 {
        i
    } else {
        first_source(x, (i + 1) as u64)
    }
}

/// The platform interrupt controller's registers.
#[derive(Debug, Clone, Copy, PartialEq, Eq, Structural)]
pub struct Plic {
    /// Pending bit per interrupt source.
    pub pending: u32,
    /// Supervisor enable bit per interrupt source.
    pub senable: u32,
    /// Supervisor priority threshold.
    pub spriority: u32,
    /// Last value written to the claim/complete register.
    pub sclaim: u32,
}

/// The source a claim read returns: the lowest pending and enabled source
/// number (sources count from 1), or 0 when none is claimable.
pub open spec fn plic_claim_val(p: Plic) -> u64 {
    first_source(p.pending & p.senable, 1)
}

/// What a PLIC load returns: the addressed register, a claim read returning
/// the claimable source, zero elsewhere, and a fault for widths other than 32
/// bits.
pub open spec fn plic_load_val(p: Plic, addr: u64, size: u64) -> Result<u64, Exception> {
    if size != 32 {
        Err(Exception::LoadAccessFault(addr))
    } else if addr == PLIC_PENDING {
        Ok(p.pending as u64)
    } else if addr == PLIC_SENABLE {
        Ok(p.senable as u64)
    } else if addr == PLIC_SPRIORITY {
        Ok(p.spriority as u64)
    } else if addr == PLIC_SCLAIM {
        Ok(plic_claim_val(p))
    } else {
        Ok(0)
    }
}

/// What a PLIC load leaves behind: a claim read clears the pending bit of the
/// source it returns; every other load leaves the registers unchanged.
pub open spec fn plic_load_post(p: Plic, addr: u64, size: u64) -> Plic {
    if size == 32 && addr == PLIC_SCLAIM {
        Plic { pending: p.pending & !(1u32 << plic_claim_val(p)), ..p }
    } else {
        p
    }
}

/// What a PLIC store leaves behind: the addressed register replaced by the
/// low 32 bits of the value; a write to claim/complete acknowledges the
/// source and is recorded; stores elsewhere are discarded.
pub open spec fn plic_store_post(p: Plic, addr: u64, size: u64, value: u64) -> Plic {
    if size != 32 {
        p
    } else if addr == PLIC_PENDING {
        Plic { pending: (value & 0xffff_ffff) as u32, ..p }
    } else if addr == PLIC_SENABLE {
        Plic { senable: (value & 0xffff_ffff) as u32, ..p }
    } else if addr == PLIC_SPRIORITY {
        Plic { spriority: (value & 0xffff_ffff) as u32, ..p }
    } else if addr == PLIC_SCLAIM {
        Plic { sclaim: (value & 0xffff_ffff) as u32, ..p }
    } else {
        p
    }
}

/// Whether a PLIC store succeeds: only 32-bit stores are accepted.
pub open spec fn plic_store_res(addr: u64, size: u64) -> Result<(), Exception> {
    if size != 32 {
        Err(Exception::StoreAMOAccessFault(addr))
    } else {
        Ok(())
    }
}

/// The low 32 bits of any value fit in a `u32`.
proof fn lemma_low_word_in_range(v: u64)
    by (bit_vector)
    ensures
        v & 0xffff_ffff < 0x1_0000_0000,
        ((v & 0xffff_ffff) as u32) as u64 == v & 0xffff_ffff,
{
}

impl Plic {
    /// A fresh PLIC with all registers zero.
    pub fn new() -> (r: Plic)
        ensures
            r == (Plic { pending: 0, senable: 0, spriority: 0, sclaim: 0 }),
    {
        Plic { pending: 0, senable: 0, spriority: 0, sclaim: 0 }
    }

    /// The lowest pending and enabled source, or 0 when none.
    fn claimable(&self) -> (r: u64)
        ensures
            r == plic_claim_val(*self),
            r < 32,
    {
        let word = self.pending & self.senable;
        let mut i: u64 = 1;
        while i < 32
            invariant
                1 <= i <= 32,
                word == self.pending & self.senable,
                first_source(word, 1) == first_source(word, i),
            decreases 32 - i,
        {
            if (word >> i) & 1 == 1 {
                proof {
                    assert(first_source(word, i) == i);
                }
                return i;
            }
            i = i + 1;
        }
        0
    }

    /// Load `size` bits from the PLIC window at `addr`; a read of the claim
    /// register claims the lowest pending enabled source and clears its
    /// pending bit.
    pub fn load(&mut self, addr: u64, size: u64) -> (r: Result<u64, Exception>)
        ensures
            r == plic_load_val(*old(self), addr, size),
            *final(self) == plic_load_post(*old(self), addr, size),
    {
        if size != 32 {
            return Err(Exception::LoadAccessFault(addr));
        }
        if addr == PLIC_PENDING {
            Ok(self.pending as u64)
        } else if addr == PLIC_SENABLE {
            Ok(self.senable as u64)
        } else if addr == PLIC_SPRIORITY {
            Ok(self.spriority as u64)
        } else if addr == PLIC_SCLAIM {
            let irq = self.claimable();
            self.pending = self.pending & !(1u32 << irq);
            Ok(irq)
        } else {
            Ok(0)
        }
    }

    /// Store the low 32 bits of `value` into the PLIC window at `addr`.
    pub fn store(&mut self, addr: u64, size: u64, value: u64) -> (r: Result<(), Exception>)
        ensures
            r == plic_store_res(addr, size),
            *final(self) == plic_store_post(*old(self), addr, size, value),
    {
        if size != 32 {
            return Err(Exception::StoreAMOAccessFault(addr));
        }
        proof {
            lemma_low_word_in_range(value);
        }
        let word = (value & 0xffff_ffff) as u32;
        if addr == PLIC_PENDING {
            self.pending = word;
        } else if addr == PLIC_SENABLE {
            self.senable = word;
        } else if addr == PLIC_SPRIORITY {
            self.spriority = word;
        } else if addr == PLIC_SCLAIM {
            self.sclaim = word;
        }
        Ok(())
    }

    /// Latch a device's interrupt line: set the pending bit of `irq`.
    pub fn raise(&mut self, irq: u64)
        requires
            irq < 32,
        ensures
            *final(self) == (Plic { pending: old(self).pending | (1u32 << irq), ..*old(self) }),
    {
        self.pending = self.pending | (1u32 << irq);
    }
}

} // verus!
