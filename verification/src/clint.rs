//! Core-local interruptor: the machine timer (`mtime`) and its comparator
//! (`mtimecmp`), with little-endian sub-word access.

use vstd::prelude::*;
use crate::exception::Exception;
use crate::param::{CLINT_MTIME, CLINT_MTIMECMP};
use crate::dram::valid_access_size;

verus! {

/// The all-ones mask of an access of `size` bits.
pub open spec fn size_mask(size: u64) -> u64 {
    if size == 8 {
        0xff
    } else if size == 16 {
        0xffff
    } else if size == 32 {
        0xffff_ffff
    } else {
        0xffff_ffff_ffff_ffff
    }
}

/// The `size`-bit slice of a 64-bit register starting at byte `off`.
pub open spec fn slice_read(reg: u64, off: u64, size: u64) -> u64
    recommends
        off < 8,
{
    (reg >> ((8 * off) as u64)) & size_mask(size)
}

/// The register with its `size`-bit slice at byte `off` replaced by the low
/// bits of `v`; bits outside the slice keep their old value.
pub open spec fn slice_write(reg: u64, off: u64, size: u64, v: u64) -> u64
    recommends
        off < 8,
{
    (reg & !(size_mask(size) << ((8 * off) as u64))) | ((v & size_mask(size)) << ((8 * off)
        as u64))
}

/// Whether an access of `size` bits at `addr` lies wholly inside the 8-byte
/// register at `base`.
pub open spec fn in_reg(addr: u64, size: u64, base: u64) -> bool {
    base <= addr && addr + size / 8 <= base + 8
}

/// The machine timer and comparator registers.
#[derive(Debug, Clone, Copy, PartialEq, Eq, Structural)]
pub struct Clint {
    /// The machine timer, incremented once per executed instruction.
    pub mtime: u64,
    /// The machine-timer comparator.
    pub mtimecmp: u64,
}

/// What a CLINT load returns: the addressed slice of `mtimecmp` or `mtime`,
/// zero elsewhere in the window, and a fault for an unsupported width.
pub open spec fn clint_load_val(c: Clint, addr: u64, size: u64) -> Result<u64, Exception> {
    if !valid_access_size(size) {
        Err(Exception::LoadAccessFault(addr))
    } else if in_reg(addr, size, CLINT_MTIMECMP) {
        Ok(slice_read(c.mtimecmp, (addr - CLINT_MTIMECMP) as u64, size))
    } else if in_reg(addr, size, CLINT_MTIME) {
        Ok(slice_read(c.mtime, (addr - CLINT_MTIME) as u64, size))
    } else {
        Ok(0)
    }
}

/// What a CLINT store leaves behind: the addressed slice of `mtimecmp` or
/// `mtime` replaced, stores elsewhere in the window discarded.
pub open spec fn clint_store_post(c: Clint, addr: u64, size: u64, value: u64) -> Clint {
    if !valid_access_size(size) {
        c
    } else if in_reg(addr, size, CLINT_MTIMECMP) {
        Clint { mtimecmp: slice_write(c.mtimecmp, (addr - CLINT_MTIMECMP) as u64, size, value), ..c }
    } else if in_reg(addr, size, CLINT_MTIME) {
        Clint { mtime: slice_write(c.mtime, (addr - CLINT_MTIME) as u64, size, value), ..c }
    } else {
        c
    }
}

/// Whether a CLINT store succeeds: only unsupported widths fault.
pub open spec fn clint_store_res(addr: u64, size: u64) -> Result<(), Exception> {
    if !valid_access_size(size) {
        Err(Exception::StoreAMOAccessFault(addr))
    } else {
        Ok(())
    }
}

impl Clint {
    /// A fresh CLINT with both registers zero.
    pub fn new() -> (r: Clint)
        ensures
            r.mtime == 0,
            r.mtimecmp == 0,
    {
        Clint { mtime: 0, mtimecmp: 0 }
    }

    /// Read the `size`-bit slice of a register at byte offset `off`.
    fn reg_slice(reg: u64, off: u64, size: u64) -> (r: u64)
        requires
            off < 8,
            valid_access_size(size),
        ensures
            r == slice_read(reg, off, size),
    {
        (reg >> (8 * off)) & Self::mask_of(size)
    }

    /// The all-ones mask of an access width.
    fn mask_of(size: u64) -> (m: u64)
        requires
            valid_access_size(size),
        ensures
            m == size_mask(size),
    {
        if size == 8 {
            0xff
        } else if size == 16 {
            0xffff
        } else if size == 32 {
            0xffff_ffff
        } else {
            0xffff_ffff_ffff_ffff
        }
    }

    /// Load `size` bits from the CLINT window at `addr`.
    pub fn load(&self, addr: u64, size: u64) -> (r: Result<u64, Exception>)
        ensures
            r == clint_load_val(*self, addr, size),
    {
        if !(size == 8 || size == 16 || size == 32 || size == 64) {
            return Err(Exception::LoadAccessFault(addr));
        }
        let nbytes = size / 8;
        if addr >= CLINT_MTIMECMP && addr - CLINT_MTIMECMP <= 8 - nbytes {
            Ok(Self::reg_slice(self.mtimecmp, addr - CLINT_MTIMECMP, size))
        } else if addr >= CLINT_MTIME && addr - CLINT_MTIME <= 8 - nbytes {
            Ok(Self::reg_slice(self.mtime, addr - CLINT_MTIME, size))
        } else {
            Ok(0)
        }
    }

    /// Replace the `size`-bit slice of a register at byte offset `off`.
    fn reg_slice_write(reg: u64, off: u64, size: u64, v: u64) -> (r: u64)
        requires
            off < 8,
            valid_access_size(size),
        ensures
            r == slice_write(reg, off, size, v),
    {
        let mask = Self::mask_of(size);
        (reg & !(mask << (8 * off))) | ((v & mask) << (8 * off))
    }

    /// Store the low `size` bits of `value` into the CLINT window at `addr`.
    pub fn store(&mut self, addr: u64, size: u64, value: u64) -> (r: Result<(), Exception>)
        ensures
            r == clint_store_res(addr, size),
            *final(self) == clint_store_post(*old(self), addr, size, value),
    {
        if !(size == 8 || size == 16 || size == 32 || size == 64) {
            return Err(Exception::StoreAMOAccessFault(addr));
        }
        let nbytes = size / 8;
        if addr >= CLINT_MTIMECMP && addr - CLINT_MTIMECMP <= 8 - nbytes {
            self.mtimecmp = Self::reg_slice_write(self.mtimecmp, addr - CLINT_MTIMECMP, size, value);
        } else if addr >= CLINT_MTIME && addr - CLINT_MTIME <= 8 - nbytes {
            self.mtime = Self::reg_slice_write(self.mtime, addr - CLINT_MTIME, size, value);
        }
        Ok(())
    }

    /// Advance the machine timer by one tick.
    pub fn tick(&mut self)
        ensures
            final(self).mtime == old(self).mtime.wrapping_add(1),
            final(self).mtimecmp == old(self).mtimecmp,
    {
        self.mtime = self.mtime.wrapping_add(1);
    }

    /// Whether the timer has reached the comparator, so a machine timer
    /// interrupt is due.
    pub fn timer_pending(&self) -> (r: bool)
        ensures
            r == (self.mtime >= self.mtimecmp),
    {
        self.mtime >= self.mtimecmp
    }
}

} // verus!
