//! Byte-addressable backing store with little-endian 8/16/32/64-bit access.

use vstd::prelude::*;
use crate::exception::Exception;
use crate::param::{DRAM_BASE, DRAM_SIZE};

verus! {

/// Byte `j` of `v` in little-endian order: the low byte after shifting `v`
/// right by `j` bytes.
pub open spec fn byte_of(v: u64, j: u64) -> u8
    decreases j,
{
    if j == 0 {
        (v & 0xff) as u8
    } else {
        byte_of(v >> 8, (j - 1) as u64)
    }
}

/// The value read by composing `n` little-endian bytes of `mem` starting at
/// `index`.
pub open spec fn le_read(mem: Seq<u8>, index: int, n: u64) -> u64
    decreases n,
{
    if n == 0 {
        0
    } else {
        (mem[index] as u64) | (le_read(mem, index + 1, (n - 1) as u64) << 8)
    }
}

/// `mem` with the `n` low-order bytes of `value` written at `index` in
/// little-endian order; all other bytes unchanged.
pub open spec fn le_write(mem: Seq<u8>, index: int, n: u64, value: u64) -> Seq<u8>
    decreases n,
{
    if n == 0 {
        mem
    } else {
        le_write(mem.update(index, (value & 0xff) as u8), index + 1, (n - 1) as u64, value >> 8)
    }
}

/// Whether `size` is one of the supported access widths, in bits.
pub open spec fn valid_access_size(size: u64) -> bool {
    size == 8 || size == 16 || size == 32 || size == 64
}

/// What a DRAM load returns: a fault for an unsupported width or an access
/// that runs past the end of memory, else the little-endian composition of
/// the addressed bytes.
pub open spec fn dram_load_val(mem: Seq<u8>, addr: u64, size: u64) -> Result<u64, Exception> {
    if !valid_access_size(size) {
        Err(Exception::LoadAccessFault(addr))
    } else if addr - DRAM_BASE + size / 8 > DRAM_SIZE {
        Err(Exception::LoadAccessFault(addr))
    } else {
        Ok(le_read(mem, addr - DRAM_BASE, size / 8))
    }
}

/// What a DRAM store leaves behind: on success the addressed bytes hold the
/// low-order bytes of `value` in little-endian order; a faulting store leaves
/// memory unchanged.
pub open spec fn dram_store_mem(mem: Seq<u8>, addr: u64, size: u64, value: u64) -> Seq<u8> {
    if !valid_access_size(size) || addr - DRAM_BASE + size / 8 > DRAM_SIZE {
        mem
    } else {
        le_write(mem, addr - DRAM_BASE, size / 8, value)
    }
}

/// Whether a DRAM store succeeds, mirroring the load rule.
pub open spec fn dram_store_res(mem: Seq<u8>, addr: u64, size: u64) -> Result<(), Exception> {
    if !valid_access_size(size) || addr - DRAM_BASE + size / 8 > DRAM_SIZE {
        Err(Exception::StoreAMOAccessFault(addr))
    } else {
        Ok(())
    }
}

/// The DRAM backing store.
pub struct Dram {
    dram: Vec<u8>,
}

impl View for Dram {
    type V = Seq<u8>;

    closed spec fn view(&self) -> Seq<u8> {
        self.dram@
    }
}

impl Dram {
    /// DRAM always holds exactly `DRAM_SIZE` bytes.
    pub open spec fn wf(self) -> bool {
        self@.len() == DRAM_SIZE
    }

    /// Fresh DRAM holding `code` at offset zero and zero bytes above it.
    pub fn new(code: Vec<u8>) -> (r: Dram)
        requires
            code@.len() <= DRAM_SIZE,
        ensures
            r.wf(),
            forall|i: int| 0 <= i < code@.len() ==> r@[i] == code@[i],
            forall|i: int| code@.len() <= i < DRAM_SIZE ==> r@[i] == 0,
    {
        let mut dram = code;
        dram.resize(DRAM_SIZE as usize, 0);
        Dram { dram }
    }

    /// Load `size` bits from `addr`, composing little-endian bytes.
    pub fn load(&self, addr: u64, size: u64) -> (r: Result<u64, Exception>)
        requires
            self.wf(),
            addr >= DRAM_BASE,
        ensures
            r == dram_load_val(self@, addr, size),
    {
        if !(size == 8 || size == 16 || size == 32 || size == 64) {
            return Err(Exception::LoadAccessFault(addr));
        }
        let nbytes = size / 8;
        if addr - DRAM_BASE > DRAM_SIZE - nbytes {
            return Err(Exception::LoadAccessFault(addr));
        }
        let index = (addr - DRAM_BASE) as usize;
        let mut code: u64 = 0;
        let mut i = nbytes as usize;
        while i > 0
            invariant
                self.wf(),
                addr >= DRAM_BASE,
                nbytes == size / 8,
                i <= nbytes,
                addr - DRAM_BASE + nbytes <= DRAM_SIZE,
                index == addr - DRAM_BASE,
                valid_access_size(size),
                code == le_read(self@, index + i, (nbytes - i) as u64),
            decreases i,
        {
            i = i - 1;
            code = (self.dram[index + i] as u64) | (code << 8);
        }
        Ok(code)
    }

    /// Store the low `size` bits of `value` at `addr` as little-endian bytes.
    pub fn store(&mut self, addr: u64, size: u64, value: u64) -> (r: Result<(), Exception>)
        requires
            old(self).wf(),
            addr >= DRAM_BASE,
        ensures
            final(self).wf(),
            r == dram_store_res(old(self)@, addr, size),
            final(self)@ == dram_store_mem(old(self)@, addr, size, value),
    {
        if !(size == 8 || size == 16 || size == 32 || size == 64) {
            return Err(Exception::StoreAMOAccessFault(addr));
        }
        let nbytes = size / 8;
        if addr - DRAM_BASE > DRAM_SIZE - nbytes {
            return Err(Exception::StoreAMOAccessFault(addr));
        }
        let index = (addr - DRAM_BASE) as usize;
        let ghost mem0 = self@;
        let mut v = value;
        let mut i: usize = 0;
        while i < nbytes as usize
            invariant
                self@.len() == DRAM_SIZE,
                addr >= DRAM_BASE,
                nbytes == size / 8,
                i <= nbytes,
                addr - DRAM_BASE + nbytes <= DRAM_SIZE,
                index == addr - DRAM_BASE,
                valid_access_size(size),
                le_write(self@, index + i, (nbytes - i) as u64, v) == le_write(
                    mem0,
                    index as int,
                    nbytes,
                    value,
                ),
            decreases nbytes - i,
        {
            proof {
                lemma_low_byte_in_range(v);
            }
            self.dram[index + i] = (v & 0xff) as u8;
            v = v >> 8;
            i = i + 1;
        }
        Ok(())
    }

    /// The DRAM size in bytes.
    pub fn len(&self) -> (n: usize)
        ensures
            n == self@.len(),
    {
        self.dram.len()
    }
}

/// The low byte of any value fits in a `u8`.
proof fn lemma_low_byte_in_range(v: u64)
    by (bit_vector)
    ensures
        v & 0xff < 256,
        ((v & 0xff) as u8) as u64 == v & 0xff,
{
}

/// `le_write` touches only the `n` bytes starting at `index`.
pub proof fn lemma_le_write_frame(mem: Seq<u8>, index: int, n: u64, value: u64, k: int)
    requires
        0 <= index,
        index + n <= mem.len(),
        0 <= k < mem.len(),
        k < index || index + n <= k,
    ensures
        le_write(mem, index, n, value)[k] == mem[k],
    decreases n,
{
    if n != 0 {
        lemma_le_write_frame(
            mem.update(index, (value & 0xff) as u8),
            index + 1,
            (n - 1) as u64,
            value >> 8,
            k,
        );
    }
}

/// `le_write` keeps the length of memory.
pub proof fn lemma_le_write_len(mem: Seq<u8>, index: int, n: u64, value: u64)
    requires
        0 <= index,
        index + n <= mem.len(),
    ensures
        le_write(mem, index, n, value).len() == mem.len(),
    decreases n,
{
    if n != 0 {
        lemma_le_write_len(
            mem.update(index, (value & 0xff) as u8),
            index + 1,
            (n - 1) as u64,
            value >> 8,
        );
    }
}

/// Little-endian byte order: byte `j` of the bytes written for `value` is the
/// `j`-th low-order byte of `value`.
pub proof fn lemma_le_write_byte(mem: Seq<u8>, index: int, n: u64, value: u64, j: u64)
    requires
        0 <= index,
        index + n <= mem.len(),
        j < n,
    ensures
        le_write(mem, index, n, value)[index + j] == byte_of(value, j),
    decreases n,
{
    let mem1 = mem.update(index, (value & 0xff) as u8);
    if j == 0 {
        lemma_le_write_frame(mem1, index + 1, (n - 1) as u64, value >> 8, index);
    } else {
        lemma_le_write_byte(mem1, index + 1, (n - 1) as u64, value >> 8, (j - 1) as u64);
    }
}

/// A single-byte read returns the addressed byte.
pub proof fn lemma_le_read_byte(mem: Seq<u8>, index: int)
    requires
        0 <= index < mem.len(),
    ensures
        le_read(mem, index, 1) == mem[index] as u64,
{
    let b = mem[index] as u64;
    assert(le_read(mem, index + 1, 0) == 0);
    assert(b | (0u64 << 8) == b) by (bit_vector);
}

/// Endianness law: after a 64-bit store of `value` at `addr`, a byte load at
/// `addr + j` returns the `j`-th low-order byte of `value` — the least
/// significant byte lives at the lowest address.
pub proof fn lemma_store_load_bytes(mem: Seq<u8>, addr: u64, value: u64, j: u64)
    requires
        mem.len() == DRAM_SIZE,
        addr >= DRAM_BASE,
        addr - DRAM_BASE + 8 <= DRAM_SIZE,
        j < 8,
    ensures
        dram_load_val(dram_store_mem(mem, addr, 64, value), (addr + j) as u64, 8) == Ok::<u64, Exception>(
            byte_of(value, j) as u64,
        ),
{
    let index = addr - DRAM_BASE;
    let mem2 = le_write(mem, index as int, 8, value);
    lemma_le_write_len(mem, index as int, 8, value);
    lemma_le_write_byte(mem, index as int, 8, value, j);
    lemma_le_read_byte(mem2, index + j);
}

} // verus!
