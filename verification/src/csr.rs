//! The control-and-status register file: 4096 64-bit entries with shadow
//! masking for the supervisor views `sstatus`/`sie`/`sip` and read-only-zero
//! identification registers.

use vstd::prelude::*;

verus! {

/// Machine vendor id (read-only zero).
pub const MVENDORID: usize = 0xf11;
/// Machine architecture id (read-only zero).
pub const MARCHID: usize = 0xf12;
/// Machine implementation id (read-only zero).
pub const MIMPID: usize = 0xf13;
/// Hart id (read-only zero).
pub const MHARTID: usize = 0xf14;
/// Machine status register.
pub const MSTATUS: usize = 0x300;
/// Machine exception delegation register.
pub const MEDELEG: usize = 0x302;
/// Machine interrupt delegation register.
pub const MIDELEG: usize = 0x303;
/// Machine interrupt-enable register.
pub const MIE: usize = 0x304;
/// Machine trap-handler base address.
pub const MTVEC: usize = 0x305;
/// Machine counter enable.
pub const MCOUNTEREN: usize = 0x306;
/// Machine scratch register.
pub const MSCRATCH: usize = 0x340;
/// Machine exception program counter.
pub const MEPC: usize = 0x341;
/// Machine trap cause.
pub const MCAUSE: usize = 0x342;
/// Machine bad address or instruction.
pub const MTVAL: usize = 0x343;
/// Machine interrupt pending.
pub const MIP: usize = 0x344;
/// Supervisor status register: a masked view of `mstatus`.
pub const SSTATUS: usize = 0x100;
/// Supervisor interrupt-enable register: a view of `mie` through `mideleg`.
pub const SIE: usize = 0x104;
/// Supervisor trap-handler base address.
pub const STVEC: usize = 0x105;
/// Supervisor scratch register.
pub const SSCRATCH: usize = 0x140;
/// Supervisor exception program counter.
pub const SEPC: usize = 0x141;
/// Supervisor trap cause.
pub const SCAUSE: usize = 0x142;
/// Supervisor bad address or instruction.
pub const STVAL: usize = 0x143;
/// Supervisor interrupt pending: a view of `mip` through `mideleg`.
pub const SIP: usize = 0x144;
/// Supervisor address translation and protection.
pub const SATP: usize = 0x180;

/// `mstatus`/`sstatus` field: supervisor interrupt enable (bit 1).
pub const MASK_SIE: u64 = 1 << 1;
/// `mstatus` field: machine interrupt enable (bit 3).
pub const MASK_MIE: u64 = 1 << 3;
/// `mstatus`/`sstatus` field: supervisor previous interrupt enable (bit 5).
pub const MASK_SPIE: u64 = 1 << 5;
/// `mstatus`/`sstatus` field: user big-endian (bit 6).
pub const MASK_UBE: u64 = 1 << 6;
/// `mstatus` field: machine previous interrupt enable (bit 7).
pub const MASK_MPIE: u64 = 1 << 7;
/// `mstatus`/`sstatus` field: supervisor previous privilege (bit 8).
pub const MASK_SPP: u64 = 1 << 8;
/// `mstatus`/`sstatus` field: vector extension state (bits 10:9).
pub const MASK_VS: u64 = 3 << 9;
/// `mstatus` field: machine previous privilege (bits 12:11).
pub const MASK_MPP: u64 = 3 << 11;
/// `mstatus`/`sstatus` field: floating-point state (bits 14:13).
pub const MASK_FS: u64 = 3 << 13;
/// `mstatus`/`sstatus` field: extension state (bits 16:15).
pub const MASK_XS: u64 = 3 << 15;
/// `mstatus` field: modify privilege of loads and stores (bit 17).
pub const MASK_MPRV: u64 = 1 << 17;
/// `mstatus`/`sstatus` field: permit supervisor user-memory access (bit 18).
pub const MASK_SUM: u64 = 1 << 18;
/// `mstatus`/`sstatus` field: make executable readable (bit 19).
pub const MASK_MXR: u64 = 1 << 19;
/// `mstatus`/`sstatus` field: user XLEN (bits 33:32).
pub const MASK_UXL: u64 = 3 << 32;
/// `mstatus`/`sstatus` field: state dirty (bit 63).
pub const MASK_SD: u64 = 1 << 63;
/// The bits of `mstatus` that the `sstatus` view exposes.
pub const SSTATUS_MASK: u64 = MASK_SIE | MASK_SPIE | MASK_UBE | MASK_SPP | MASK_VS | MASK_FS
    | MASK_XS | MASK_SUM | MASK_MXR | MASK_UXL | MASK_SD;

/// `mip`/`mie` bit: supervisor software interrupt.
pub const MASK_SSIP: u64 = 1 << 1;
/// `mip`/`mie` bit: machine software interrupt.
pub const MASK_MSIP: u64 = 1 << 3;
/// `mip`/`mie` bit: supervisor timer interrupt.
pub const MASK_STIP: u64 = 1 << 5;
/// `mip`/`mie` bit: machine timer interrupt.
pub const MASK_MTIP: u64 = 1 << 7;
/// `mip`/`mie` bit: supervisor external interrupt.
pub const MASK_SEIP: u64 = 1 << 9;
/// `mip`/`mie` bit: machine external interrupt.
pub const MASK_MEIP: u64 = 1 << 11;

/// What a CSR read returns: the supervisor shadow registers read through
/// their masks, the identification registers read as zero, and every other
/// address reads its own cell.
pub open spec fn csr_read(c: Seq<u64>, addr: int) -> u64 {
    if addr == SIE {
        c[MIE as int] & c[MIDELEG as int]
    } else if addr == SIP {
        c[MIP as int] & c[MIDELEG as int]
    } else if addr == SSTATUS {
        c[MSTATUS as int] & SSTATUS_MASK
    } else if addr == MVENDORID || addr == MARCHID || addr == MIMPID || addr == MHARTID {
        0
    } else {
        c[addr]
    }
}

/// What a CSR write leaves behind: writes to the supervisor shadows change
/// only the masked bits of the machine register and preserve the rest, writes
/// to the identification registers are discarded, and every other address is
/// overwritten.
pub open spec fn csr_write(c: Seq<u64>, addr: int, v: u64) -> Seq<u64> {
    if addr == SIE {
        c.update(MIE as int, (c[MIE as int] & !c[MIDELEG as int]) | (v & c[MIDELEG as int]))
    } else if addr == SIP {
        c.update(MIP as int, (c[MIP as int] & !c[MIDELEG as int]) | (v & c[MIDELEG as int]))
    } else if addr == SSTATUS {
        c.update(MSTATUS as int, (c[MSTATUS as int] & !SSTATUS_MASK) | (v & SSTATUS_MASK))
    } else if addr == MVENDORID || addr == MARCHID || addr == MIMPID || addr == MHARTID {
        c
    } else {
        c.update(addr, v)
    }
}

/// The control-and-status register file.
pub struct Csr {
    csrs: Vec<u64>,
}

impl View for Csr {
    type V = Seq<u64>;

    closed spec fn view(&self) -> Seq<u64> {
        self.csrs@
    }
}

impl Csr {
    /// The register file always holds exactly 4096 entries.
    pub open spec fn wf(self) -> bool {
        self@.len() == 4096
    }

    /// A fresh register file with every entry zero.
    pub fn new() -> (r: Csr)
        ensures
            r.wf(),
            forall|i: int| 0 <= i < 4096 ==> r@[i] == 0,
    {
        let mut csrs: Vec<u64> = Vec::new();
        let mut i: usize = 0;
        while i < 4096
            invariant
                csrs@.len() == i,
                i <= 4096,
                forall|j: int| 0 <= j < i ==> csrs@[j] == 0,
            decreases 4096 - i,
        {
            csrs.push(0);
            i = i + 1;
        }
        Csr { csrs }
    }

    /// Read the register at `addr`, applying the shadow masks.
    pub fn load(&self, addr: usize) -> (v: u64)
        requires
            self.wf(),
            addr < 4096,
        ensures
            v == csr_read(self@, addr as int),
    {
        if addr == SIE {
            self.csrs[MIE] & self.csrs[MIDELEG]
        } else if addr == SIP {
            self.csrs[MIP] & self.csrs[MIDELEG]
        } else if addr == SSTATUS {
            self.csrs[MSTATUS] & SSTATUS_MASK
        } else if addr == MVENDORID || addr == MARCHID || addr == MIMPID || addr == MHARTID {
            0
        } else {
            self.csrs[addr]
        }
    }

    /// Write `value` to the register at `addr`, applying the shadow masks.
    pub fn store(&mut self, addr: usize, value: u64)
        requires
            old(self).wf(),
            addr < 4096,
        ensures
            final(self).wf(),
            final(self)@ == csr_write(old(self)@, addr as int, value),
    {
        if addr == SIE {
            let mideleg = self.csrs[MIDELEG];
            let mie = self.csrs[MIE];
            self.csrs[MIE] = (mie & !mideleg) | (value & mideleg);
        } else if addr == SIP {
            let mideleg = self.csrs[MIDELEG];
            let mip = self.csrs[MIP];
            self.csrs[MIP] = (mip & !mideleg) | (value & mideleg);
        } else if addr == SSTATUS {
            let mstatus = self.csrs[MSTATUS];
            self.csrs[MSTATUS] = (mstatus & !SSTATUS_MASK) | (value & SSTATUS_MASK);
        } else if addr == MVENDORID || addr == MARCHID || addr == MIMPID || addr == MHARTID {
            // Identification registers are read-only zero; discard the write.
        } else {
            self.csrs[addr] = value;
        }
        proof {
            assert(self@ =~= csr_write(old(self)@, addr as int, value));
        }
    }

    /// Whether exception cause `code` is delegated to S-mode by `medeleg`.
    pub fn is_medelegated(&self, code: u64) -> (r: bool)
        requires
            self.wf(),
            code < 64,
        ensures
            r == ((self@[MEDELEG as int] >> code) & 1 == 1),
    {
        (self.csrs[MEDELEG] >> code) & 1 == 1
    }

    /// Whether interrupt cause `code` is delegated to S-mode by `mideleg`.
    pub fn is_midelegated(&self, code: u64) -> (r: bool)
        requires
            self.wf(),
            code < 64,
        ensures
            r == ((self@[MIDELEG as int] >> code) & 1 == 1),
    {
        (self.csrs[MIDELEG] >> code) & 1 == 1
    }
}

/// Writing through a masked view changes exactly the masked bits: the view
/// reads back the stored bits under the mask, and the backing bits outside
/// the mask keep their old value.
pub proof fn lemma_masked_write(m: u64, v: u64, mask: u64)
    by (bit_vector)
    ensures
        ((m & !mask) | (v & mask)) & mask == v & mask,
        ((m & !mask) | (v & mask)) & !mask == m & !mask,
{
}

/// The `sstatus` shadow law: after storing `v` to `sstatus`, loading
/// `sstatus` returns `v & SSTATUS_MASK`, and the bits of `mstatus` outside
/// `SSTATUS_MASK` are unchanged.
pub proof fn lemma_sstatus_shadow(c: Seq<u64>, v: u64)
    requires
        c.len() == 4096,
    ensures
        csr_read(csr_write(c, SSTATUS as int, v), SSTATUS as int) == v & SSTATUS_MASK,
        csr_write(c, SSTATUS as int, v)[MSTATUS as int] & !SSTATUS_MASK == c[MSTATUS as int]
            & !SSTATUS_MASK,
{
    lemma_masked_write(c[MSTATUS as int], v, SSTATUS_MASK);
}

} // verus!
