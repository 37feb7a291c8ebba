//! The hart: 32 general-purpose registers, the program counter, the current
//! privilege mode, the CSR file, and the bus. Trap delivery (machine or
//! supervisor, honouring delegation) lives here.

use vstd::prelude::*;
use vstd::string::StrSliceExecFns;
use crate::bus::{bus_load_post, bus_load_val, bus_store_post, bus_store_res, bus_wf, Bus, BusView};
use crate::clint::Clint;
use crate::interrupt::Interrupt;
use crate::plic::Plic;
use crate::uart::UartView;
use crate::virtio::VirtioView;
use crate::virtqueue::{vq_complete, vq_copy, vq_notify, vq_process_chain, vq_run};
use crate::csr::{csr_read, csr_write, Csr, MASK_MIE, MASK_MPIE, MASK_MPP, MASK_MTIP, MASK_SEIP, MASK_SIE, MASK_SPIE, MASK_SPP, MCAUSE, MEDELEG, MEPC, MCOUNTEREN, MHARTID, MIDELEG, MIE, MIP, MSCRATCH, MSTATUS, MTVAL, MTVEC, SATP, SCAUSE, SEPC, SIP, SSCRATCH, SSTATUS, STVAL, STVEC};
use crate::exception::Exception;
use crate::param::{DRAM_BASE, DRAM_SIZE, MASK_INTERRUPT_BIT, UART_IRQ, VIRTIO_IRQ};

verus! {

broadcast use crate::bus::Bus::lemma_view;

/// The privilege mode of the hart.
#[derive(Debug, Clone, Copy, PartialEq, Eq, Structural)]
pub enum Mode {
    User,
    Supervisor,
    Machine,
}

/// The two-bit encoding of a privilege mode.
pub open spec fn mode_bits(m: Mode) -> u64 {
    match m {
        Mode::User => 0,
        Mode::Supervisor => 1,
        Mode::Machine => 3,
    }
}

/// The mode a two-bit previous-privilege field names; the reserved encoding
/// reads as the least privilege.
pub open spec fn mode_of_bits(v: u64) -> Mode {
    if v == 3 {
        Mode::Machine
    } else if v == 1 {
        Mode::Supervisor
    } else {
        Mode::User
    }
}

impl Mode {
    /// The mode encoded by `value`.
    pub fn new(value: u64) -> (m: Mode)
        requires
            value == 0 || value == 1 || value == 3,
        ensures
            m == mode_of_bits(value),
    {
        if value == 3 {
            Mode::Machine
        } else if value == 1 {
            Mode::Supervisor
        } else {
            Mode::User
        }
    }

    /// The two-bit encoding of this mode.
    pub fn as_u64(self) -> (v: u64)
        ensures
            v == mode_bits(self),
    {
        match self {
            Mode::User => 0,
            Mode::Supervisor => 1,
            Mode::Machine => 3,
        }
    }

    /// Whether this mode is below machine mode.
    pub fn le_supervisor(self) -> (r: bool)
        ensures
            r == (self == Mode::User || self == Mode::Supervisor),
    {
        match self {
            Mode::User => true,
            Mode::Supervisor => true,
            Mode::Machine => false,
        }
    }
}

/// The kind of memory access, deciding which page fault a failed address
/// translation would raise (instruction, load, or store/AMO page fault).
#[derive(Debug, Clone, Copy, PartialEq, Eq, Structural)]
pub enum AccessType {
    /// An instruction fetch.
    Instruction,
    /// A data load.
    Load,
    /// A data store or atomic operation.
    Store,
}

/// The hart's visible state.
#[verifier::ext_equal]
pub struct CpuView {
    /// The 32 general-purpose registers.
    pub regs: Seq<u64>,
    /// The program counter.
    pub pc: u64,
    /// The current privilege mode.
    pub mode: Mode,
    /// The CSR file.
    pub csrs: Seq<u64>,
    /// The bus and every device behind it.
    pub bus: BusView,
}

/// Whether a trap with this cause is taken in S-mode: the hart runs below
/// M-mode and the delegation register for the cause's class (interrupt or
/// exception) has the cause's bit set.
pub open spec fn trap_target_s(s: CpuView, cause: u64) -> bool {
    let interrupt = cause & MASK_INTERRUPT_BIT != 0;
    let code = cause & !MASK_INTERRUPT_BIT;
    let deleg = if interrupt {
        s.csrs[MIDELEG as int]
    } else {
        s.csrs[MEDELEG as int]
    };
    (s.mode == Mode::User || s.mode == Mode::Supervisor) && (deleg >> code) & 1 == 1
}

/// The hart after trap delivery: in the target mode's CSRs, EPC holds the
/// trapping pc, CAUSE the cause, TVAL the trap value; the new pc is the trap
/// vector base, or base plus four times the cause for a vectored interrupt;
/// in the target STATUS, xPIE saves xIE, xIE clears, and xPP saves the
/// previous mode; the hart continues in the target mode.
pub open spec fn trap_post(s: CpuView, cause: u64, tval: u64) -> CpuView {
    let interrupt = cause & MASK_INTERRUPT_BIT != 0;
    let code = cause & !MASK_INTERRUPT_BIT;
    let to_s = trap_target_s(s, cause);
    let new_mode = if to_s {
        Mode::Supervisor
    } else {
        Mode::Machine
    };
    let status_addr = if to_s { SSTATUS } else { MSTATUS } as int;
    let tvec_addr = if to_s { STVEC } else { MTVEC } as int;
    let cause_addr = if to_s { SCAUSE } else { MCAUSE } as int;
    let tval_addr = if to_s { STVAL } else { MTVAL } as int;
    let epc_addr = if to_s { SEPC } else { MEPC } as int;
    let mask_pie = if to_s { MASK_SPIE } else { MASK_MPIE };
    let pie_i = if to_s { 5u64 } else { 7u64 };
    let mask_ie = if to_s { MASK_SIE } else { MASK_MIE };
    let ie_i = if to_s { 1u64 } else { 3u64 };
    let mask_pp = if to_s { MASK_SPP } else { MASK_MPP };
    let pp_i = if to_s { 8u64 } else { 11u64 };
    let c1 = csr_write(s.csrs, epc_addr, s.pc);
    let tvec = csr_read(c1, tvec_addr);
    let new_pc = if interrupt && tvec & 3 == 1 {
        (tvec & !3u64).wrapping_add((4 * code) as u64)
    } else {
        tvec & !3u64
    };
    let c2 = csr_write(c1, cause_addr, cause);
    let c3 = csr_write(c2, tval_addr, tval);
    let status = csr_read(c3, status_addr);
    let ie = (status & mask_ie) >> ie_i;
    let st1 = (status & !mask_pie) | (ie << pie_i);
    let st2 = st1 & !mask_ie;
    let st3 = (st2 & !mask_pp) | (mode_bits(s.mode) << pp_i);
    let c4 = csr_write(c3, status_addr, st3);
    CpuView { pc: new_pc, mode: new_mode, csrs: c4, ..s }
}

/// An exception cause code carries no interrupt bit.
proof fn lemma_small_cause(c: u64)
    by (bit_vector)
    requires
        c < 64,
    ensures
        c & (1u64 << 63) == 0,
        c & !(1u64 << 63) == c,
{
}

/// An interrupt cause is its bit position with the interrupt bit on top.
proof fn lemma_interrupt_cause(b: u64)
    by (bit_vector)
    requires
        b < 64,
    ensures
        (b | (1u64 << 63)) & (1u64 << 63) != 0,
        (b | (1u64 << 63)) & !(1u64 << 63) == b,
{
}

/// The hart.
pub struct Cpu {
    regs: Vec<u64>,
    pc: u64,
    /// The bus this hart loads from and stores to.
    pub bus: Bus,
    /// The current privilege mode.
    pub mode: Mode,
    /// The control-and-status register file.
    pub csr: Csr,
}

impl View for Cpu {
    type V = CpuView;

    closed spec fn view(&self) -> CpuView {
        CpuView {
            regs: self.regs@,
            pc: self.pc,
            mode: self.mode,
            csrs: self.csr@,
            bus: self.bus@,
        }
    }
}

impl Cpu {
    /// The hart has 32 registers, 4096 CSRs, and a well-formed bus.
    pub open spec fn wf(self) -> bool {
        self@.regs.len() == 32 && self@.csrs.len() == 4096 && bus_wf(self@.bus)
    }

    /// A fresh hart in machine mode: the pc at the DRAM base, the stack
    /// pointer at the end of DRAM, every other register and CSR zero, `code`
    /// loaded at the DRAM base, and `disk_image` behind the block device.
    pub fn new(code: Vec<u8>, disk_image: Vec<u8>) -> (r: Cpu)
        requires
            code@.len() <= DRAM_SIZE,
        ensures
            r.wf(),
            r@.regs[2] == DRAM_BASE + DRAM_SIZE,
            forall|i: int| 0 <= i < 32 && i != 2 ==> r@.regs[i] == 0,
            r@.pc == DRAM_BASE,
            r@.mode == Mode::Machine,
            forall|i: int| 0 <= i < 4096 ==> r@.csrs[i] == 0,
            forall|i: int| 0 <= i < code@.len() ==> r@.bus.dram[i] == code@[i],
            forall|i: int| code@.len() <= i < DRAM_SIZE ==> r@.bus.dram[i] == 0,
            r@.bus.clint.mtime == 0 && r@.bus.clint.mtimecmp == 0,
            r@.bus.plic.pending == 0 && r@.bus.plic.senable == 0,
            r@.bus.uart.interrupting == false && r@.bus.uart.out == Seq::<u8>::empty(),
            r@.bus.virtio.notify == false && r@.bus.virtio.disk == disk_image@,
    {
        let mut regs: Vec<u64> = Vec::new();
        let mut i: usize = 0;
        while i < 32
            invariant
                regs@.len() == i,
                i <= 32,
                forall|j: int| 0 <= j < i ==> regs@[j] == 0,
            decreases 32 - i,
        {
            regs.push(0);
            i = i + 1;
        }
        // The stack pointer starts at the end of DRAM.
        regs[2] = DRAM_BASE + DRAM_SIZE;
        let pc = DRAM_BASE;
        let bus = Bus::new(code, disk_image);
        let csr = Csr::new();
        let mode = Mode::Machine;
        Cpu { regs, pc, bus, mode, csr }
    }

    /// Load a value from a CSR.
    pub fn load_csr(&self, addr: usize) -> (v: u64)
        requires
            self.wf(),
            addr < 4096,
        ensures
            v == csr_read(self@.csrs, addr as int),
    {
        self.csr.load(addr)
    }

    /// Store a value to a CSR.
    pub fn store_csr(&mut self, addr: usize, value: u64)
        requires
            old(self).wf(),
            addr < 4096,
        ensures
            final(self).wf(),
            final(self)@ == (CpuView {
                csrs: csr_write(old(self)@.csrs, addr as int, value),
                ..old(self)@
            }),
    {
        self.csr.store(addr, value);
        proof {
            assert(self@ =~= (CpuView {
                csrs: csr_write(old(self)@.csrs, addr as int, value),
                ..old(self)@
            }));
        }
    }

    /// Load a value through the bus.
    pub fn load(&mut self, addr: u64, size: u64) -> (r: Result<u64, Exception>)
        requires
            old(self).wf(),
        ensures
            final(self).wf(),
            r == bus_load_val(old(self)@.bus, addr, size),
            final(self)@ == (CpuView { bus: bus_load_post(old(self)@.bus, addr, size), ..old(self)@ }),
    {
        let r = self.bus.load(addr, size);
        proof {
            assert(self@ =~= (CpuView {
                bus: bus_load_post(old(self)@.bus, addr, size),
                ..old(self)@
            }));
        }
        r
    }

    /// Store a value through the bus.
    pub fn store(&mut self, addr: u64, size: u64, value: u64) -> (r: Result<(), Exception>)
        requires
            old(self).wf(),
        ensures
            final(self).wf(),
            r == bus_store_res(old(self)@.bus, addr, size),
            final(self)@ == (CpuView {
                bus: bus_store_post(old(self)@.bus, addr, size, value),
                ..old(self)@
            }),
    {
        let r = self.bus.store(addr, size, value);
        proof {
            assert(self@ =~= (CpuView {
                bus: bus_store_post(old(self)@.bus, addr, size, value),
                ..old(self)@
            }));
        }
        r
    }

    /// Fetch the instruction word at the current pc.
    pub fn fetch(&mut self) -> (r: Result<u64, Exception>)
        requires
            old(self).wf(),
        ensures
            final(self).wf(),
            r == bus_load_val(old(self)@.bus, old(self)@.pc, 32),
            final(self)@ == (CpuView {
                bus: bus_load_post(old(self)@.bus, old(self)@.pc, 32),
                ..old(self)@
            }),
    {
        let pc = self.pc;
        self.load(pc, 32)
    }

    /// The DRAM size in bytes.
    pub fn dram_size(&self) -> (n: usize)
        ensures
            n == self@.bus.dram.len(),
    {
        self.bus.dram_size()
    }

    /// Set the program counter.
    pub fn set_pc(&mut self, pc: u64)
        ensures
            final(self)@ == (CpuView { pc, ..old(self)@ }),
    {
        self.pc = pc;
        proof {
            assert(self@ =~= (CpuView { pc, ..old(self)@ }));
        }
    }

    /// The current program counter.
    pub fn get_pc(&self) -> (pc: u64)
        ensures
            pc == self@.pc,
    {
        self.pc
    }

    /// The current privilege mode.
    pub fn get_mode(&self) -> (m: Mode)
        ensures
            m == self@.mode,
    {
        self.mode
    }

    /// Set the privilege mode.
    pub(crate) fn set_mode(&mut self, m: Mode)
        ensures
            final(self)@ == (CpuView { mode: m, ..old(self)@ }),
    {
        self.mode = m;
        proof {
            assert(self@ =~= (CpuView { mode: m, ..old(self)@ }));
        }
    }

    /// Write a general-purpose register; writes to `x0` are discarded.
    pub(crate) fn write_reg(&mut self, rd: u64, v: u64)
        requires
            old(self).wf(),
            rd < 32,
        ensures
            final(self).wf(),
            final(self)@ == (CpuView {
                regs: crate::isa::upd_reg(old(self)@.regs, rd, v),
                ..old(self)@
            }),
    {
        if rd != 0 {
            self.regs[rd as usize] = v;
        }
        proof {
            assert(self@ =~= (CpuView {
                regs: crate::isa::upd_reg(old(self)@.regs, rd, v),
                ..old(self)@
            }));
        }
    }

    /// Clear `x0`, which is hardwired to zero.
    pub(crate) fn clear_x0(&mut self)
        requires
            old(self).wf(),
        ensures
            final(self).wf(),
            final(self)@ == (CpuView { regs: old(self)@.regs.update(0, 0), ..old(self)@ }),
    {
        self.regs[0] = 0;
        proof {
            assert(self@ =~= (CpuView { regs: old(self)@.regs.update(0, 0), ..old(self)@ }));
        }
    }

    /// Read a general-purpose register by index.
    pub fn read_reg(&self, i: usize) -> (v: u64)
        requires
            self.wf(),
            i < 32,
        ensures
            v == self@.regs[i as int],
    {
        self.regs[i]
    }

    /// Process the virtqueue after a queue notification, exactly as
    /// `vq_notify` describes: walk each descriptor chain the driver has
    /// published on the available ring since the last notification — a chain
    /// is a request header (type and sector), a data buffer, and a status
    /// byte. A read request (type 0) copies disk sectors into guest memory,
    /// a write request (type 1) copies guest memory onto the disk, byte by
    /// byte over the bus; the status byte takes zero on success and one when
    /// the request reached past the end of the disk, and the chain is
    /// completed on the used ring. DMA through an unmapped address abandons
    /// the walk with the bus's fault. Only the bus changes.
    pub fn disk_access(&mut self) -> (r: Result<(), Exception>)
        requires
            old(self).wf(),
        ensures
            final(self).wf(),
            final(self)@ == (CpuView { bus: vq_notify(old(self)@.bus).0, ..old(self)@ }),
            r == vq_notify(old(self)@.bus).1,
    {
        let desc_addr = self.bus.virtio_blk.desc_addr();
        let avail_addr = desc_addr.wrapping_add(0x40);
        let used_addr = desc_addr.wrapping_add(4096);
        // The index the driver has published.
        let avail_idx = match self.load(avail_addr.wrapping_add(2), 16) {
            Ok(v) => v,
            Err(e) => {
                proof {
                    assert(self@ =~= (CpuView { bus: vq_notify(old(self)@.bus).0, ..old(self)@ }));
                }
                return Err(e);
            },
        };
        let ghost target = vq_notify(old(self)@.bus);
        proof {
            assert(target == vq_run(self@.bus, desc_addr, avail_addr, used_addr, avail_idx, 0));
        }
        let mut rounds: u64 = 0;
        while rounds < 0x10000 && (self.bus.virtio_blk.last_avail() as u64) != avail_idx
            invariant
                self.wf(),
                rounds <= 0x10000,
                target == vq_notify(old(self)@.bus),
                target == vq_run(self@.bus, desc_addr, avail_addr, used_addr, avail_idx, rounds),
                self@.regs == old(self)@.regs,
                self@.pc == old(self)@.pc,
                self@.mode == old(self)@.mode,
                self@.csrs == old(self)@.csrs,
            decreases 0x10000 - rounds,
        {
            let last = self.bus.virtio_blk.last_avail() as u64;
            // The ring entry names the head descriptor of the chain.
            let ring_addr = avail_addr.wrapping_add(4).wrapping_add((last % 8).wrapping_mul(2));
            let head = match self.load(ring_addr, 16) {
                Ok(v) => v,
                Err(e) => {
                    proof {
                        assert(self@ =~= (CpuView { bus: target.0, ..old(self)@ }));
                    }
                    return Err(e);
                },
            };
            match self.process_chain(desc_addr, head) {
                Ok(h) => {
                    match self.complete_chain(used_addr, h) {
                        Ok(_) => {},
                        Err(e) => {
                            proof {
                                assert(self@ =~= (CpuView { bus: target.0, ..old(self)@ }));
                            }
                            return Err(e);
                        },
                    }
                },
                Err(e) => {
                    proof {
                        assert(self@ =~= (CpuView { bus: target.0, ..old(self)@ }));
                    }
                    return Err(e);
                },
            }
            rounds = rounds + 1;
        }
        proof {
            assert(self@ =~= (CpuView { bus: target.0, ..old(self)@ }));
        }
        Ok(())
    }

    /// Complete one processed chain on the used ring, exactly as
    /// `vq_complete` describes: count it, record its head in the used
    /// element, publish the new used index, and move past the consumed
    /// available-ring entry.
    fn complete_chain(&mut self, used_addr: u64, head: u64) -> (r: Result<(), Exception>)
        requires
            old(self).wf(),
        ensures
            final(self).wf(),
            final(self)@ == (CpuView {
                bus: vq_complete(old(self)@.bus, used_addr, head).0,
                ..old(self)@
            }),
            r == vq_complete(old(self)@.bus, used_addr, head).1,
    {
        let ghost target = vq_complete(old(self)@.bus, used_addr, head);
        let id = self.bus.virtio_blk.next_used_id();
        let used_elem = used_addr.wrapping_add(4).wrapping_add(
            (id.wrapping_sub(1) % 8).wrapping_mul(8),
        );
        match self.store(used_elem, 32, head) {
            Ok(_) => {},
            Err(e) => {
                proof {
                    assert(self@ =~= (CpuView { bus: target.0, ..old(self)@ }));
                }
                return Err(e);
            },
        }
        match self.store(used_addr.wrapping_add(2), 16, id) {
            Ok(_) => {},
            Err(e) => {
                proof {
                    assert(self@ =~= (CpuView { bus: target.0, ..old(self)@ }));
                }
                return Err(e);
            },
        }
        self.bus.virtio_blk.advance_avail();
        proof {
            assert(self@ =~= (CpuView { bus: target.0, ..old(self)@ }));
        }
        Ok(())
    }

    /// Process one descriptor chain headed by descriptor `head`, exactly as
    /// `vq_process_chain` describes: read the header, move the data between
    /// the disk and guest memory, and write the status byte. Returns the
    /// head index for the used ring.
    fn process_chain(&mut self, desc_addr: u64, head: u64) -> (r: Result<u64, Exception>)
        requires
            old(self).wf(),
        ensures
            final(self).wf(),
            final(self)@ == (CpuView {
                bus: vq_process_chain(old(self)@.bus, desc_addr, head).0,
                ..old(self)@
            }),
            r == vq_process_chain(old(self)@.bus, desc_addr, head).1,
    {
        let ghost target = vq_process_chain(old(self)@.bus, desc_addr, head);
        // Header descriptor: buffer address and the link to the data
        // descriptor.
        let desc0 = desc_addr.wrapping_add(head.wrapping_mul(16));
        let hdr_addr = match self.load(desc0, 64) {
            Ok(v) => v,
            Err(e) => {
                proof {
                    assert(self@ =~= (CpuView { bus: target.0, ..old(self)@ }));
                }
                return Err(e);
            },
        };
        let next0 = match self.load(desc0.wrapping_add(14), 16) {
            Ok(v) => v,
            Err(e) => {
                proof {
                    assert(self@ =~= (CpuView { bus: target.0, ..old(self)@ }));
                }
                return Err(e);
            },
        };
        // Request header: type (0 read, 1 write) and starting sector.
        let req_type = match self.load(hdr_addr, 32) {
            Ok(v) => v,
            Err(e) => {
                proof {
                    assert(self@ =~= (CpuView { bus: target.0, ..old(self)@ }));
                }
                return Err(e);
            },
        };
        let sector = match self.load(hdr_addr.wrapping_add(8), 64) {
            Ok(v) => v,
            Err(e) => {
                proof {
                    assert(self@ =~= (CpuView { bus: target.0, ..old(self)@ }));
                }
                return Err(e);
            },
        };
        // Data descriptor: buffer address, length, link to the status
        // descriptor.
        let desc1 = desc_addr.wrapping_add(next0.wrapping_mul(16));
        let data_addr = match self.load(desc1, 64) {
            Ok(v) => v,
            Err(e) => {
                proof {
                    assert(self@ =~= (CpuView { bus: target.0, ..old(self)@ }));
                }
                return Err(e);
            },
        };
        let data_len = match self.load(desc1.wrapping_add(8), 32) {
            Ok(v) => v,
            Err(e) => {
                proof {
                    assert(self@ =~= (CpuView { bus: target.0, ..old(self)@ }));
                }
                return Err(e);
            },
        };
        let next1 = match self.load(desc1.wrapping_add(14), 16) {
            Ok(v) => v,
            Err(e) => {
                proof {
                    assert(self@ =~= (CpuView { bus: target.0, ..old(self)@ }));
                }
                return Err(e);
            },
        };
        // The copy itself.
        let in_bounds = match self.copy_buffer(req_type == 1, sector, data_addr, data_len) {
            Ok(ok) => ok,
            Err(e) => {
                proof {
                    assert(self@ =~= (CpuView { bus: target.0, ..old(self)@ }));
                }
                return Err(e);
            },
        };
        // Status descriptor: zero for success, one for a request past the
        // end of the disk.
        let desc2 = desc_addr.wrapping_add(next1.wrapping_mul(16));
        let status_addr = match self.load(desc2, 64) {
            Ok(v) => v,
            Err(e) => {
                proof {
                    assert(self@ =~= (CpuView { bus: target.0, ..old(self)@ }));
                }
                return Err(e);
            },
        };
        let status: u64 = if in_bounds {
            0
        } else {
            1
        };
        match self.store(status_addr, 8, status) {
            Ok(_) => {
                proof {
                    assert(self@ =~= (CpuView { bus: target.0, ..old(self)@ }));
                }
                Ok(head)
            },
            Err(e) => {
                proof {
                    assert(self@ =~= (CpuView { bus: target.0, ..old(self)@ }));
                }
                Err(e)
            },
        }
    }

    /// The byte-wise copy of one data buffer, exactly as `vq_copy`
    /// describes; returns whether the whole request stayed within the disk.
    fn copy_buffer(&mut self, to_disk: bool, sector: u64, data_addr: u64, data_len: u64) -> (r:
        Result<bool, Exception>)
        requires
            old(self).wf(),
        ensures
            final(self).wf(),
            ({
                let (b2, ok, rc) = vq_copy(
                    old(self)@.bus,
                    to_disk,
                    sector,
                    data_addr,
                    data_len,
                    0,
                    true,
                );
                final(self)@ == (CpuView { bus: b2, ..old(self)@ }) && (rc is Ok ==> r == Ok::<
                    bool,
                    Exception,
                >(ok)) && (rc matches Err(e) ==> r == Err::<bool, Exception>(e))
            }),
    {
        let ghost target = vq_copy(old(self)@.bus, to_disk, sector, data_addr, data_len, 0, true);
        let mut in_bounds = true;
        let mut i: u64 = 0;
        while i < data_len
            invariant
                self.wf(),
                i <= data_len,
                target == vq_copy(old(self)@.bus, to_disk, sector, data_addr, data_len, 0, true),
                target == vq_copy(
                    self@.bus,
                    to_disk,
                    sector,
                    data_addr,
                    data_len,
                    i,
                    in_bounds,
                ),
                self@.regs == old(self)@.regs,
                self@.pc == old(self)@.pc,
                self@.mode == old(self)@.mode,
                self@.csrs == old(self)@.csrs,
            decreases data_len - i,
        {
            let disk_off = sector.wrapping_mul(512).wrapping_add(i);
            let guest_addr = data_addr.wrapping_add(i);
            if to_disk {
                // The guest writes the disk.
                let b = match self.load(guest_addr, 8) {
                    Ok(v) => v,
                    Err(e) => {
                        proof {
                            assert(self@ =~= (CpuView { bus: target.0, ..old(self)@ }));
                        }
                        return Err(e);
                    },
                };
                if disk_off < self.bus.virtio_blk.disk_len() {
                    proof {
                        crate::alu::lemma_low_byte_cast(b);
                    }
                    self.bus.virtio_blk.write_disk(disk_off, (b & 0xff) as u8);
                } else {
                    in_bounds = false;
                }
            } else {
                // The guest reads the disk.
                let b: u8 = if disk_off < self.bus.virtio_blk.disk_len() {
                    self.bus.virtio_blk.read_disk(disk_off)
                } else {
                    in_bounds = false;
                    0
                };
                match self.store(guest_addr, 8, b as u64) {
                    Ok(_) => {},
                    Err(e) => {
                        proof {
                            assert(self@ =~= (CpuView { bus: target.0, ..old(self)@ }));
                        }
                        return Err(e);
                    },
                };
            }
            i = i + 1;
        }
        proof {
            assert(self@ =~= (CpuView { bus: target.0, ..old(self)@ }));
        }
        Ok(in_bounds)
    }

    /// Read a register, the pc, or a CSR by name, for inspection: ABI names
    /// and `x` numbers name the general-purpose registers.
    pub fn reg(&self, r: &str) -> (v: u64)
        requires
            self.wf(),
            valid_reg_name(r@),
        ensures
            v == reg_val(self@, r@),
    {
        if str_eq(r, "zero") {
            return self.read_reg(0);
        }
        if str_eq(r, "ra") {
            return self.read_reg(1);
        }
        if str_eq(r, "sp") {
            return self.read_reg(2);
        }
        if str_eq(r, "gp") {
            return self.read_reg(3);
        }
        if str_eq(r, "tp") {
            return self.read_reg(4);
        }
        if str_eq(r, "t0") {
            return self.read_reg(5);
        }
        if str_eq(r, "t1") {
            return self.read_reg(6);
        }
        if str_eq(r, "t2") {
            return self.read_reg(7);
        }
        if str_eq(r, "s0") {
            return self.read_reg(8);
        }
        if str_eq(r, "s1") {
            return self.read_reg(9);
        }
        if str_eq(r, "a0") {
            return self.read_reg(10);
        }
        if str_eq(r, "a1") {
            return self.read_reg(11);
        }
        if str_eq(r, "a2") {
            return self.read_reg(12);
        }
        if str_eq(r, "a3") {
            return self.read_reg(13);
        }
        if str_eq(r, "a4") {
            return self.read_reg(14);
        }
        if str_eq(r, "a5") {
            return self.read_reg(15);
        }
        if str_eq(r, "a6") {
            return self.read_reg(16);
        }
        if str_eq(r, "a7") {
            return self.read_reg(17);
        }
        if str_eq(r, "s2") {
            return self.read_reg(18);
        }
        if str_eq(r, "s3") {
            return self.read_reg(19);
        }
        if str_eq(r, "s4") {
            return self.read_reg(20);
        }
        if str_eq(r, "s5") {
            return self.read_reg(21);
        }
        if str_eq(r, "s6") {
            return self.read_reg(22);
        }
        if str_eq(r, "s7") {
            return self.read_reg(23);
        }
        if str_eq(r, "s8") {
            return self.read_reg(24);
        }
        if str_eq(r, "s9") {
            return self.read_reg(25);
        }
        if str_eq(r, "s10") {
            return self.read_reg(26);
        }
        if str_eq(r, "s11") {
            return self.read_reg(27);
        }
        if str_eq(r, "t3") {
            return self.read_reg(28);
        }
        if str_eq(r, "t4") {
            return self.read_reg(29);
        }
        if str_eq(r, "t5") {
            return self.read_reg(30);
        }
        if str_eq(r, "t6") {
            return self.read_reg(31);
        }
        if str_eq(r, "pc") {
            return self.get_pc();
        }
        if str_eq(r, "fp") {
            return self.read_reg(8);
        }
        if str_eq(r, "mhartid") {
            return self.load_csr(MHARTID);
        }
        if str_eq(r, "mstatus") {
            return self.load_csr(MSTATUS);
        }
        if str_eq(r, "mtvec") {
            return self.load_csr(MTVEC);
        }
        if str_eq(r, "mepc") {
            return self.load_csr(MEPC);
        }
        if str_eq(r, "mcause") {
            return self.load_csr(MCAUSE);
        }
        if str_eq(r, "mtval") {
            return self.load_csr(MTVAL);
        }
        if str_eq(r, "medeleg") {
            return self.load_csr(MEDELEG);
        }
        if str_eq(r, "mscratch") {
            return self.load_csr(MSCRATCH);
        }
        if str_eq(r, "MIP") {
            return self.load_csr(MIP);
        }
        if str_eq(r, "mcounteren") {
            return self.load_csr(MCOUNTEREN);
        }
        if str_eq(r, "sstatus") {
            return self.load_csr(SSTATUS);
        }
        if str_eq(r, "stvec") {
            return self.load_csr(STVEC);
        }
        if str_eq(r, "sepc") {
            return self.load_csr(SEPC);
        }
        if str_eq(r, "scause") {
            return self.load_csr(SCAUSE);
        }
        if str_eq(r, "stval") {
            return self.load_csr(STVAL);
        }
        if str_eq(r, "sscratch") {
            return self.load_csr(SSCRATCH);
        }
        if str_eq(r, "SIP") {
            return self.load_csr(SIP);
        }
        if str_eq(r, "SATP") {
            return self.load_csr(SATP);
        }
        // What is left is an `x`-numbered name: parse the digits.
        let n = r.unicode_len();
        let mut i: usize = 1;
        let mut acc: u64 = 0;
        while i < n
            invariant
                self.wf(),
                is_x_name(r@),
                n == r@.len(),
                1 <= i <= n,
                is_digits(r@, i as int),
                acc <= 31,
                digits_val(r@, i as int, acc as int) == digits_val(r@, 1, 0),
            decreases n - i,
        {
            let c = r.get_char(i);
            let d = c as u32;
            let dv = (d - 48) as u64;
            proof {
                lemma_digits_val_grows(r@, i + 1, acc * 10 + dv);
            }
            acc = acc * 10 + dv;
            i = i + 1;
        }
        self.read_reg(acc as usize)
    }

    /// Whether interrupt bit `b` is deliverable right now.
    fn intr_ok(&self, b: u64) -> (r: bool)
        requires
            self.wf(),
            b < 64,
        ensures
            r == intr_deliverable(self@, b),
    {
        let pending = self.load_csr(MIE) & self.load_csr(MIP);
        if (pending >> b) & 1 != 1 {
            return false;
        }
        let delegated = (self.load_csr(MIDELEG) >> b) & 1 == 1;
        if delegated {
            match self.mode {
                Mode::User => true,
                Mode::Supervisor => self.load_csr(MSTATUS) & MASK_SIE != 0,
                Mode::Machine => false,
            }
        } else {
            match self.mode {
                Mode::Machine => self.load_csr(MSTATUS) & MASK_MIE != 0,
                _ => true,
            }
        }
    }

    /// Set bits in `mip`.
    fn raise_mip(&mut self, mask: u64)
        requires
            old(self).wf(),
        ensures
            final(self).wf(),
            final(self)@ == (CpuView {
                csrs: csr_write(
                    old(self)@.csrs,
                    MIP as int,
                    csr_read(old(self)@.csrs, MIP as int) | mask,
                ),
                ..old(self)@
            }),
    {
        let mip = self.load_csr(MIP);
        self.store_csr(MIP, mip | mask);
    }

    /// Poll the devices and select an interrupt to deliver — exactly the
    /// UART poll, then the virtio poll (processing the virtqueue on a
    /// notification), then the timer poll, then the highest-priority
    /// deliverable interrupt of the resulting state.
    pub fn check_pending_interrupt(&mut self) -> (r: Option<Interrupt>)
        requires
            old(self).wf(),
        ensures
            final(self).wf(),
            final(self)@ == poll_clint(poll_virtio(poll_uart(old(self)@))),
            r == pending_interrupt(final(self)@),
    {
        if self.bus.uart.is_interrupting() {
            self.bus.plic.raise(UART_IRQ);
            self.raise_mip(MASK_SEIP);
        }
        proof {
            assert(self@ =~= poll_uart(old(self)@));
        }
        let ghost polled = self@;
        if self.bus.virtio_blk.is_interrupting() {
            let _ = self.disk_access();
            self.bus.plic.raise(VIRTIO_IRQ);
            self.raise_mip(MASK_SEIP);
        }
        proof {
            assert(self@ =~= poll_virtio(polled));
        }
        let ghost before_clint = self@;
        self.bus.clint.tick();
        if self.bus.clint.timer_pending() {
            self.raise_mip(MASK_MTIP);
        }
        proof {
            assert(self@ =~= poll_clint(before_clint));
        }
        if self.intr_ok(11) {
            Some(Interrupt::MachineExternalInterrupt)
        } else if self.intr_ok(3) {
            Some(Interrupt::MachineSoftwareInterrupt)
        } else if self.intr_ok(7) {
            Some(Interrupt::MachineTimerInterrupt)
        } else if self.intr_ok(9) {
            Some(Interrupt::SupervisorExternalInterrupt)
        } else if self.intr_ok(1) {
            Some(Interrupt::SupervisorSoftwareInterrupt)
        } else if self.intr_ok(5) {
            Some(Interrupt::SupervisorTimerInterrupt)
        } else {
            None
        }
    }

    /// Deliver an interrupt: the trap with the interrupt cause, then clear
    /// the `mip` bit of an edge-triggered (software or timer) source.
    pub fn handle_interrupt(&mut self, i: Interrupt)
        requires
            old(self).wf(),
        ensures
            final(self).wf(),
            final(self)@ == interrupt_post(old(self)@, i),
    {
        let cause = i.code();
        let b = match i {
            Interrupt::SupervisorSoftwareInterrupt => 1u64,
            Interrupt::MachineSoftwareInterrupt => 3u64,
            Interrupt::SupervisorTimerInterrupt => 5u64,
            Interrupt::MachineTimerInterrupt => 7u64,
            Interrupt::SupervisorExternalInterrupt => 9u64,
            Interrupt::MachineExternalInterrupt => 11u64,
        };
        proof {
            lemma_interrupt_cause(b);
        }
        self.handle_trap(cause, 0);
        let edge = match i {
            Interrupt::MachineSoftwareInterrupt => true,
            Interrupt::MachineTimerInterrupt => true,
            Interrupt::SupervisorSoftwareInterrupt => true,
            Interrupt::SupervisorTimerInterrupt => true,
            _ => false,
        };
        if edge {
            let mip = self.load_csr(MIP);
            self.store_csr(MIP, mip & !(1u64 << b));
        }
    }

    /// Deliver a trap with the given cause and trap value, as `trap_post`
    /// describes.
    fn handle_trap(&mut self, cause: u64, tval: u64)
        requires
            old(self).wf(),
            cause & !MASK_INTERRUPT_BIT < 64,
        ensures
            final(self).wf(),
            final(self)@ == trap_post(old(self)@, cause, tval),
    {
        let pc = self.pc;
        let mode = self.mode;
        let interrupt = cause & MASK_INTERRUPT_BIT != 0;
        let code = cause & !MASK_INTERRUPT_BIT;
        let below_m = mode.le_supervisor();
        let delegated = if interrupt {
            self.csr.is_midelegated(code)
        } else {
            self.csr.is_medelegated(code)
        };
        let trap_in_s = below_m && delegated;
        let (status_addr, tvec_addr, cause_addr, tval_addr, epc_addr): (
            usize,
            usize,
            usize,
            usize,
            usize,
        ) = if trap_in_s {
            self.mode = Mode::Supervisor;
            (SSTATUS, STVEC, SCAUSE, STVAL, SEPC)
        } else {
            self.mode = Mode::Machine;
            (MSTATUS, MTVEC, MCAUSE, MTVAL, MEPC)
        };
        let (mask_pie, pie_i, mask_ie, ie_i, mask_pp, pp_i): (u64, u64, u64, u64, u64, u64) =
            if trap_in_s {
            (MASK_SPIE, 5, MASK_SIE, 1, MASK_SPP, 8)
        } else {
            (MASK_MPIE, 7, MASK_MIE, 3, MASK_MPP, 11)
        };
        self.csr.store(epc_addr, pc);
        let tvec = self.csr.load(tvec_addr);
        self.pc = if interrupt && tvec & 3 == 1 {
            (tvec & !3u64).wrapping_add(4 * code)
        } else {
            tvec & !3u64
        };
        self.csr.store(cause_addr, cause);
        self.csr.store(tval_addr, tval);
        let mut status = self.csr.load(status_addr);
        // Save the interrupt-enable bit into xPIE, clear xIE, and record the
        // previous privilege in xPP.
        let ie = (status & mask_ie) >> ie_i;
        status = (status & !mask_pie) | (ie << pie_i);
        status = status & !mask_ie;
        status = (status & !mask_pp) | (mode.as_u64() << pp_i);
        self.csr.store(status_addr, status);
        proof {
            assert(self@ =~= trap_post(old(self)@, cause, tval));
        }
    }

    /// Deliver an exception: save context into the target mode's CSRs and
    /// jump to its trap vector, delegating to S-mode when `medeleg` says so.
    pub fn handle_exception(&mut self, e: Exception)
        requires
            old(self).wf(),
        ensures
            final(self).wf(),
            final(self)@ == trap_post(old(self)@, e.spec_code(), e.spec_value()),
    {
        let cause = e.code();
        let tval = e.value();
        proof {
            lemma_small_cause(cause);
        }
        self.handle_trap(cause, tval);
    }
}


/// Whether every character from position `i` on is a decimal digit.
pub open spec fn is_digits(name: Seq<char>, i: int) -> bool
    decreases name.len() - i,
{
    if i >= name.len() {
        true
    } else {
        48 <= name[i] as u32 <= 57 && is_digits(name, i + 1)
    }
}

/// The decimal value of the digits from position `i` on, over the
/// accumulator `acc`.
pub open spec fn digits_val(name: Seq<char>, i: int, acc: int) -> int
    decreases name.len() - i,
{
    if i >= name.len() {
        acc
    } else {
        digits_val(name, i + 1, acc * 10 + (name[i] as u32 - 48))
    }
}

/// An `x`-numbered register name: `x` followed by decimal digits naming a
/// register index up to 31.
pub open spec fn is_x_name(name: Seq<char>) -> bool {
    name.len() >= 2 && name[0] == 'x' && is_digits(name, 1) && 0 <= digits_val(name, 1, 0) <= 31
}

/// The decimal value of a digit string only grows as digits accumulate.
proof fn lemma_digits_val_grows(name: Seq<char>, i: int, acc: int)
    requires
        0 <= i <= name.len(),
        is_digits(name, i),
        acc >= 0,
    ensures
        digits_val(name, i, acc) >= acc,
    decreases name.len() - i,
{
    if i < name.len() {
        lemma_digits_val_grows(name, i + 1, acc * 10 + (name[i] as u32 - 48));
    }
}

/// Whether two string slices hold the same characters.
fn str_eq(a: &str, b: &str) -> (r: bool)
    ensures
        r == (a@ == b@),
{
    let n = a.unicode_len();
    if n != b.unicode_len() {
        return false;
    }
    let mut i: usize = 0;
    while i < n
        invariant
            n == a@.len(),
            n == b@.len(),
            i <= n,
            forall|j: int| 0 <= j < i ==> a@[j] == b@[j],
        decreases n - i,
    {
        if a.get_char(i) != b.get_char(i) {
            return false;
        }
        i = i + 1;
    }
    proof {
        assert(a@ =~= b@);
    }
    true
}

/// The register names the debugging accessor accepts.
pub open spec fn valid_reg_name(name: Seq<char>) -> bool {
    name == "zero"@
    || name == "ra"@
    || name == "sp"@
    || name == "gp"@
    || name == "tp"@
    || name == "t0"@
    || name == "t1"@
    || name == "t2"@
    || name == "s0"@
    || name == "s1"@
    || name == "a0"@
    || name == "a1"@
    || name == "a2"@
    || name == "a3"@
    || name == "a4"@
    || name == "a5"@
    || name == "a6"@
    || name == "a7"@
    || name == "s2"@
    || name == "s3"@
    || name == "s4"@
    || name == "s5"@
    || name == "s6"@
    || name == "s7"@
    || name == "s8"@
    || name == "s9"@
    || name == "s10"@
    || name == "s11"@
    || name == "t3"@
    || name == "t4"@
    || name == "t5"@
    || name == "t6"@
    || name == "pc"@
    || name == "fp"@
    || name == "mhartid"@
    || name == "mstatus"@
    || name == "mtvec"@
    || name == "mepc"@
    || name == "mcause"@
    || name == "mtval"@
    || name == "medeleg"@
    || name == "mscratch"@
    || name == "MIP"@
    || name == "mcounteren"@
    || name == "sstatus"@
    || name == "stvec"@
    || name == "sepc"@
    || name == "scause"@
    || name == "stval"@
    || name == "sscratch"@
    || name == "SIP"@
    || name == "SATP"@
    || is_x_name(name)
}

/// The value the debugging accessor `reg` returns for a register name:
/// a general-purpose register by ABI name or by `x` number, the pc, the
/// frame pointer, or a CSR by name.
pub open spec fn reg_val(s: CpuView, name: Seq<char>) -> u64 {
    if name == "zero"@ {
        s.regs[0]
    } else if name == "ra"@ {
        s.regs[1]
    } else if name == "sp"@ {
        s.regs[2]
    } else if name == "gp"@ {
        s.regs[3]
    } else if name == "tp"@ {
        s.regs[4]
    } else if name == "t0"@ {
        s.regs[5]
    } else if name == "t1"@ {
        s.regs[6]
    } else if name == "t2"@ {
        s.regs[7]
    } else if name == "s0"@ {
        s.regs[8]
    } else if name == "s1"@ {
        s.regs[9]
    } else if name == "a0"@ {
        s.regs[10]
    } else if name == "a1"@ {
        s.regs[11]
    } else if name == "a2"@ {
        s.regs[12]
    } else if name == "a3"@ {
        s.regs[13]
    } else if name == "a4"@ {
        s.regs[14]
    } else if name == "a5"@ {
        s.regs[15]
    } else if name == "a6"@ {
        s.regs[16]
    } else if name == "a7"@ {
        s.regs[17]
    } else if name == "s2"@ {
        s.regs[18]
    } else if name == "s3"@ {
        s.regs[19]
    } else if name == "s4"@ {
        s.regs[20]
    } else if name == "s5"@ {
        s.regs[21]
    } else if name == "s6"@ {
        s.regs[22]
    } else if name == "s7"@ {
        s.regs[23]
    } else if name == "s8"@ {
        s.regs[24]
    } else if name == "s9"@ {
        s.regs[25]
    } else if name == "s10"@ {
        s.regs[26]
    } else if name == "s11"@ {
        s.regs[27]
    } else if name == "t3"@ {
        s.regs[28]
    } else if name == "t4"@ {
        s.regs[29]
    } else if name == "t5"@ {
        s.regs[30]
    } else if name == "t6"@ {
        s.regs[31]
    } else if name == "pc"@ {
        s.pc
    } else if name == "fp"@ {
        s.regs[8]
    } else if name == "mhartid"@ {
        csr_read(s.csrs, MHARTID as int)
    } else if name == "mstatus"@ {
        csr_read(s.csrs, MSTATUS as int)
    } else if name == "mtvec"@ {
        csr_read(s.csrs, MTVEC as int)
    } else if name == "mepc"@ {
        csr_read(s.csrs, MEPC as int)
    } else if name == "mcause"@ {
        csr_read(s.csrs, MCAUSE as int)
    } else if name == "mtval"@ {
        csr_read(s.csrs, MTVAL as int)
    } else if name == "medeleg"@ {
        csr_read(s.csrs, MEDELEG as int)
    } else if name == "mscratch"@ {
        csr_read(s.csrs, MSCRATCH as int)
    } else if name == "MIP"@ {
        csr_read(s.csrs, MIP as int)
    } else if name == "mcounteren"@ {
        csr_read(s.csrs, MCOUNTEREN as int)
    } else if name == "sstatus"@ {
        csr_read(s.csrs, SSTATUS as int)
    } else if name == "stvec"@ {
        csr_read(s.csrs, STVEC as int)
    } else if name == "sepc"@ {
        csr_read(s.csrs, SEPC as int)
    } else if name == "scause"@ {
        csr_read(s.csrs, SCAUSE as int)
    } else if name == "stval"@ {
        csr_read(s.csrs, STVAL as int)
    } else if name == "sscratch"@ {
        csr_read(s.csrs, SSCRATCH as int)
    } else if name == "SIP"@ {
        csr_read(s.csrs, SIP as int)
    } else if name == "SATP"@ {
        csr_read(s.csrs, SATP as int)
    } else {
        s.regs[digits_val(name, 1, 0)]
    }
}

/// Whether interrupt bit `b` is pending, enabled, and not gated by the
/// current mode: a delegated interrupt is deliverable below S-mode, or in
/// S-mode with `sstatus.SIE` set; an undelegated one below M-mode, or in
/// M-mode with `mstatus.MIE` set.
pub open spec fn intr_deliverable(s: CpuView, b: u64) -> bool {
    let pending = s.csrs[MIE as int] & s.csrs[MIP as int];
    let delegated = (s.csrs[MIDELEG as int] >> b) & 1 == 1;
    (pending >> b) & 1 == 1 && (if delegated {
        s.mode == Mode::User || (s.mode == Mode::Supervisor && s.csrs[MSTATUS as int] & MASK_SIE
            != 0)
    } else {
        s.mode != Mode::Machine || s.csrs[MSTATUS as int] & MASK_MIE != 0
    })
}

/// The interrupt to deliver, if any: the highest-priority deliverable bit in
/// the order MEI, MSI, MTI, SEI, SSI, STI; a gated bit is skipped in favour
/// of the next.
pub open spec fn pending_interrupt(s: CpuView) -> Option<Interrupt> {
    if intr_deliverable(s, 11) {
        Some(Interrupt::MachineExternalInterrupt)
    } else if intr_deliverable(s, 3) {
        Some(Interrupt::MachineSoftwareInterrupt)
    } else if intr_deliverable(s, 7) {
        Some(Interrupt::MachineTimerInterrupt)
    } else if intr_deliverable(s, 9) {
        Some(Interrupt::SupervisorExternalInterrupt)
    } else if intr_deliverable(s, 1) {
        Some(Interrupt::SupervisorSoftwareInterrupt)
    } else if intr_deliverable(s, 5) {
        Some(Interrupt::SupervisorTimerInterrupt)
    } else {
        None
    }
}

/// The UART poll: consume the UART's latched flag; when it was set, latch
/// the UART's source into the PLIC pending bits and set `mip.SEIP`.
pub open spec fn poll_uart(s: CpuView) -> CpuView {
    let was = s.bus.uart.interrupting;
    let b1 = BusView {
        uart: UartView { interrupting: false, ..s.bus.uart },
        plic: if was {
            Plic { pending: s.bus.plic.pending | (1u32 << UART_IRQ), ..s.bus.plic }
        } else {
            s.bus.plic
        },
        ..s.bus
    };
    if was {
        CpuView {
            bus: b1,
            csrs: csr_write(s.csrs, MIP as int, csr_read(s.csrs, MIP as int) | MASK_SEIP),
            ..s
        }
    } else {
        CpuView { bus: b1, ..s }
    }
}

/// The virtio poll: consume the latched queue notification; when one was
/// pending, process the virtqueue as `vq_notify` describes, latch the
/// device's source into the PLIC pending bits, and set `mip.SEIP`.
pub open spec fn poll_virtio(s: CpuView) -> CpuView {
    let was = s.bus.virtio.notify;
    let b1 = BusView { virtio: VirtioView { notify: false, ..s.bus.virtio }, ..s.bus };
    if was {
        let b2 = vq_notify(b1).0;
        let b3 = BusView {
            plic: Plic { pending: b2.plic.pending | (1u32 << VIRTIO_IRQ), ..b2.plic },
            ..b2
        };
        CpuView {
            bus: b3,
            csrs: csr_write(s.csrs, MIP as int, csr_read(s.csrs, MIP as int) | MASK_SEIP),
            ..s
        }
    } else {
        CpuView { bus: b1, ..s }
    }
}

/// The timer poll: the machine timer advances one tick; when it has reached
/// the comparator, set `mip.MTIP`.
pub open spec fn poll_clint(s: CpuView) -> CpuView {
    let c2 = Clint { mtime: s.bus.clint.mtime.wrapping_add(1), ..s.bus.clint };
    let b2 = BusView { clint: c2, ..s.bus };
    if c2.mtime >= c2.mtimecmp {
        CpuView {
            bus: b2,
            csrs: csr_write(s.csrs, MIP as int, csr_read(s.csrs, MIP as int) | MASK_MTIP),
            ..s
        }
    } else {
        CpuView { bus: b2, ..s }
    }
}

/// The hart after an interrupt is delivered: the trap with the interrupt
/// cause, then the edge-triggered sources (software and timer) have their
/// `mip` bit cleared; the level-triggered external sources stay pending until
/// their device is serviced.
pub open spec fn interrupt_post(s: CpuView, i: Interrupt) -> CpuView {
    let t = trap_post(s, i.spec_code(), 0);
    let edge = i == Interrupt::MachineSoftwareInterrupt || i == Interrupt::MachineTimerInterrupt
        || i == Interrupt::SupervisorSoftwareInterrupt || i
        == Interrupt::SupervisorTimerInterrupt;
    if edge {
        CpuView {
            csrs: csr_write(
                t.csrs,
                MIP as int,
                csr_read(t.csrs, MIP as int) & !(1u64 << i.spec_bit()),
            ),
            ..t
        }
    } else {
        t
    }
}

/// Delegation law: an exception whose `medeleg` bit is set, taken while the
/// hart runs below M-mode, traps into S-mode — `sepc` records the trapping
/// pc and `mepc` is untouched.
pub proof fn lemma_trap_delegation(s: CpuView, cause: u64, tval: u64)
    requires
        s.csrs.len() == 4096,
        cause < 64,
        (s.csrs[MEDELEG as int] >> cause) & 1 == 1,
        s.mode == Mode::User || s.mode == Mode::Supervisor,
    ensures
        trap_post(s, cause, tval).mode == Mode::Supervisor,
        csr_read(trap_post(s, cause, tval).csrs, SEPC as int) == s.pc,
        csr_read(trap_post(s, cause, tval).csrs, MEPC as int) == csr_read(s.csrs, MEPC as int),
{
    lemma_small_cause(cause);
}

} // verus!
