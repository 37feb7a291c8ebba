//! The memory bus: routes loads and stores by address range to DRAM, CLINT,
//! PLIC, UART, or the virtio block device; accesses outside every mapped
//! range fault.

use vstd::prelude::*;
use crate::clint::{clint_load_val, clint_store_post, clint_store_res, Clint};
use crate::dram::{dram_load_val, dram_store_mem, dram_store_res, Dram};
use crate::exception::Exception;
use crate::param::{CLINT_BASE, CLINT_END, DRAM_BASE, DRAM_END, DRAM_SIZE, PLIC_BASE, PLIC_END, UART_BASE, UART_END, UART_SIZE, VIRTIO_BASE, VIRTIO_END};
use crate::plic::{plic_load_post, plic_load_val, plic_store_post, plic_store_res, Plic};
use crate::uart::{uart_load_post, uart_load_val, uart_store_post, uart_store_res, Uart, UartView};
use crate::virtio::{virtio_load_val, virtio_store_post, virtio_store_res, VirtioBlock, VirtioView};

verus! {

/// The bus's visible state: every device's state side by side.
#[verifier::ext_equal]
pub struct BusView {
    /// DRAM contents.
    pub dram: Seq<u8>,
    /// CLINT registers.
    pub clint: Clint,
    /// PLIC registers.
    pub plic: Plic,
    /// UART state.
    pub uart: UartView,
    /// Virtio block device state.
    pub virtio: VirtioView,
}

/// What a bus load returns: the addressed device's load result, or a load
/// access fault outside every mapped range.
pub open spec fn bus_load_val(b: BusView, addr: u64, size: u64) -> Result<u64, Exception> {
    if CLINT_BASE <= addr <= CLINT_END {
        clint_load_val(b.clint, addr, size)
    } else if PLIC_BASE <= addr <= PLIC_END {
        plic_load_val(b.plic, addr, size)
    } else if DRAM_BASE <= addr <= DRAM_END {
        dram_load_val(b.dram, addr, size)
    } else if UART_BASE <= addr <= UART_END {
        uart_load_val(b.uart, addr, size)
    } else if VIRTIO_BASE <= addr <= VIRTIO_END {
        virtio_load_val(b.virtio, addr, size)
    } else {
        Err(Exception::LoadAccessFault(addr))
    }
}

/// What a bus load leaves behind: loads are read-only except on the devices
/// with read side effects — a PLIC claim read and a UART receive-register
/// read.
pub open spec fn bus_load_post(b: BusView, addr: u64, size: u64) -> BusView {
    if PLIC_BASE <= addr <= PLIC_END {
        BusView { plic: plic_load_post(b.plic, addr, size), ..b }
    } else if UART_BASE <= addr <= UART_END {
        BusView { uart: uart_load_post(b.uart, addr, size), ..b }
    } else {
        b
    }
}

/// Whether a bus store succeeds: the addressed device's rule, or a store
/// access fault outside every mapped range.
pub open spec fn bus_store_res(b: BusView, addr: u64, size: u64) -> Result<(), Exception> {
    if CLINT_BASE <= addr <= CLINT_END {
        clint_store_res(addr, size)
    } else if PLIC_BASE <= addr <= PLIC_END {
        plic_store_res(addr, size)
    } else if DRAM_BASE <= addr <= DRAM_END {
        dram_store_res(b.dram, addr, size)
    } else if UART_BASE <= addr <= UART_END {
        uart_store_res(addr, size)
    } else if VIRTIO_BASE <= addr <= VIRTIO_END {
        virtio_store_res(addr, size)
    } else {
        Err(Exception::StoreAMOAccessFault(addr))
    }
}

/// What a bus store leaves behind: the addressed device updated, every other
/// device untouched.
pub open spec fn bus_store_post(b: BusView, addr: u64, size: u64, value: u64) -> BusView {
    if CLINT_BASE <= addr <= CLINT_END {
        BusView { clint: clint_store_post(b.clint, addr, size, value), ..b }
    } else if PLIC_BASE <= addr <= PLIC_END {
        BusView { plic: plic_store_post(b.plic, addr, size, value), ..b }
    } else if DRAM_BASE <= addr <= DRAM_END {
        BusView { dram: dram_store_mem(b.dram, addr, size, value), ..b }
    } else if UART_BASE <= addr <= UART_END {
        BusView { uart: uart_store_post(b.uart, addr, size, value), ..b }
    } else if VIRTIO_BASE <= addr <= VIRTIO_END {
        BusView { virtio: virtio_store_post(b.virtio, addr, size, value), ..b }
    } else {
        b
    }
}

/// The memory bus and the devices behind it.
pub struct Bus {
    pub(crate) dram: Dram,
    pub(crate) clint: Clint,
    pub(crate) plic: Plic,
    /// The UART, shared with the host's console ends.
    pub uart: Uart,
    /// The virtio block device.
    pub virtio_blk: VirtioBlock,
}

impl View for Bus {
    type V = BusView;

    closed spec fn view(&self) -> BusView {
        BusView {
            dram: self.dram@,
            clint: self.clint,
            plic: self.plic,
            uart: self.uart@,
            virtio: self.virtio_blk@,
        }
    }
}

/// A well-formed bus state: DRAM has its fixed size and the UART its
/// register window.
pub open spec fn bus_wf(b: BusView) -> bool {
    b.dram.len() == DRAM_SIZE && b.uart.regs.len() == UART_SIZE
}

impl Bus {
    /// How the bus's state decomposes into its devices' states.
    pub(crate) broadcast proof fn lemma_view(&self)
        ensures
            #![trigger self.view()]
            self@.dram == self.dram@,
            self@.clint == self.clint,
            self@.plic == self.plic,
            self@.uart == self.uart@,
            self@.virtio == self.virtio_blk@,
    {
    }

    /// DRAM has its fixed size and the UART its register window.
    pub open spec fn wf(self) -> bool {
        bus_wf(self@)
    }

    /// A fresh bus: DRAM holds `code` at its base, the block device holds
    /// `disk_image`, and every device register starts in its reset state.
    pub fn new(code: Vec<u8>, disk_image: Vec<u8>) -> (r: Bus)
        requires
            code@.len() <= DRAM_SIZE,
        ensures
            r.wf(),
            forall|i: int| 0 <= i < code@.len() ==> r@.dram[i] == code@[i],
            forall|i: int| code@.len() <= i < DRAM_SIZE ==> r@.dram[i] == 0,
            r@.clint == (Clint { mtime: 0, mtimecmp: 0 }),
            r@.plic == (Plic { pending: 0, senable: 0, spriority: 0, sclaim: 0 }),
            r@.uart.regs[crate::param::UART_LSR as int] == crate::param::MASK_UART_LSR_TX,
            forall|i: int|
                0 <= i < UART_SIZE && i != crate::param::UART_LSR ==> r@.uart.regs[i] == 0,
            r@.uart.interrupting == false,
            r@.uart.out == Seq::<u8>::empty(),
            r@.virtio == (VirtioView {
                id: 0,
                driver_features: 0,
                page_size: 0,
                queue_sel: 0,
                queue_num: 0,
                queue_pfn: 0,
                notify: false,
                last_avail: 0,
                status: 0,
                disk: disk_image@,
            }),
    {
        Bus {
            dram: Dram::new(code),
            clint: Clint::new(),
            plic: Plic::new(),
            uart: Uart::new(),
            virtio_blk: VirtioBlock::new(disk_image),
        }
    }

    /// Route a load to the device whose range contains `addr`.
    pub fn load(&mut self, addr: u64, size: u64) -> (r: Result<u64, Exception>)
        requires
            old(self).wf(),
        ensures
            final(self).wf(),
            r == bus_load_val(old(self)@, addr, size),
            final(self)@ == bus_load_post(old(self)@, addr, size),
    {
        let r = if addr >= CLINT_BASE && addr <= CLINT_END {
            self.clint.load(addr, size)
        } else if addr >= PLIC_BASE && addr <= PLIC_END {
            self.plic.load(addr, size)
        } else if addr >= DRAM_BASE && addr <= DRAM_END {
            self.dram.load(addr, size)
        } else if addr >= UART_BASE && addr <= UART_END {
            self.uart.load(addr, size)
        } else if addr >= VIRTIO_BASE && addr <= VIRTIO_END {
            self.virtio_blk.load(addr, size)
        } else {
            Err(Exception::LoadAccessFault(addr))
        };
        proof {
            assert(self@ =~= bus_load_post(old(self)@, addr, size));
        }
        r
    }

    /// Route a store to the device whose range contains `addr`.
    pub fn store(&mut self, addr: u64, size: u64, value: u64) -> (r: Result<(), Exception>)
        requires
            old(self).wf(),
        ensures
            final(self).wf(),
            r == bus_store_res(old(self)@, addr, size),
            final(self)@ == bus_store_post(old(self)@, addr, size, value),
    {
        let r = if addr >= CLINT_BASE && addr <= CLINT_END {
            self.clint.store(addr, size, value)
        } else if addr >= PLIC_BASE && addr <= PLIC_END {
            self.plic.store(addr, size, value)
        } else if addr >= DRAM_BASE && addr <= DRAM_END {
            self.dram.store(addr, size, value)
        } else if addr >= UART_BASE && addr <= UART_END {
            self.uart.store(addr, size, value)
        } else if addr >= VIRTIO_BASE && addr <= VIRTIO_END {
            self.virtio_blk.store(addr, size, value)
        } else {
            Err(Exception::StoreAMOAccessFault(addr))
        };
        proof {
            assert(self@ =~= bus_store_post(old(self)@, addr, size, value));
        }
        r
    }

    /// The DRAM size in bytes.
    pub fn dram_size(&self) -> (n: usize)
        ensures
            n == self@.dram.len(),
    {
        self.dram.len()
    }
}

} // verus!
