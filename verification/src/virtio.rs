//! Virtio MMIO block device: the legacy (version 1) register window and the
//! device-side state. The virtqueue itself lives in guest memory and is
//! walked by the hart (see the queue processing in the CPU module); the
//! device here holds the disk bytes and the MMIO registers.

use vstd::prelude::*;
use crate::exception::Exception;
use crate::param::VIRTIO_BASE;

verus! {

/// Magic-value register offset ("virt" little-endian).
pub const VIRTIO_MAGIC: u64 = 0x000;
/// Device version register offset (legacy interface: 1).
pub const VIRTIO_VERSION: u64 = 0x004;
/// Device id register offset (block device: 2).
pub const VIRTIO_DEVICE_ID: u64 = 0x008;
/// Vendor id register offset.
pub const VIRTIO_VENDOR_ID: u64 = 0x00c;
/// Device features register offset.
pub const VIRTIO_DEVICE_FEATURES: u64 = 0x010;
/// Driver features register offset.
pub const VIRTIO_DRIVER_FEATURES: u64 = 0x020;
/// Guest page size register offset.
pub const VIRTIO_GUEST_PAGE_SIZE: u64 = 0x028;
/// Queue selector register offset.
pub const VIRTIO_QUEUE_SEL: u64 = 0x030;
/// Maximum queue size register offset.
pub const VIRTIO_QUEUE_NUM_MAX: u64 = 0x034;
/// Queue size register offset.
pub const VIRTIO_QUEUE_NUM: u64 = 0x038;
/// Queue page-frame-number register offset.
pub const VIRTIO_QUEUE_PFN: u64 = 0x040;
/// Queue notify register offset.
pub const VIRTIO_QUEUE_NOTIFY: u64 = 0x050;
/// Device status register offset.
pub const VIRTIO_STATUS: u64 = 0x070;

/// Number of descriptors in the single virtqueue.
pub const VIRTIO_DESC_NUM: u64 = 8;
/// Bytes per disk sector.
pub const SECTOR_SIZE: u64 = 512;

/// The device's visible state.
#[verifier::ext_equal]
pub struct VirtioView {
    /// Used-ring counter: how many descriptor chains have been completed.
    pub id: u64,
    /// Features acknowledged by the driver.
    pub driver_features: u32,
    /// Guest page size set by the driver.
    pub page_size: u32,
    /// Selected queue (only queue 0 exists).
    pub queue_sel: u32,
    /// Queue size set by the driver.
    pub queue_num: u32,
    /// Page frame number of the queue in guest memory.
    pub queue_pfn: u32,
    /// Latched queue notification, consumed by interrupt polling.
    pub notify: bool,
    /// The next available-ring index to consume.
    pub last_avail: u16,
    /// Device status written by the driver.
    pub status: u32,
    /// The disk image.
    pub disk: Seq<u8>,
}

/// What a virtio MMIO load returns: identification registers are constant,
/// the driver-written registers read back, everything else reads zero; only
/// 32-bit loads are accepted.
pub open spec fn virtio_load_val(v: VirtioView, addr: u64, size: u64) -> Result<u64, Exception> {
    let off = addr - VIRTIO_BASE;
    if size != 32 {
        Err(Exception::LoadAccessFault(addr))
    } else if off == VIRTIO_MAGIC {
        Ok(0x7472_6976)
    } else if off == VIRTIO_VERSION {
        Ok(1)
    } else if off == VIRTIO_DEVICE_ID {
        Ok(2)
    } else if off == VIRTIO_VENDOR_ID {
        Ok(0x554d_4551)
    } else if off == VIRTIO_DEVICE_FEATURES {
        Ok(0)
    } else if off == VIRTIO_DRIVER_FEATURES {
        Ok(v.driver_features as u64)
    } else if off == VIRTIO_QUEUE_NUM_MAX {
        Ok(VIRTIO_DESC_NUM)
    } else if off == VIRTIO_QUEUE_PFN {
        Ok(v.queue_pfn as u64)
    } else if off == VIRTIO_STATUS {
        Ok(v.status as u64)
    } else {
        Ok(0)
    }
}

/// What a virtio MMIO store leaves behind: the driver-writable registers take
/// the low 32 bits of the value, a write to queue-notify latches the
/// notification, and stores elsewhere are discarded.
pub open spec fn virtio_store_post(v: VirtioView, addr: u64, size: u64, value: u64) -> VirtioView {
    let off = addr - VIRTIO_BASE;
    let word = (value & 0xffff_ffff) as u32;
    if size != 32 {
        v
    } else if off == VIRTIO_DRIVER_FEATURES {
        VirtioView { driver_features: word, ..v }
    } else if off == VIRTIO_GUEST_PAGE_SIZE {
        VirtioView { page_size: word, ..v }
    } else if off == VIRTIO_QUEUE_SEL {
        VirtioView { queue_sel: word, ..v }
    } else if off == VIRTIO_QUEUE_NUM {
        VirtioView { queue_num: word, ..v }
    } else if off == VIRTIO_QUEUE_PFN {
        VirtioView { queue_pfn: word, ..v }
    } else if off == VIRTIO_QUEUE_NOTIFY {
        VirtioView { notify: true, ..v }
    } else if off == VIRTIO_STATUS {
        VirtioView { status: word, ..v }
    } else {
        v
    }
}

/// Whether a virtio MMIO store succeeds: only 32-bit stores are accepted.
pub open spec fn virtio_store_res(addr: u64, size: u64) -> Result<(), Exception> {
    if size != 32 {
        Err(Exception::StoreAMOAccessFault(addr))
    } else {
        Ok(())
    }
}

/// The virtio block device.
pub struct VirtioBlock {
    id: u64,
    driver_features: u32,
    page_size: u32,
    queue_sel: u32,
    queue_num: u32,
    queue_pfn: u32,
    notify: bool,
    last_avail: u16,
    status: u32,
    disk: Vec<u8>,
}

impl View for VirtioBlock {
    type V = VirtioView;

    closed spec fn view(&self) -> VirtioView {
        VirtioView {
            id: self.id,
            driver_features: self.driver_features,
            page_size: self.page_size,
            queue_sel: self.queue_sel,
            queue_num: self.queue_num,
            queue_pfn: self.queue_pfn,
            notify: self.notify,
            last_avail: self.last_avail,
            status: self.status,
            disk: self.disk@,
        }
    }
}

/// The low 32 bits of any value fit in a `u32`.
proof fn lemma_low_word_in_range(v: u64)
    by (bit_vector)
    ensures
        v & 0xffff_ffff < 0x1_0000_0000,
        ((v & 0xffff_ffff) as u32) as u64 == v & 0xffff_ffff,
{
}

impl VirtioBlock {
    /// A fresh block device over the given disk image.
    pub fn new(disk_image: Vec<u8>) -> (r: VirtioBlock)
        ensures
            r@ == (VirtioView {
                id: 0,
                driver_features: 0,
                page_size: 0,
                queue_sel: 0,
                queue_num: 0,
                queue_pfn: 0,
                notify: false,
                last_avail: 0,
                status: 0,
                disk: disk_image@,
            }),
    {
        VirtioBlock {
            id: 0,
            driver_features: 0,
            page_size: 0,
            queue_sel: 0,
            queue_num: 0,
            queue_pfn: 0,
            notify: false,
            last_avail: 0,
            status: 0,
            disk: disk_image,
        }
    }

    /// Load `size` bits from the virtio MMIO window at `addr`.
    pub fn load(&self, addr: u64, size: u64) -> (r: Result<u64, Exception>)
        requires
            addr >= VIRTIO_BASE,
        ensures
            r == virtio_load_val(self@, addr, size),
    {
        if size != 32 {
            return Err(Exception::LoadAccessFault(addr));
        }
        let off = addr - VIRTIO_BASE;
        if off == VIRTIO_MAGIC {
            Ok(0x7472_6976)
        } else if off == VIRTIO_VERSION {
            Ok(1)
        } else if off == VIRTIO_DEVICE_ID {
            Ok(2)
        } else if off == VIRTIO_VENDOR_ID {
            Ok(0x554d_4551)
        } else if off == VIRTIO_DEVICE_FEATURES {
            Ok(0)
        } else if off == VIRTIO_DRIVER_FEATURES {
            Ok(self.driver_features as u64)
        } else if off == VIRTIO_QUEUE_NUM_MAX {
            Ok(VIRTIO_DESC_NUM)
        } else if off == VIRTIO_QUEUE_PFN {
            Ok(self.queue_pfn as u64)
        } else if off == VIRTIO_STATUS {
            Ok(self.status as u64)
        } else {
            Ok(0)
        }
    }

    /// Store the low `size` bits of `value` into the virtio MMIO window at
    /// `addr`; a write to queue-notify latches the notification.
    pub fn store(&mut self, addr: u64, size: u64, value: u64) -> (r: Result<(), Exception>)
        requires
            addr >= VIRTIO_BASE,
        ensures
            r == virtio_store_res(addr, size),
            final(self)@ == virtio_store_post(old(self)@, addr, size, value),
    {
        if size != 32 {
            return Err(Exception::StoreAMOAccessFault(addr));
        }
        proof {
            lemma_low_word_in_range(value);
        }
        let off = addr - VIRTIO_BASE;
        let word = (value & 0xffff_ffff) as u32;
        if off == VIRTIO_DRIVER_FEATURES {
            self.driver_features = word;
        } else if off == VIRTIO_GUEST_PAGE_SIZE {
            self.page_size = word;
        } else if off == VIRTIO_QUEUE_SEL {
            self.queue_sel = word;
        } else if off == VIRTIO_QUEUE_NUM {
            self.queue_num = word;
        } else if off == VIRTIO_QUEUE_PFN {
            self.queue_pfn = word;
        } else if off == VIRTIO_QUEUE_NOTIFY {
            self.notify = true;
        } else if off == VIRTIO_STATUS {
            self.status = word;
        }
        proof {
            assert(self@ =~= virtio_store_post(old(self)@, addr, size, value));
        }
        Ok(())
    }

    /// Consume the latched queue notification, returning whether one was
    /// pending.
    pub fn is_interrupting(&mut self) -> (r: bool)
        ensures
            r == old(self)@.notify,
            final(self)@ == (VirtioView { notify: false, ..old(self)@ }),
    {
        let r = self.notify;
        self.notify = false;
        r
    }

    /// Physical address of the descriptor table: the queue's page frame
    /// number times the guest page size.
    pub fn desc_addr(&self) -> (a: u64)
        ensures
            a == (self@.queue_pfn as u64).wrapping_mul(self@.page_size as u64),
    {
        let pfn = self.queue_pfn as u64;
        let ps = self.page_size as u64;
        proof {
            assert(pfn * ps <= 0xffff_ffff_ffff_ffff) by (nonlinear_arith)
                requires
                    pfn < 0x1_0000_0000,
                    ps < 0x1_0000_0000,
            ;
            vstd::arithmetic::div_mod::lemma_small_mod(
                (pfn * ps) as nat,
                0x1_0000_0000_0000_0000nat,
            );
        }
        pfn * ps
    }

    /// The disk size in bytes.
    pub fn disk_len(&self) -> (n: u64)
        ensures
            n == self@.disk.len(),
    {
        self.disk.len() as u64
    }

    /// Read the disk byte at `idx`.
    pub fn read_disk(&self, idx: u64) -> (b: u8)
        requires
            idx < self@.disk.len(),
        ensures
            b == self@.disk[idx as int],
    {
        let n = self.disk.len();
        proof {
            assert(idx < n);
        }
        self.disk[idx as usize]
    }

    /// Write `b` to the disk byte at `idx`.
    pub fn write_disk(&mut self, idx: u64, b: u8)
        requires
            idx < old(self)@.disk.len(),
        ensures
            final(self)@ == (VirtioView { disk: old(self)@.disk.update(idx as int, b), ..old(self)@ }),
    {
        let n = self.disk.len();
        proof {
            assert(idx < n);
        }
        self.disk[idx as usize] = b;
        proof {
            assert(self@ =~= (VirtioView {
                disk: old(self)@.disk.update(idx as int, b),
                ..old(self)@
            }));
        }
    }

    /// The next available-ring index to consume.
    pub fn last_avail(&self) -> (r: u16)
        ensures
            r == self@.last_avail,
    {
        self.last_avail
    }

    /// Move past one consumed available-ring entry.
    pub fn advance_avail(&mut self)
        ensures
            final(self)@ == (VirtioView {
                last_avail: old(self)@.last_avail.wrapping_add(1),
                ..old(self)@
            }),
    {
        self.last_avail = self.last_avail.wrapping_add(1);
        proof {
            assert(self@ =~= (VirtioView {
                last_avail: old(self)@.last_avail.wrapping_add(1),
                ..old(self)@
            }));
        }
    }

    /// Count one more completed descriptor chain, returning the new count.
    pub fn next_used_id(&mut self) -> (r: u64)
        ensures
            final(self)@ == (VirtioView { id: old(self)@.id.wrapping_add(1), ..old(self)@ }),
            r == final(self)@.id,
    {
        self.id = self.id.wrapping_add(1);
        self.id
    }
}

} // verus!
