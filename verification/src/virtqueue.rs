//! The virtqueue protocol as a transition specification: what processing a
//! queue notification does to the bus, stated as spec functions that the
//! hart's queue-walking code is proved to implement exactly. A chain is a
//! request header (type and sector), a data buffer, and a status byte; the
//! walk consumes the available ring from the device's last-seen index up to
//! the index the driver published, completing each chain on the used ring.

use vstd::prelude::*;
use crate::bus::{bus_load_post, bus_load_val, bus_store_post, bus_store_res, BusView};
use crate::exception::Exception;
use crate::virtio::VirtioView;

verus! {

/// The byte-wise copy of one data buffer: for a guest write (`to_disk`) each
/// guest byte lands on the disk, for a guest read each disk byte is stored
/// into guest memory; a byte whose disk offset runs past the end of the disk
/// is skipped (reads store zero) and the request is marked failed; a DMA
/// fault stops the copy with the bus's exception.
pub open spec fn vq_copy(
    b: BusView,
    to_disk: bool,
    sector: u64,
    data_addr: u64,
    len: u64,
    i: u64,
    ok: bool,
) -> (BusView, bool, Result<(), Exception>)
    decreases len - i,
{
    if i >= len {
        (b, ok, Ok(()))
    } else {
        let disk_off = sector.wrapping_mul(512).wrapping_add(i);
        let guest = data_addr.wrapping_add(i);
        if to_disk {
            let b2 = bus_load_post(b, guest, 8);
            match bus_load_val(b, guest, 8) {
                Ok(v) => {
                    if disk_off < b2.virtio.disk.len() {
                        let b3 = BusView {
                            virtio: VirtioView {
                                disk: b2.virtio.disk.update(disk_off as int, (v & 0xff) as u8),
                                ..b2.virtio
                            },
                            ..b2
                        };
                        vq_copy(b3, to_disk, sector, data_addr, len, (i + 1) as u64, ok)
                    } else {
                        vq_copy(b2, to_disk, sector, data_addr, len, (i + 1) as u64, false)
                    }
                },
                Err(e) => (b2, ok, Err(e)),
            }
        } else {
            let in_disk = disk_off < b.virtio.disk.len();
            let byte: u8 = if in_disk {
                b.virtio.disk[disk_off as int]
            } else {
                0
            };
            let ok2 = ok && in_disk;
            let b2 = bus_store_post(b, guest, 8, byte as u64);
            match bus_store_res(b, guest, 8) {
                Ok(_) => vq_copy(b2, to_disk, sector, data_addr, len, (i + 1) as u64, ok2),
                Err(e) => (b2, ok2, Err(e)),
            }
        }
    }
}

/// Processing one chain headed by descriptor `head`: read the header
/// descriptor and the request header behind it, read the data descriptor,
/// copy its buffer between disk and guest memory, then write the status byte
/// named by the third descriptor — zero on success, one when the request ran
/// past the end of the disk. The result carries `head` for the used ring; a
/// DMA fault stops with the bus's exception.
pub open spec fn vq_process_chain(b: BusView, desc_addr: u64, head: u64) -> (
    BusView,
    Result<u64, Exception>,
) {
    let desc0 = desc_addr.wrapping_add(head.wrapping_mul(16));
    let b1 = bus_load_post(b, desc0, 64);
    match bus_load_val(b, desc0, 64) {
        Err(e) => (b1, Err(e)),
        Ok(hdr_addr) => {
            let b2 = bus_load_post(b1, desc0.wrapping_add(14), 16);
            match bus_load_val(b1, desc0.wrapping_add(14), 16) {
                Err(e) => (b2, Err(e)),
                Ok(next0) => {
                    let b3 = bus_load_post(b2, hdr_addr, 32);
                    match bus_load_val(b2, hdr_addr, 32) {
                        Err(e) => (b3, Err(e)),
                        Ok(req_type) => {
                            let b4 = bus_load_post(b3, hdr_addr.wrapping_add(8), 64);
                            match bus_load_val(b3, hdr_addr.wrapping_add(8), 64) {
                                Err(e) => (b4, Err(e)),
                                Ok(sector) => {
                                    let desc1 = desc_addr.wrapping_add(next0.wrapping_mul(16));
                                    let b5 = bus_load_post(b4, desc1, 64);
                                    match bus_load_val(b4, desc1, 64) {
                                        Err(e) => (b5, Err(e)),
                                        Ok(data_addr) => vq_process_data(
                                            b5,
                                            desc_addr,
                                            head,
                                            req_type,
                                            sector,
                                            desc1,
                                            data_addr,
                                        ),
                                    }
                                },
                            }
                        },
                    }
                },
            }
        },
    }
}

/// The tail of chain processing, from the data descriptor's length on: the
/// copy, then the status byte.
pub open spec fn vq_process_data(
    b: BusView,
    desc_addr: u64,
    head: u64,
    req_type: u64,
    sector: u64,
    desc1: u64,
    data_addr: u64,
) -> (BusView, Result<u64, Exception>) {
    let b6 = bus_load_post(b, desc1.wrapping_add(8), 32);
    match bus_load_val(b, desc1.wrapping_add(8), 32) {
        Err(e) => (b6, Err(e)),
        Ok(data_len) => {
            let b7 = bus_load_post(b6, desc1.wrapping_add(14), 16);
            match bus_load_val(b6, desc1.wrapping_add(14), 16) {
                Err(e) => (b7, Err(e)),
                Ok(next1) => {
                    let (b8, ok, rc) = vq_copy(
                        b7,
                        req_type == 1,
                        sector,
                        data_addr,
                        data_len,
                        0,
                        true,
                    );
                    match rc {
                        Err(e) => (b8, Err(e)),
                        Ok(_) => {
                            let desc2 = desc_addr.wrapping_add(next1.wrapping_mul(16));
                            let b9 = bus_load_post(b8, desc2, 64);
                            match bus_load_val(b8, desc2, 64) {
                                Err(e) => (b9, Err(e)),
                                Ok(status_addr) => {
                                    let status: u64 = if ok {
                                        0
                                    } else {
                                        1
                                    };
                                    let b10 = bus_store_post(b9, status_addr, 8, status);
                                    match bus_store_res(b9, status_addr, 8) {
                                        Err(e) => (b10, Err(e)),
                                        Ok(_) => (b10, Ok(head)),
                                    }
                                },
                            }
                        },
                    }
                },
            }
        },
    }
}

/// Completing one chain on the used ring: the used counter advances, the
/// chain's head goes into the used element the counter names, the new count
/// is published as the used index, and the device moves past the consumed
/// available-ring entry.
pub open spec fn vq_complete(b: BusView, used_addr: u64, head: u64) -> (
    BusView,
    Result<(), Exception>,
) {
    let id = b.virtio.id.wrapping_add(1);
    let b1 = BusView { virtio: VirtioView { id, ..b.virtio }, ..b };
    let used_elem = used_addr.wrapping_add(4).wrapping_add(
        (id.wrapping_sub(1) % 8).wrapping_mul(8),
    );
    let b2 = bus_store_post(b1, used_elem, 32, head);
    match bus_store_res(b1, used_elem, 32) {
        Err(e) => (b2, Err(e)),
        Ok(_) => {
            let b3 = bus_store_post(b2, used_addr.wrapping_add(2), 16, id);
            match bus_store_res(b2, used_addr.wrapping_add(2), 16) {
                Err(e) => (b3, Err(e)),
                Ok(_) => {
                    let b4 = BusView {
                        virtio: VirtioView {
                            last_avail: b3.virtio.last_avail.wrapping_add(1),
                            ..b3.virtio
                        },
                        ..b3
                    };
                    (b4, Ok(()))
                },
            }
        },
    }
}

/// The walk over the available ring: while the device's last-seen index has
/// not caught up with the published index (and a safety bound of one full
/// index space is not exhausted), read the ring entry, process its chain,
/// and complete it; the first DMA fault stops the walk.
pub open spec fn vq_run(
    b: BusView,
    desc_addr: u64,
    avail_addr: u64,
    used_addr: u64,
    avail_idx: u64,
    rounds: u64,
) -> (BusView, Result<(), Exception>)
    decreases 0x10000 - rounds,
{
    if rounds >= 0x10000 || b.virtio.last_avail as u64 == avail_idx {
        (b, Ok(()))
    } else {
        let last = b.virtio.last_avail as u64;
        let ring_addr = avail_addr.wrapping_add(4).wrapping_add((last % 8).wrapping_mul(2));
        let b1 = bus_load_post(b, ring_addr, 16);
        match bus_load_val(b, ring_addr, 16) {
            Err(e) => (b1, Err(e)),
            Ok(head) => {
                let (b2, rc) = vq_process_chain(b1, desc_addr, head);
                match rc {
                    Err(e) => (b2, Err(e)),
                    Ok(h) => {
                        let (b3, rc3) = vq_complete(b2, used_addr, h);
                        match rc3 {
                            Err(e) => (b3, Err(e)),
                            Ok(_) => vq_run(
                                b3,
                                desc_addr,
                                avail_addr,
                                used_addr,
                                avail_idx,
                                (rounds + 1) as u64,
                            ),
                        }
                    },
                }
            },
        }
    }
}

/// What one queue notification does to the bus: the descriptor table sits at
/// the queue's page frame number times the guest page size, the available
/// ring 0x40 bytes above it and the used ring a page above it; the published
/// index is read and the walk runs from the device's last-seen index.
pub open spec fn vq_notify(b: BusView) -> (BusView, Result<(), Exception>) {
    let desc_addr = (b.virtio.queue_pfn as u64).wrapping_mul(b.virtio.page_size as u64);
    let avail_addr = desc_addr.wrapping_add(0x40);
    let used_addr = desc_addr.wrapping_add(4096);
    let b1 = bus_load_post(b, avail_addr.wrapping_add(2), 16);
    match bus_load_val(b, avail_addr.wrapping_add(2), 16) {
        Err(e) => (b1, Err(e)),
        Ok(avail_idx) => vq_run(b1, desc_addr, avail_addr, used_addr, avail_idx, 0),
    }
}

} // verus!
