//! The virtio-mmio block device: register window, split-ring data
//! plane, and a sector-addressable backing store.
//!
//! The backing store is held as bytes handed in at construction;
//! the host side reads the disk image into it and persists it back.

use vstd::prelude::*;

verus! {

use crate::memory::{spec_write_bytes, GuestMemory};
use crate::virtqueue::{
    spec_add_used_mem, spec_avail_idx, spec_avail_slot, spec_desc_offset, spec_read_desc,
    VirtQueue, VirtqDesc, VRING_DESC_F_NEXT,
};
use vstd::bytes::{
    spec_u16_from_le_bytes, spec_u32_from_le_bytes, spec_u32_to_le_bytes, spec_u64_from_le_bytes,
    u32_from_le_bytes, u32_to_le_bytes,
};
use vstd::slice::slice_subrange;

/// Register offset of the magic value.
pub const VIRTIO_MMIO_MAGIC_VALUE: u64 = 0x000;

/// Register offset of the device version.
pub const VIRTIO_MMIO_VERSION: u64 = 0x004;

/// Register offset of the device id.
pub const VIRTIO_MMIO_DEVICE_ID: u64 = 0x008;

/// Register offset of the vendor id.
pub const VIRTIO_MMIO_VENDOR_ID: u64 = 0x00c;

/// Register offset of the device-features window.
pub const VIRTIO_MMIO_DEVICE_FEATURES: u64 = 0x010;

/// Register offset of the device-features selector.
pub const VIRTIO_MMIO_DEVICE_FEATURES_SEL: u64 = 0x014;

/// Register offset of the driver-features window.
pub const VIRTIO_MMIO_DRIVER_FEATURES: u64 = 0x020;

/// Register offset of the driver-features selector.
pub const VIRTIO_MMIO_DRIVER_FEATURES_SEL: u64 = 0x024;

/// Register offset of the queue selector.
pub const VIRTIO_MMIO_QUEUE_SEL: u64 = 0x030;

/// Register offset of the maximum queue size.
pub const VIRTIO_MMIO_QUEUE_NUM_MAX: u64 = 0x034;

/// Register offset of the configured queue size.
pub const VIRTIO_MMIO_QUEUE_NUM: u64 = 0x038;

/// Register offset of the queue-ready flag.
pub const VIRTIO_MMIO_QUEUE_READY: u64 = 0x044;

/// Register offset of the queue-notify doorbell.
pub const VIRTIO_MMIO_QUEUE_NOTIFY: u64 = 0x050;

/// Register offset of the interrupt status.
pub const VIRTIO_MMIO_INTERRUPT_STATUS: u64 = 0x060;

/// Register offset of the interrupt acknowledge.
pub const VIRTIO_MMIO_INTERRUPT_ACK: u64 = 0x064;

/// Register offset of the device status.
pub const VIRTIO_MMIO_STATUS: u64 = 0x070;

/// Register offset of the descriptor-table address, low half.
pub const VIRTIO_MMIO_QUEUE_DESC_LOW: u64 = 0x080;

/// Register offset of the descriptor-table address, high half.
pub const VIRTIO_MMIO_QUEUE_DESC_HIGH: u64 = 0x084;

/// Register offset of the available-ring address, low half.
pub const VIRTIO_MMIO_QUEUE_AVAIL_LOW: u64 = 0x090;

/// Register offset of the available-ring address, high half.
pub const VIRTIO_MMIO_QUEUE_AVAIL_HIGH: u64 = 0x094;

/// Register offset of the used-ring address, low half.
pub const VIRTIO_MMIO_QUEUE_USED_LOW: u64 = 0x0a0;

/// Register offset of the used-ring address, high half.
pub const VIRTIO_MMIO_QUEUE_USED_HIGH: u64 = 0x0a4;

/// First register offset of the device config space.
pub const VIRTIO_MMIO_CONFIG: u64 = 0x100;

/// The virtio-mmio magic, "virt" little-endian.
pub const MAGIC_VALUE: u32 = 0x74726976;

/// Virtio-mmio version 2.
pub const VERSION: u32 = 2;

/// Device id of a block device.
pub const DEVICE_ID_BLOCK: u32 = 2;

/// Vendor id, "QEMU" little-endian.
pub const VENDOR_ID: u32 = 0x554d4551;

/// The low feature word offered: SIZE_MAX, SEG_MAX, GEOMETRY and
/// BLK_SIZE.
pub const BLK_FEATURES_LOW: u32 = 0x56;

/// The high feature word offered: VERSION_1.
pub const BLK_FEATURES_HIGH: u32 = 1;

/// Sectors the config space reports.
pub const DISK_SIZE_SECTORS: u64 = 204800;

/// Logical sector size in bytes.
pub const SECTOR_SIZE: u32 = 512;

/// Request type: read a sector range into the guest.
pub const VIRTIO_BLK_T_IN: u32 = 0;

/// Request type: write a sector range from the guest.
pub const VIRTIO_BLK_T_OUT: u32 = 1;

/// Status byte for a completed request.
pub const VIRTIO_BLK_S_OK: u8 = 0;

/// The virtio-mmio block device.
pub struct VirtioBlock {
    pub status: u32,
    pub features_sel: u32,
    pub driver_features: u64,
    pub interrupt_status: u32,
    pub queue_sel: u32,
    pub queue_num: u32,
    pub queue_ready: u32,
    pub queue_desc: u64,
    pub queue_avail: u64,
    pub queue_used: u64,
    pub last_avail_idx: u16,
    /// The sector-addressable backing store, when a disk is
    /// configured.
    pub disk: Option<Vec<u8>>,
}

/// What a register read returns for each offset.
pub open spec fn spec_block_reg_read(d: &VirtioBlock, offset: u64) -> u32 {
    if offset == VIRTIO_MMIO_MAGIC_VALUE {
        MAGIC_VALUE
    } else if offset == VIRTIO_MMIO_VERSION {
        VERSION
    } else if offset == VIRTIO_MMIO_DEVICE_ID {
        DEVICE_ID_BLOCK
    } else if offset == VIRTIO_MMIO_VENDOR_ID {
        VENDOR_ID
    } else if offset == VIRTIO_MMIO_DEVICE_FEATURES {
        if d.features_sel == 0 {
            BLK_FEATURES_LOW
        } else {
            BLK_FEATURES_HIGH
        }
    } else if offset == VIRTIO_MMIO_QUEUE_NUM_MAX {
        256u32
    } else if offset == VIRTIO_MMIO_QUEUE_READY {
        d.queue_ready
    } else if offset == VIRTIO_MMIO_INTERRUPT_STATUS {
        d.interrupt_status
    } else if offset == VIRTIO_MMIO_STATUS {
        d.status
    } else if offset == VIRTIO_MMIO_CONFIG {
        DISK_SIZE_SECTORS as u32
    } else if offset == 0x104 {
        0u32
    } else if offset == 0x114 {
        SECTOR_SIZE
    } else {
        0u32
    }
}

/// The register offsets whose writes the block device acts on.
pub open spec fn spec_block_known_write(offset: u64) -> bool {
    ||| offset == VIRTIO_MMIO_DEVICE_FEATURES_SEL
    ||| offset == VIRTIO_MMIO_DRIVER_FEATURES_SEL
    ||| offset == VIRTIO_MMIO_DRIVER_FEATURES
    ||| offset == VIRTIO_MMIO_QUEUE_SEL
    ||| offset == VIRTIO_MMIO_QUEUE_NUM
    ||| offset == VIRTIO_MMIO_QUEUE_READY
    ||| offset == VIRTIO_MMIO_QUEUE_NOTIFY
    ||| offset == VIRTIO_MMIO_INTERRUPT_ACK
    ||| offset == VIRTIO_MMIO_STATUS
    ||| offset == VIRTIO_MMIO_QUEUE_DESC_LOW
    ||| offset == VIRTIO_MMIO_QUEUE_DESC_HIGH
    ||| offset == VIRTIO_MMIO_QUEUE_AVAIL_LOW
    ||| offset == VIRTIO_MMIO_QUEUE_AVAIL_HIGH
    ||| offset == VIRTIO_MMIO_QUEUE_USED_LOW
    ||| offset == VIRTIO_MMIO_QUEUE_USED_HIGH
}

/// The device's queue as the shared virtqueue engine sees it.
pub open spec fn spec_block_queue(d: &VirtioBlock) -> VirtQueue {
    VirtQueue {
        desc_addr: d.queue_desc,
        avail_addr: d.queue_avail,
        used_addr: d.queue_used,
        queue_size: (d.queue_num & 0xFFFF) as u16,
        ready: d.queue_ready != 0,
        last_avail_idx: d.last_avail_idx,
    }
}

/// Whether a queue notify is owed a completion interrupt: the queue
/// is ready and sized, the guest has published a new head whose ring
/// slot is readable, and that head's chain parses completely.
pub open spec fn spec_notify_pending(d: &VirtioBlock, m: Seq<u8>) -> bool {
    let q = spec_block_queue(d);
    &&& q.queue_size != 0
    &&& d.queue_ready != 0
    &&& q.avail_addr + 4 <= m.len()
    &&& spec_avail_idx(q, m) != q.last_avail_idx
    &&& spec_avail_slot(q) + 2 <= m.len()
    &&& spec_parse_chain(
        q,
        m,
        spec_u16_from_le_bytes(m.subrange(spec_avail_slot(q), spec_avail_slot(q) + 2)),
        spec_chain_init(),
        0,
        q.queue_size as nat,
    ) is Some
}

/// The classification of one request chain: the header fields, the
/// single data descriptor, and the status descriptor.
#[derive(Clone, Copy, Debug, PartialEq, Eq, Structural)]
pub struct ChainInfo {
    pub sector: u64,
    pub is_write: bool,
    pub data_addr: u64,
    pub data_len: u32,
    pub status_addr: u64,
}

/// An empty classification, before any descriptor is seen.
pub open spec fn spec_chain_init() -> ChainInfo {
    ChainInfo { sector: 0u64, is_write: false, data_addr: 0u64, data_len: 0u32, status_addr: 0u64 }
}

/// How one descriptor updates the classification, by phase: the
/// first descriptor carries the request header, middle descriptors
/// carry data, and the last one is the status byte.
pub open spec fn spec_chain_apply(st: ChainInfo, phase: int, d: VirtqDesc, m: Seq<u8>) -> ChainInfo {
    if phase == 0 {
        if d.addr + 16 <= m.len() && d.len >= 16 {
            ChainInfo {
                sector: spec_u64_from_le_bytes(m.subrange(d.addr + 8, d.addr + 16)),
                is_write: spec_u32_from_le_bytes(m.subrange(d.addr as int, d.addr + 4))
                    == VIRTIO_BLK_T_OUT,
                ..st
            }
        } else {
            st
        }
    } else if phase == 1 {
        if d.flags & VRING_DESC_F_NEXT != 0 {
            ChainInfo { data_addr: d.addr, data_len: d.len, ..st }
        } else {
            ChainInfo { status_addr: d.addr, ..st }
        }
    } else {
        ChainInfo { status_addr: d.addr, ..st }
    }
}

/// The phase after one descriptor is consumed.
pub open spec fn spec_chain_next_phase(phase: int, d: VirtqDesc) -> int {
    if phase == 0 {
        1
    } else if phase == 1 && d.flags & VRING_DESC_F_NEXT == 0 {
        2
    } else {
        phase
    }
}

/// Walks a descriptor chain from `idx`, classifying descriptors by
/// position, for at most `fuel` further hops.  An unreadable
/// descriptor ends the walk with the state so far; a chain still
/// running after the fuel is spent is malformed (`None`).
pub open spec fn spec_parse_chain(
    q: VirtQueue,
    m: Seq<u8>,
    idx: u16,
    st: ChainInfo,
    phase: int,
    fuel: nat,
) -> Option<ChainInfo>
    decreases fuel,
{
    if spec_desc_offset(q, idx) + 16 > m.len() {
        Some(st)
    } else {
        let d = spec_read_desc(q, m, idx);
        let st1 = spec_chain_apply(st, phase, d, m);
        if d.flags & VRING_DESC_F_NEXT == 0 {
            Some(st1)
        } else if fuel == 0 {
            None
        } else {
            spec_parse_chain(q, m, d.next, st1, spec_chain_next_phase(phase, d), (fuel - 1) as nat)
        }
    }
}

/// The number of disk bytes an IN request moves: up to the data
/// descriptor's length, bounded by what the disk holds past the
/// requested sector.
pub open spec fn spec_disk_read_count(disk: Seq<u8>, info: ChainInfo) -> int {
    let off = info.sector * 512;
    if off >= disk.len() {
        0
    } else if info.data_len <= disk.len() - off {
        info.data_len as int
    } else {
        disk.len() - off
    }
}

/// Guest memory after one request's transfer and status write: an
/// IN request copies disk bytes into the data buffer when they fit,
/// and the status byte is written when its descriptor is usable.
pub open spec fn spec_chain_effects_mem(m: Seq<u8>, disk: Option<Vec<u8>>, info: ChainInfo) -> Seq<
    u8,
> {
    let did_read = !info.is_write && disk is Some && info.data_addr != 0 && info.data_len > 0;
    let nread = if did_read {
        spec_disk_read_count(disk->0@, info)
    } else {
        0
    };
    let m1 = if did_read && nread > 0 && info.data_addr + nread <= m.len() {
        spec_write_bytes(
            m,
            info.data_addr as int,
            disk->0@.subrange(info.sector * 512, info.sector * 512 + nread),
        )
    } else {
        m
    };
    if info.status_addr != 0 && info.status_addr + 1 <= m.len() {
        spec_write_bytes(m1, info.status_addr as int, seq![VIRTIO_BLK_S_OK])
    } else {
        m1
    }
}

/// The byte count a request publishes: the disk bytes an IN request
/// moved, plus one for the status byte.
pub open spec fn spec_chain_written(m: Seq<u8>, disk: Option<Vec<u8>>, info: ChainInfo) -> u32 {
    let did_read = !info.is_write && disk is Some && info.data_addr != 0 && info.data_len > 0;
    let nread = if did_read {
        spec_disk_read_count(disk->0@, info)
    } else {
        0
    };
    vstd::wrapping::u32_specs::wrapping_add(
        nread as u32,
        if info.status_addr != 0 && info.status_addr + 1 <= m.len() {
            1u32
        } else {
            0u32
        },
    )
}

/// Whether exactly one request is pending: the queue is live, the
/// guest index sits one ahead of the device's, and the ring slot
/// holding the head is readable.
pub open spec fn spec_single_pending(d: &VirtioBlock, m: Seq<u8>) -> bool {
    let q = spec_block_queue(d);
    &&& q.queue_size != 0
    &&& d.queue_ready != 0
    &&& q.avail_addr + 4 <= m.len()
    &&& spec_avail_idx(q, m) == vstd::wrapping::u16_specs::wrapping_add(q.last_avail_idx, 1)
    &&& spec_avail_slot(q) + 2 <= m.len()
}

/// Guest memory after the single pending request is served: the
/// chain's transfer and status write, then the used-ring
/// publication; a malformed chain changes nothing.
pub open spec fn spec_single_outcome_mem(d: &VirtioBlock, m: Seq<u8>) -> Seq<u8> {
    let q = spec_block_queue(d);
    let head = spec_u16_from_le_bytes(m.subrange(spec_avail_slot(q), spec_avail_slot(q) + 2));
    match spec_parse_chain(q, m, head, spec_chain_init(), 0, q.queue_size as nat) {
        None => m,
        Some(info) => spec_add_used_mem(
            q,
            spec_chain_effects_mem(m, d.disk, info),
            head,
            spec_chain_written(m, d.disk, info),
        ),
    }
}

/// Whether serving the single pending request completes it (and so
/// raises the interrupt): exactly when its chain parses.
pub open spec fn spec_single_outcome_irq(d: &VirtioBlock, m: Seq<u8>) -> bool {
    let q = spec_block_queue(d);
    let head = spec_u16_from_le_bytes(m.subrange(spec_avail_slot(q), spec_avail_slot(q) + 2));
    spec_parse_chain(q, m, head, spec_chain_init(), 0, q.queue_size as nat) is Some
}

impl VirtioBlock {
    /// A block device over the given backing store; `None` means no
    /// disk is configured and reads move no data.
    pub fn new(disk: Option<Vec<u8>>) -> (r: Self)
        ensures
            r.status == 0 && r.features_sel == 0 && r.driver_features == 0
                && r.interrupt_status == 0 && r.queue_sel == 0 && r.queue_num == 0
                && r.queue_ready == 0 && r.queue_desc == 0 && r.queue_avail == 0 && r.queue_used
                == 0 && r.last_avail_idx == 0,
            r.disk == disk,
    {
        VirtioBlock {
            status: 0,
            features_sel: 0,
            driver_features: 0,
            interrupt_status: 0,
            queue_sel: 0,
            queue_num: 0,
            queue_ready: 0,
            queue_desc: 0,
            queue_avail: 0,
            queue_used: 0,
            last_avail_idx: 0,
            disk,
        }
    }

    /// Handles an MMIO read of `len` bytes at a register offset:
    /// the register value as little-endian bytes, at most four.
    pub fn read(&self, offset: u64, len: usize) -> (r: Vec<u8>)
        ensures
            r@.len() == if len <= 4 {
                len as int
            } else {
                4
            },
            r@ == spec_u32_to_le_bytes(spec_block_reg_read(self, offset)).take(r@.len() as int),
    {
        let val: u32 = if offset == VIRTIO_MMIO_MAGIC_VALUE {
            MAGIC_VALUE
        } else if offset == VIRTIO_MMIO_VERSION {
            VERSION
        } else if offset == VIRTIO_MMIO_DEVICE_ID {
            DEVICE_ID_BLOCK
        } else if offset == VIRTIO_MMIO_VENDOR_ID {
            VENDOR_ID
        } else if offset == VIRTIO_MMIO_DEVICE_FEATURES {
            if self.features_sel == 0 {
                BLK_FEATURES_LOW
            } else {
                BLK_FEATURES_HIGH
            }
        } else if offset == VIRTIO_MMIO_QUEUE_NUM_MAX {
            256
        } else if offset == VIRTIO_MMIO_QUEUE_READY {
            self.queue_ready
        } else if offset == VIRTIO_MMIO_INTERRUPT_STATUS {
            self.interrupt_status
        } else if offset == VIRTIO_MMIO_STATUS {
            self.status
        } else if offset == VIRTIO_MMIO_CONFIG {
            DISK_SIZE_SECTORS as u32
        } else if offset == 0x104 {
            0
        } else if offset == 0x114 {
            SECTOR_SIZE
        } else {
            0
        };
        proof {
            vstd::bytes::lemma_auto_spec_u32_to_from_le_bytes();
        }
        let bytes = u32_to_le_bytes(val);
        let n: usize = if len <= 4 {
            len
        } else {
            4
        };
        let mut out: Vec<u8> = Vec::new();
        let mut k: usize = 0;
        while k < n
            invariant
                n <= 4,
                bytes@.len() == 4,
                bytes@ == spec_u32_to_le_bytes(val),
                k <= n,
                out@.len() == k,
                forall|i: int| 0 <= i < k ==> out@[i] == bytes@[i],
            decreases n - k,
        {
            out.push(bytes[k]);
            k = k + 1;
        }
        proof {
            assert(out@ =~= spec_u32_to_le_bytes(spec_block_reg_read(self, offset)).take(n as int));
        }
        out
    }

    /// Handles an MMIO register write; a queue-notify write runs the
    /// data plane.  Returns whether an interrupt should be injected.
    pub fn write(&mut self, offset: u64, data: &[u8], mem: &mut GuestMemory) -> (irq: bool)
        ensures
            final(mem)@.len() == old(mem)@.len(),
            irq ==> offset == VIRTIO_MMIO_QUEUE_NOTIFY && final(self).interrupt_status == old(
                self,
            ).interrupt_status | 1,
            data@.len() < 4 ==> *final(self) == *old(self) && final(mem)@ == old(mem)@ && !irq,
            data@.len() >= 4 && !spec_block_known_write(offset) ==> *final(self) == *old(self)
                && final(mem)@ == old(mem)@ && !irq,
            data@.len() >= 4 ==> {
                let val = spec_u32_from_le_bytes(data@.take(4));
                &&& (offset == VIRTIO_MMIO_DEVICE_FEATURES_SEL || offset
                    == VIRTIO_MMIO_DRIVER_FEATURES_SEL) ==> *final(self) == (VirtioBlock {
                    features_sel: val,
                    ..*old(self)
                }) && final(mem)@ == old(mem)@ && !irq
                &&& offset == VIRTIO_MMIO_DRIVER_FEATURES ==> *final(self) == (VirtioBlock {
                    driver_features: if old(self).features_sel == 0 {
                        (old(self).driver_features & 0xFFFFFFFF00000000u64) | (val as u64)
                    } else {
                        (old(self).driver_features & 0xFFFFFFFFu64) | ((val as u64) << 32)
                    },
                    ..*old(self)
                }) && final(mem)@ == old(mem)@ && !irq
                &&& offset == VIRTIO_MMIO_QUEUE_SEL ==> *final(self) == (VirtioBlock {
                    queue_sel: val,
                    ..*old(self)
                }) && final(mem)@ == old(mem)@ && !irq
                &&& offset == VIRTIO_MMIO_QUEUE_NUM ==> *final(self) == (VirtioBlock {
                    queue_num: val,
                    ..*old(self)
                }) && final(mem)@ == old(mem)@ && !irq
                &&& offset == VIRTIO_MMIO_QUEUE_READY ==> *final(self) == (VirtioBlock {
                    queue_ready: val,
                    ..*old(self)
                }) && final(mem)@ == old(mem)@ && !irq
                &&& offset == VIRTIO_MMIO_INTERRUPT_ACK ==> *final(self) == (VirtioBlock {
                    interrupt_status: old(self).interrupt_status & !val,
                    ..*old(self)
                }) && final(mem)@ == old(mem)@ && !irq
                &&& offset == VIRTIO_MMIO_STATUS ==> *final(self) == (VirtioBlock {
                    status: val,
                    queue_ready: if val == 0 && old(self).status != 0 {
                        0u32
                    } else {
                        old(self).queue_ready
                    },
                    last_avail_idx: if val == 0 && old(self).status != 0 {
                        0u16
                    } else {
                        old(self).last_avail_idx
                    },
                    ..*old(self)
                }) && final(mem)@ == old(mem)@ && !irq
                &&& offset == VIRTIO_MMIO_QUEUE_DESC_LOW ==> *final(self) == (VirtioBlock {
                    queue_desc: (old(self).queue_desc & 0xFFFFFFFF00000000u64) | (val as u64),
                    ..*old(self)
                }) && final(mem)@ == old(mem)@ && !irq
                &&& offset == VIRTIO_MMIO_QUEUE_DESC_HIGH ==> *final(self) == (VirtioBlock {
                    queue_desc: (old(self).queue_desc & 0xFFFFFFFFu64) | ((val as u64) << 32),
                    ..*old(self)
                }) && final(mem)@ == old(mem)@ && !irq
                &&& offset == VIRTIO_MMIO_QUEUE_AVAIL_LOW ==> *final(self) == (VirtioBlock {
                    queue_avail: (old(self).queue_avail & 0xFFFFFFFF00000000u64) | (val as u64),
                    ..*old(self)
                }) && final(mem)@ == old(mem)@ && !irq
                &&& offset == VIRTIO_MMIO_QUEUE_AVAIL_HIGH ==> *final(self) == (VirtioBlock {
                    queue_avail: (old(self).queue_avail & 0xFFFFFFFFu64) | ((val as u64) << 32),
                    ..*old(self)
                }) && final(mem)@ == old(mem)@ && !irq
                &&& offset == VIRTIO_MMIO_QUEUE_USED_LOW ==> *final(self) == (VirtioBlock {
                    queue_used: (old(self).queue_used & 0xFFFFFFFF00000000u64) | (val as u64),
                    ..*old(self)
                }) && final(mem)@ == old(mem)@ && !irq
                &&& offset == VIRTIO_MMIO_QUEUE_USED_HIGH ==> *final(self) == (VirtioBlock {
                    queue_used: (old(self).queue_used & 0xFFFFFFFFu64) | ((val as u64) << 32),
                    ..*old(self)
                }) && final(mem)@ == old(mem)@ && !irq
                &&& offset == VIRTIO_MMIO_QUEUE_NOTIFY ==> {
                    &&& spec_notify_pending(old(self), old(mem)@) ==> irq
                    &&& spec_single_pending(old(self), old(mem)@) ==> final(self).last_avail_idx
                        == vstd::wrapping::u16_specs::wrapping_add(old(self).last_avail_idx, 1)
                        && final(mem)@ == spec_single_outcome_mem(old(self), old(mem)@) && irq
                        == spec_single_outcome_irq(old(self), old(mem)@)
                    &&& irq ==> final(self).interrupt_status == old(self).interrupt_status | 1
                    &&& !irq ==> final(self).interrupt_status == old(self).interrupt_status
                        && final(mem)@ == old(mem)@
                    &&& final(self).status == old(self).status
                    &&& final(self).queue_ready == old(self).queue_ready
                    &&& final(self).queue_num == old(self).queue_num
                    &&& final(self).queue_desc == old(self).queue_desc
                    &&& final(self).queue_avail == old(self).queue_avail
                    &&& final(self).queue_used == old(self).queue_used
                }
            },
    {
        if data.len() < 4 {
            return false;
        }
        let val = u32_from_le_bytes(slice_subrange(data, 0, 4));
        proof {
            assert(data@.subrange(0, 4) =~= data@.take(4));
        }
        if offset == VIRTIO_MMIO_DEVICE_FEATURES_SEL || offset == VIRTIO_MMIO_DRIVER_FEATURES_SEL {
            self.features_sel = val;
            false
        } else if offset == VIRTIO_MMIO_DRIVER_FEATURES {
            if self.features_sel == 0 {
                self.driver_features = (self.driver_features & 0xFFFFFFFF00000000) | (val as u64);
            } else {
                self.driver_features = (self.driver_features & 0xFFFFFFFF) | ((val as u64) << 32);
            }
            false
        } else if offset == VIRTIO_MMIO_QUEUE_SEL {
            self.queue_sel = val;
            false
        } else if offset == VIRTIO_MMIO_QUEUE_NUM {
            self.queue_num = val;
            false
        } else if offset == VIRTIO_MMIO_QUEUE_READY {
            self.queue_ready = val;
            false
        } else if offset == VIRTIO_MMIO_QUEUE_NOTIFY {
            self.process_queue(mem)
        } else if offset == VIRTIO_MMIO_INTERRUPT_ACK {
            self.interrupt_status = self.interrupt_status & !val;
            false
        } else if offset == VIRTIO_MMIO_STATUS {
            let was = self.status;
            self.status = val;
            if val == 0 && was != 0 {
                self.queue_ready = 0;
                self.last_avail_idx = 0;
            }
            false
        } else if offset == VIRTIO_MMIO_QUEUE_DESC_LOW {
            self.queue_desc = (self.queue_desc & 0xFFFFFFFF00000000) | (val as u64);
            false
        } else if offset == VIRTIO_MMIO_QUEUE_DESC_HIGH {
            self.queue_desc = (self.queue_desc & 0xFFFFFFFF) | ((val as u64) << 32);
            false
        } else if offset == VIRTIO_MMIO_QUEUE_AVAIL_LOW {
            self.queue_avail = (self.queue_avail & 0xFFFFFFFF00000000) | (val as u64);
            false
        } else if offset == VIRTIO_MMIO_QUEUE_AVAIL_HIGH {
            self.queue_avail = (self.queue_avail & 0xFFFFFFFF) | ((val as u64) << 32);
            false
        } else if offset == VIRTIO_MMIO_QUEUE_USED_LOW {
            self.queue_used = (self.queue_used & 0xFFFFFFFF00000000) | (val as u64);
            false
        } else if offset == VIRTIO_MMIO_QUEUE_USED_HIGH {
            self.queue_used = (self.queue_used & 0xFFFFFFFF) | ((val as u64) << 32);
            false
        } else {
            false
        }
    }

    /// Drains the available ring: walks each published request
    /// chain, moves data between the disk and guest memory, writes
    /// the status byte, and publishes a used entry.  Returns whether
    /// any request completed, in which case the interrupt-status
    /// virtqueue bit is set.
    pub fn process_queue(&mut self, mem: &mut GuestMemory) -> (irq: bool)
        ensures
            final(mem)@.len() == old(mem)@.len(),
            final(self).status == old(self).status,
            final(self).features_sel == old(self).features_sel,
            final(self).driver_features == old(self).driver_features,
            final(self).queue_sel == old(self).queue_sel,
            final(self).queue_num == old(self).queue_num,
            final(self).queue_ready == old(self).queue_ready,
            final(self).queue_desc == old(self).queue_desc,
            final(self).queue_avail == old(self).queue_avail,
            final(self).queue_used == old(self).queue_used,
            !irq ==> final(self).interrupt_status == old(self).interrupt_status && final(mem)@
                == old(mem)@ && final(self).disk == old(self).disk,
            irq ==> final(self).interrupt_status == old(self).interrupt_status | 1,
            old(self).queue_num & 0xFFFF == 0 || old(self).queue_ready == 0 ==> !irq
                && *final(self) == *old(self),
            spec_notify_pending(old(self), old(mem)@) ==> irq,
            old(self).queue_avail + 4 > old(mem)@.len() ==> !irq,
            spec_avail_idx(spec_block_queue(old(self)), old(mem)@) == old(self).last_avail_idx
                ==> !irq,
            spec_single_pending(old(self), old(mem)@) ==> final(self).last_avail_idx
                == vstd::wrapping::u16_specs::wrapping_add(old(self).last_avail_idx, 1)
                && final(mem)@ == spec_single_outcome_mem(old(self), old(mem)@) && irq
                == spec_single_outcome_irq(old(self), old(mem)@),
    {
        let qn = self.queue_num;
        proof {
            assert(qn & 0xFFFF <= 0xFFFF) by (bit_vector);
        }
        let qsize: u16 = (qn & 0xFFFF) as u16;
        let memlen = mem.len();
        if qsize == 0 || self.queue_ready == 0 {
            return false;
        }
        if self.queue_avail > u64::MAX - 4 || self.queue_avail + 4 > memlen as u64 {
            return false;
        }
        let avail_idx = match mem.load_u16(self.queue_avail + 2) {
            Some(v) => v,
            None => {
                return false;
            },
        };
        let mut q = VirtQueue {
            desc_addr: self.queue_desc,
            avail_addr: self.queue_avail,
            used_addr: self.queue_used,
            queue_size: qsize,
            ready: true,
            last_avail_idx: self.last_avail_idx,
        };
        let mut work = false;
        while q.last_avail_idx != avail_idx
            invariant
                old(mem)@.len() <= usize::MAX,
                avail_idx == spec_avail_idx(spec_block_queue(old(self)), old(mem)@),
                spec_notify_pending(old(self), old(mem)@) ==> (work || q.last_avail_idx == old(
                    self,
                ).last_avail_idx),
                old(self).queue_ready != 0,
                avail_idx == old(self).last_avail_idx ==> !work && q.last_avail_idx == old(
                    self,
                ).last_avail_idx,
                spec_single_pending(old(self), old(mem)@) && q.last_avail_idx == old(
                    self,
                ).last_avail_idx ==> !work,
                spec_single_pending(old(self), old(mem)@) && q.last_avail_idx != old(
                    self,
                ).last_avail_idx ==> q.last_avail_idx
                    == vstd::wrapping::u16_specs::wrapping_add(old(self).last_avail_idx, 1)
                    && mem@ == spec_single_outcome_mem(old(self), old(mem)@) && work
                    == spec_single_outcome_irq(old(self), old(mem)@),
                q == (VirtQueue { last_avail_idx: q.last_avail_idx, ..spec_block_queue(old(self)) }),
                q.queue_size == qsize,
                qsize > 0,
                self.status == old(self).status,
                self.features_sel == old(self).features_sel,
                self.driver_features == old(self).driver_features,
                self.queue_sel == old(self).queue_sel,
                self.queue_num == old(self).queue_num,
                self.queue_ready == old(self).queue_ready,
                self.queue_desc == old(self).queue_desc,
                self.queue_avail == old(self).queue_avail,
                self.queue_used == old(self).queue_used,
                self.interrupt_status == old(self).interrupt_status,
                self.last_avail_idx == old(self).last_avail_idx,
                mem@.len() == old(mem)@.len(),
                !work ==> mem@ == old(mem)@ && self.disk == old(self).disk,
            ensures
                spec_notify_pending(old(self), old(mem)@) ==> work,
                avail_idx == old(self).last_avail_idx ==> !work,
                spec_single_pending(old(self), old(mem)@) ==> q.last_avail_idx
                    == vstd::wrapping::u16_specs::wrapping_add(old(self).last_avail_idx, 1)
                    && mem@ == spec_single_outcome_mem(old(self), old(mem)@) && work
                    == spec_single_outcome_irq(old(self), old(mem)@),
            decreases ((avail_idx - q.last_avail_idx) as int + 0x10000) % 0x10000,
        {
            let ring_offset: u64 = 4 + ((q.last_avail_idx % qsize) as u64) * 2;
            proof {
                if q.last_avail_idx == old(self).last_avail_idx && !work && (spec_notify_pending(
                    old(self),
                    old(mem)@,
                ) || spec_single_pending(old(self), old(mem)@)) {
                    let qd = spec_block_queue(old(self));
                    assert(q == qd);
                    assert(spec_avail_slot(qd) + 2 <= old(mem)@.len());
                    assert(ring_offset as int == spec_avail_slot(qd) - qd.avail_addr);
                }
            }
            if q.avail_addr > u64::MAX - ring_offset {
                break ;
            }
            let slot = q.avail_addr + ring_offset;
            let head = match mem.load_u16(slot) {
                Some(v) => v,
                None => {
                    break ;
                },
            };
            proof {
                if q.last_avail_idx == old(self).last_avail_idx && !work && (spec_notify_pending(
                    old(self),
                    old(mem)@,
                ) || spec_single_pending(old(self), old(mem)@)) {
                    let qd = spec_block_queue(old(self));
                    assert(q == qd);
                    assert(slot as int == spec_avail_slot(qd));
                    assert(head == spec_u16_from_le_bytes(
                        mem@.subrange(spec_avail_slot(qd), spec_avail_slot(qd) + 2),
                    ));
                }
            }
            let prev = q.last_avail_idx;
            let ghost entry_mem = mem@;
            let ghost entry_q = q;
            match self.process_descriptor_chain(mem, &q, head) {
                Some(written) => {
                    q.add_used(mem, head, written);
                    if q.last_avail_idx == prev {
                        // The used ring is unreachable; consume the
                        // head without publishing.
                        q.last_avail_idx = prev.wrapping_add(1);
                    }
                    work = true;
                    proof {
                        if spec_single_pending(old(self), old(mem)@) && prev == old(
                            self,
                        ).last_avail_idx {
                            assert(entry_mem == old(mem)@);
                            assert(entry_q == spec_block_queue(old(self)));
                            assert(mem@ == spec_single_outcome_mem(old(self), old(mem)@));
                            assert(spec_single_outcome_irq(old(self), old(mem)@));
                        }
                    }
                },
                None => {
                    // Malformed chain: consume it, publish nothing.
                    q.last_avail_idx = prev.wrapping_add(1);
                    proof {
                        if spec_single_pending(old(self), old(mem)@) && prev == old(
                            self,
                        ).last_avail_idx {
                            assert(mem@ == spec_single_outcome_mem(old(self), old(mem)@));
                            assert(!spec_single_outcome_irq(old(self), old(mem)@));
                        }
                    }
                },
            }
            proof {
                assert(q.last_avail_idx == vstd::wrapping::u16_specs::wrapping_add(prev, 1));
            }
        }
        self.last_avail_idx = q.last_avail_idx;
        if work {
            self.interrupt_status = self.interrupt_status | 1;
            true
        } else {
            false
        }
    }

    /// Walks one request chain and performs its transfer: reads the
    /// header, moves data between the backing store and the guest
    /// buffer, and writes the OK status byte.  Returns the published
    /// byte count, or `None` for a chain longer than the queue size.
    fn process_descriptor_chain(
        &mut self,
        mem: &mut GuestMemory,
        q: &VirtQueue,
        head: u16,
    ) -> (r: Option<u32>)
        requires
            q.queue_size > 0,
        ensures
            final(mem)@.len() == old(mem)@.len(),
            final(self).status == old(self).status,
            final(self).features_sel == old(self).features_sel,
            final(self).driver_features == old(self).driver_features,
            final(self).interrupt_status == old(self).interrupt_status,
            final(self).queue_sel == old(self).queue_sel,
            final(self).queue_num == old(self).queue_num,
            final(self).queue_ready == old(self).queue_ready,
            final(self).queue_desc == old(self).queue_desc,
            final(self).queue_avail == old(self).queue_avail,
            final(self).queue_used == old(self).queue_used,
            final(self).last_avail_idx == old(self).last_avail_idx,
            r is None ==> final(mem)@ == old(mem)@ && final(self).disk == old(self).disk,
            r is None <==> spec_parse_chain(
                *q,
                old(mem)@,
                head,
                spec_chain_init(),
                0,
                q.queue_size as nat,
            ) is None,
            spec_parse_chain(
                *q,
                old(mem)@,
                head,
                spec_chain_init(),
                0,
                q.queue_size as nat,
            ) matches Some(info) ==> {
                let did_write = info.is_write && old(self).disk is Some && info.data_addr != 0
                    && info.data_len > 0 && info.data_addr + info.data_len <= old(mem)@.len();
                &&& final(mem)@ == spec_chain_effects_mem(old(mem)@, old(self).disk, info)
                &&& final(self).disk is Some <==> old(self).disk is Some
                &&& did_write ==> old(self).disk is Some && final(self).disk->0@
                    == spec_write_bytes(
                    old(self).disk->0@,
                    info.sector * 512,
                    old(mem)@.subrange(info.data_addr as int, info.data_addr + info.data_len),
                )
                &&& !did_write ==> final(self).disk == old(self).disk
                &&& r == Some(spec_chain_written(old(mem)@, old(self).disk, info))
            },
    {
        let memlen = mem.len();
        let mut next_idx = head;
        let mut st = ChainInfo {
            sector: 0,
            is_write: false,
            data_addr: 0,
            data_len: 0,
            status_addr: 0,
        };
        let mut phase: u8 = 0;
        let mut fuel: u16 = q.queue_size;
        let mut malformed = false;
        loop
            invariant_except_break
                !malformed,
                spec_parse_chain(
                    *q,
                    mem@,
                    head,
                    spec_chain_init(),
                    0,
                    q.queue_size as nat,
                ) == spec_parse_chain(*q, mem@, next_idx, st, phase as int, fuel as nat),
            invariant
                mem@ == old(mem)@,
                q.queue_size > 0,
                memlen == mem@.len(),
                phase <= 2,
            ensures
                mem@ == old(mem)@,
                memlen == mem@.len(),
                malformed ==> spec_parse_chain(
                    *q,
                    mem@,
                    head,
                    spec_chain_init(),
                    0,
                    q.queue_size as nat,
                ) is None,
                !malformed ==> spec_parse_chain(
                    *q,
                    mem@,
                    head,
                    spec_chain_init(),
                    0,
                    q.queue_size as nat,
                ) == Some::<ChainInfo>(st),
            decreases fuel,
        {
            let ghost st0 = st;
            let ghost phase0 = phase;
            let d = match q.read_desc(mem, next_idx) {
                Some(d) => d,
                None => {
                    proof {
                        assert(spec_parse_chain(*q, mem@, next_idx, st, phase as int, fuel as nat)
                            == Some::<ChainInfo>(st));
                    }
                    break ;
                },
            };
            if phase == 0 {
                if d.addr <= u64::MAX - 16 && d.addr + 16 <= memlen as u64 && d.len >= 16 {
                    let type_ = match mem.load_u32(d.addr) {
                        Some(v) => v,
                        None => 0,
                    };
                    let sector = match mem.load_u64(d.addr + 8) {
                        Some(v) => v,
                        None => 0,
                    };
                    st.sector = sector;
                    st.is_write = type_ == VIRTIO_BLK_T_OUT;
                }
                phase = 1;
            } else if phase == 1 {
                if d.flags & VRING_DESC_F_NEXT != 0 {
                    st.data_addr = d.addr;
                    st.data_len = d.len;
                } else {
                    st.status_addr = d.addr;
                    phase = 2;
                }
            } else {
                st.status_addr = d.addr;
            }
            proof {
                assert(st == spec_chain_apply(
                    st0,
                    phase0 as int,
                    spec_read_desc(*q, mem@, next_idx),
                    mem@,
                ));
                assert(phase as int == spec_chain_next_phase(
                    phase0 as int,
                    spec_read_desc(*q, mem@, next_idx),
                ));
            }
            if d.flags & VRING_DESC_F_NEXT == 0 {
                proof {
                    assert(spec_parse_chain(*q, mem@, next_idx, st0, phase0 as int, fuel as nat)
                        == Some::<ChainInfo>(st));
                }
                break ;
            }
            if fuel == 0 {
                malformed = true;
                proof {
                    assert(spec_parse_chain(*q, mem@, next_idx, st0, phase0 as int, fuel as nat)
                        is None);
                }
                break ;
            }
            fuel = fuel - 1;
            next_idx = d.next;
        }
        if malformed {
            return None;
        }
        let info = st;

        // Data transfer against the backing store.
        let mut nread: u32 = 0;
        let has_disk = self.disk.is_some();
        if info.data_addr != 0 && info.data_len > 0 && has_disk {
            if !info.is_write {
                nread = self.disk_to_guest(mem, &info);
            } else {
                self.guest_to_disk(mem, &info);
            }
        }

        // Status byte: the transfer, when one was possible, is
        // reported as successful.
        let mut written = nread;
        if info.status_addr != 0 && info.status_addr <= u64::MAX - 1 && info.status_addr + 1
            <= memlen as u64 {
            match mem.write_u8(info.status_addr as usize, VIRTIO_BLK_S_OK) {
                Ok(()) => (),
                Err(_) => (),
            }
            written = written.wrapping_add(1);
        }
        Some(written)
    }

    /// Copies disk bytes into the guest buffer for an IN request.
    fn disk_to_guest(&self, mem: &mut GuestMemory, info: &ChainInfo) -> (nread: u32)
        requires
            self.disk is Some,
            !info.is_write,
            info.data_addr != 0,
            info.data_len > 0,
        ensures
            final(mem)@.len() == old(mem)@.len(),
            nread == spec_disk_read_count(self.disk->0@, *info),
            ({
                let n = spec_disk_read_count(self.disk->0@, *info);
                if n > 0 && info.data_addr + n <= old(mem)@.len() {
                    final(mem)@ == spec_write_bytes(
                        old(mem)@,
                        info.data_addr as int,
                        self.disk->0@.subrange(info.sector * 512, info.sector * 512 + n),
                    )
                } else {
                    final(mem)@ == old(mem)@
                }
            }),
    {
        let disk = match &self.disk {
            Some(d) => d,
            None => {
                return 0;
            },
        };
        let dlen = disk.len();
        if info.sector > u64::MAX / 512 {
            return 0;
        }
        let off64: u64 = info.sector * 512;
        if off64 >= dlen as u64 {
            return 0;
        }
        let off = off64 as usize;
        let remain = dlen - off;
        let n: usize = if (info.data_len as usize) <= remain {
            info.data_len as usize
        } else {
            remain
        };
        if n == 0 {
            return 0;
        }
        let memlen = mem.len();
        if info.data_addr <= u64::MAX - (n as u64) && info.data_addr + (n as u64)
            <= memlen as u64 {
            let chunk = slice_subrange(disk.as_slice(), off, off + n);
            match mem.write_slice(info.data_addr as usize, chunk) {
                Ok(()) => (),
                Err(_) => (),
            }
        }
        proof {
            assert(n as int == spec_disk_read_count(self.disk->0@, *info));
        }
        n as u32
    }

    /// Copies the guest buffer into the disk for an OUT request,
    /// truncated at the end of the backing store.
    fn guest_to_disk(&mut self, mem: &GuestMemory, info: &ChainInfo)
        requires
            old(self).disk is Some,
            info.is_write,
            info.data_addr != 0,
            info.data_len > 0,
        ensures
            *final(self) == (VirtioBlock { disk: final(self).disk, ..*old(self) }),
            final(self).disk is Some,
            info.data_addr + info.data_len <= mem@.len() ==> final(self).disk->0@
                == spec_write_bytes(
                old(self).disk->0@,
                info.sector * 512,
                mem@.subrange(info.data_addr as int, info.data_addr + info.data_len),
            ),
            info.data_addr + info.data_len > mem@.len() ==> final(self).disk == old(self).disk,
    {
        let memlen = mem.len();
        if info.data_addr > u64::MAX - (info.data_len as u64) || info.data_addr
            + (info.data_len as u64) > memlen as u64 {
            return ;
        }
        let data = match mem.read_slice(info.data_addr as usize, info.data_len as usize) {
            Ok(v) => v,
            Err(_) => {
                return ;
            },
        };
        let disk = match &mut self.disk {
            Some(d) => d,
            None => {
                return ;
            },
        };
        let dlen = disk.len();
        let ghost disk_old = disk@;
        if info.sector > u64::MAX / 512 {
            proof {
                assert(final(self).disk->0@ =~= spec_write_bytes(
                    old(self).disk->0@,
                    info.sector * 512,
                    mem@.subrange(info.data_addr as int, info.data_addr + info.data_len),
                ));
            }
            return ;
        }
        let off64: u64 = info.sector * 512;
        if off64 >= dlen as u64 {
            proof {
                assert(self.disk->0@ =~= spec_write_bytes(
                    old(self).disk->0@,
                    info.sector * 512,
                    mem@.subrange(info.data_addr as int, info.data_addr + info.data_len),
                ));
            }
            return ;
        }
        let off = off64 as usize;
        let remain = dlen - off;
        let n: usize = if data.len() <= remain {
            data.len()
        } else {
            remain
        };
        let mut k: usize = 0;
        while k < n
            invariant
                disk@.len() <= usize::MAX,
                n <= data@.len(),
                off + n <= disk@.len(),
                k <= n,
                disk@.len() == disk_old.len(),
                forall|i: int| 0 <= i < off ==> disk@[i] == disk_old[i],
                forall|i: int| off <= i < off + k ==> disk@[i] == data@[i - off],
                forall|i: int| off + k <= i < disk@.len() ==> disk@[i] == disk_old[i],
            decreases n - k,
        {
            let b = data[k];
            disk.set(off + k, b);
            k = k + 1;
        }
        proof {
            assert(self.disk->0@ =~= spec_write_bytes(
                old(self).disk->0@,
                info.sector * 512,
                mem@.subrange(info.data_addr as int, info.data_addr + info.data_len),
            ));
        }
    }
}

/// Law: a successful ring publication leaves the virtqueue bit set
/// in the interrupt status, whatever the status held before.  The
/// device contracts state that a completed request turns
/// `interrupt_status` into `status | 1`.
pub proof fn lemma_publication_sets_interrupt(status: u32)
    ensures
        (status | 1) & 1 == 1u32,
{
    assert((status | 1) & 1 == 1u32) by (bit_vector);
}

/// Law: acknowledging the interrupt status with the very value the
/// guest read clears every bit, the virtqueue bit included.  The
/// device contracts state that an acknowledge write turns
/// `interrupt_status` into `status & !ack`.
pub proof fn lemma_interrupt_ack_clears(status: u32, ack: u32)
    requires
        ack == status,
    ensures
        status & !ack == 0u32,
{
    assert(status & !status == 0u32) by (bit_vector);
}

} // verus!
