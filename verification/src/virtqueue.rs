//! The split-ring virtqueue engine shared by the virtio devices:
//! reading the guest's available ring, fetching descriptors, and
//! publishing used entries, all through bounds-checked guest memory.

use vstd::prelude::*;

verus! {

use crate::memory::{spec_write_bytes, GuestMemory};
use vstd::bytes::{
    spec_u16_from_le_bytes, spec_u16_to_le_bytes, spec_u32_from_le_bytes, spec_u32_to_le_bytes,
    spec_u64_from_le_bytes, u32_to_le_bytes,
};

/// Descriptor flag: the chain continues at `next`.
pub const VRING_DESC_F_NEXT: u16 = 1;

/// Descriptor flag: the device writes into this buffer.
pub const VRING_DESC_F_WRITE: u16 = 2;

/// Size of one packed descriptor.
pub const VIRTQ_DESC_SIZE: u64 = 16;

/// One descriptor as the guest laid it out: a buffer address and
/// length, flags, and the index of the next descriptor in a chain.
#[derive(Clone, Copy, Debug, PartialEq, Eq, Structural)]
pub struct VirtqDesc {
    pub addr: u64,
    pub len: u32,
    pub flags: u16,
    pub next: u16,
}

/// Per-queue device state: the three ring addresses, the size and
/// readiness the guest configured, and the device's position in the
/// available ring.
#[derive(Clone, Copy, Debug, PartialEq, Eq, Structural)]
pub struct VirtQueue {
    pub desc_addr: u64,
    pub avail_addr: u64,
    pub used_addr: u64,
    pub queue_size: u16,
    pub ready: bool,
    pub last_avail_idx: u16,
}

/// The guest's published available-ring index, or 0 when the ring
/// head is out of bounds.
pub open spec fn spec_avail_idx(q: VirtQueue, m: Seq<u8>) -> u16 {
    if q.avail_addr + 4 <= m.len() {
        spec_u16_from_le_bytes(m.subrange(q.avail_addr + 2, q.avail_addr + 4))
    } else {
        0u16
    }
}

/// The byte offset of the available-ring slot the device reads next.
pub open spec fn spec_avail_slot(q: VirtQueue) -> int {
    q.avail_addr + 4 + (q.last_avail_idx as int % q.queue_size as int) * 2
}

/// The byte offset of the used-ring slot the device fills next.
pub open spec fn spec_used_slot(q: VirtQueue) -> int {
    q.used_addr + 4 + (q.last_avail_idx as int % q.queue_size as int) * 8
}

/// The byte offset of descriptor `idx` in the descriptor table.
pub open spec fn spec_desc_offset(q: VirtQueue, idx: u16) -> int {
    q.desc_addr + idx as int * VIRTQ_DESC_SIZE as int
}

/// Guest memory after one used-ring publication: the next used
/// slot carries the head id and written count and the used index
/// advances, each write skipped when its target lies out of bounds.
pub open spec fn spec_add_used_mem(q: VirtQueue, m: Seq<u8>, head: u16, written: u32) -> Seq<u8> {
    let uslot = spec_used_slot(q);
    if uslot + 8 > m.len() {
        m
    } else {
        let m1 = spec_write_bytes(
            m,
            uslot,
            spec_u32_to_le_bytes(head as u32) + spec_u32_to_le_bytes(written),
        );
        let newidx = vstd::wrapping::u16_specs::wrapping_add(q.last_avail_idx, 1);
        if q.used_addr + 4 <= m.len() {
            spec_write_bytes(m1, q.used_addr + 2, spec_u16_to_le_bytes(newidx))
        } else {
            m1
        }
    }
}

/// The descriptor at table index `idx`, assuming it is in bounds.
pub open spec fn spec_read_desc(q: VirtQueue, m: Seq<u8>, idx: u16) -> VirtqDesc {
    let off = spec_desc_offset(q, idx);
    VirtqDesc {
        addr: spec_u64_from_le_bytes(m.subrange(off, off + 8)),
        len: spec_u32_from_le_bytes(m.subrange(off + 8, off + 12)),
        flags: spec_u16_from_le_bytes(m.subrange(off + 12, off + 14)),
        next: spec_u16_from_le_bytes(m.subrange(off + 14, off + 16)),
    }
}

impl VirtQueue {
    /// The queue state after a device reset: no addresses, size
    /// zero, not ready.
    pub open spec fn spec_reset() -> VirtQueue {
        VirtQueue {
            desc_addr: 0u64,
            avail_addr: 0u64,
            used_addr: 0u64,
            queue_size: 0u16,
            ready: false,
            last_avail_idx: 0u16,
        }
    }

    /// A queue in its reset state: no addresses, size zero, not
    /// ready.
    pub fn new() -> (r: Self)
        ensures
            r == VirtQueue::spec_reset(),
    {
        VirtQueue {
            desc_addr: 0,
            avail_addr: 0,
            used_addr: 0,
            queue_size: 0,
            ready: false,
            last_avail_idx: 0,
        }
    }

    /// Reads the guest's available-ring index; 0 when it lies out
    /// of bounds.
    pub fn available_idx(&self, mem: &GuestMemory) -> (r: u16)
        ensures
            r == spec_avail_idx(*self, mem@),
    {
        let n = mem.len();
        if self.avail_addr > u64::MAX - 4 || self.avail_addr + 4 > n as u64 {
            return 0;
        }
        match mem.load_u16(self.avail_addr + 2) {
            Some(v) => v,
            None => 0,
        }
    }

    /// Returns the head descriptor index the guest published next,
    /// without advancing the device's position; `None` when the
    /// queue is empty, unsized, or its ring slot lies out of bounds.
    pub fn get_avail_desc_idx(&self, mem: &GuestMemory) -> (r: Option<u16>)
        ensures
            match r {
                Some(idx) => {
                    &&& self.queue_size > 0
                    &&& spec_avail_idx(*self, mem@) != self.last_avail_idx
                    &&& spec_avail_slot(*self) + 2 <= mem@.len()
                    &&& idx == spec_u16_from_le_bytes(
                        mem@.subrange(spec_avail_slot(*self), spec_avail_slot(*self) + 2),
                    )
                },
                None => self.queue_size == 0 || spec_avail_idx(*self, mem@)
                    == self.last_avail_idx || spec_avail_slot(*self) + 2 > mem@.len(),
            },
    {
        if self.queue_size == 0 {
            return None;
        }
        let guest_idx = self.available_idx(mem);
        if self.last_avail_idx == guest_idx {
            return None;
        }
        let n = mem.len();
        let ring_offset: u64 = 4 + ((self.last_avail_idx % self.queue_size) as u64) * 2;
        if self.avail_addr > u64::MAX - ring_offset - 2 || self.avail_addr + ring_offset + 2
            > n as u64 {
            return None;
        }
        mem.load_u16(self.avail_addr + ring_offset)
    }

    /// Reads descriptor `idx` from the descriptor table; `None`
    /// when it lies out of bounds.
    pub fn read_desc(&self, mem: &GuestMemory, idx: u16) -> (r: Option<VirtqDesc>)
        ensures
            match r {
                Some(d) => {
                    &&& spec_desc_offset(*self, idx) + 16 <= mem@.len()
                    &&& d == spec_read_desc(*self, mem@, idx)
                },
                None => spec_desc_offset(*self, idx) + 16 > mem@.len(),
            },
    {
        let n = mem.len();
        let rel: u64 = (idx as u64) * VIRTQ_DESC_SIZE;
        if self.desc_addr > u64::MAX - rel - 16 || self.desc_addr + rel + 16 > n as u64 {
            return None;
        }
        let off = self.desc_addr + rel;
        let addr = match mem.load_u64(off) {
            Some(v) => v,
            None => {
                return None;
            },
        };
        let len = match mem.load_u32(off + 8) {
            Some(v) => v,
            None => {
                return None;
            },
        };
        let flags = match mem.load_u16(off + 12) {
            Some(v) => v,
            None => {
                return None;
            },
        };
        let next = match mem.load_u16(off + 14) {
            Some(v) => v,
            None => {
                return None;
            },
        };
        Some(VirtqDesc { addr, len, flags, next })
    }

    /// Publishes a completed head descriptor into the used ring:
    /// fills the next used slot with the id and written length,
    /// advances the device's position, and stores the new used
    /// index, each step skipped when its target lies out of bounds.
    pub fn add_used(&mut self, mem: &mut GuestMemory, desc_idx: u16, len: u32)
        requires
            old(self).queue_size > 0,
        ensures
            final(mem)@.len() == old(mem)@.len(),
            final(mem)@ == spec_add_used_mem(*old(self), old(mem)@, desc_idx, len),
            spec_used_slot(*old(self)) + 8 > old(mem)@.len() ==> *final(self) == *old(self),
            spec_used_slot(*old(self)) + 8 <= old(mem)@.len() ==> *final(self) == (VirtQueue {
                last_avail_idx: vstd::wrapping::u16_specs::wrapping_add(
                    old(self).last_avail_idx,
                    1,
                ),
                ..*old(self)
            }),
    {
        let n = mem.len();
        let elem_offset: u64 = 4 + ((self.last_avail_idx % self.queue_size) as u64) * 8;
        if self.used_addr > u64::MAX - elem_offset - 8 {
            return ;
        }
        let slot = self.used_addr + elem_offset;
        if slot + 8 > n as u64 {
            return ;
        }
        let mut elem = u32_to_le_bytes(desc_idx as u32);
        let mut len_bytes = u32_to_le_bytes(len);
        elem.append(&mut len_bytes);
        match mem.write_slice(slot as usize, elem.as_slice()) {
            Ok(()) => (),
            Err(_) => {
                return ;
            },
        }
        self.last_avail_idx = self.last_avail_idx.wrapping_add(1);
        if self.used_addr <= u64::MAX - 4 && self.used_addr + 4 <= mem.len() as u64 {
            let idx_addr = self.used_addr + 2;
            match mem.write_u16(idx_addr as usize, self.last_avail_idx) {
                Ok(()) => (),
                Err(_) => (),
            }
        }
    }
}

impl Default for VirtQueue {
    fn default() -> (r: Self)
        ensures
            r == VirtQueue::spec_reset(),
    {
        VirtQueue::new()
    }
}

} // verus!
