//! The virtio-mmio net device: register window and the RX/TX
//! data-plane over the split-ring virtqueues.  The host tap endpoint
//! lives outside the library: the RX path is handed a received frame
//! and the TX path hands back the frame to transmit.

use vstd::prelude::*;

verus! {

use crate::memory::{spec_write_bytes, GuestMemory};
use crate::virtio::{
    MAGIC_VALUE, VERSION, VIRTIO_MMIO_DEVICE_FEATURES, VIRTIO_MMIO_DEVICE_FEATURES_SEL,
    VIRTIO_MMIO_DEVICE_ID, VIRTIO_MMIO_DRIVER_FEATURES, VIRTIO_MMIO_DRIVER_FEATURES_SEL,
    VIRTIO_MMIO_INTERRUPT_ACK, VIRTIO_MMIO_INTERRUPT_STATUS, VIRTIO_MMIO_MAGIC_VALUE,
    VIRTIO_MMIO_QUEUE_AVAIL_HIGH, VIRTIO_MMIO_QUEUE_AVAIL_LOW, VIRTIO_MMIO_QUEUE_DESC_HIGH,
    VIRTIO_MMIO_QUEUE_DESC_LOW, VIRTIO_MMIO_QUEUE_NUM, VIRTIO_MMIO_QUEUE_NUM_MAX,
    VIRTIO_MMIO_QUEUE_READY, VIRTIO_MMIO_QUEUE_SEL, VIRTIO_MMIO_QUEUE_USED_HIGH,
    VIRTIO_MMIO_QUEUE_USED_LOW, VIRTIO_MMIO_STATUS, VIRTIO_MMIO_VENDOR_ID, VIRTIO_MMIO_VERSION,
};
use crate::virtqueue::{
    spec_add_used_mem, spec_avail_idx, spec_avail_slot, spec_desc_offset, spec_read_desc,
    spec_used_slot, VirtQueue,
};
use vstd::bytes::{
    spec_u16_from_le_bytes, spec_u16_to_le_bytes, spec_u32_from_le_bytes, spec_u32_to_le_bytes,
    spec_u64_to_le_bytes, u16_from_le_bytes, u32_from_le_bytes, u64_to_le_bytes,
};
use vstd::slice::slice_subrange;

/// Device id of a net device.
pub const DEVICE_ID_NET: u32 = 1;

/// Vendor id of the net device.
pub const NET_VENDOR_ID: u32 = 0x1AF4;

/// The low feature word offered: the MAC feature.
pub const NET_FEATURES_LOW: u64 = 0x20;

/// The high feature word offered: VERSION_1.
pub const NET_FEATURES_HIGH: u64 = 1;

/// First register offset of the config space, which carries the MAC.
pub const NET_CONFIG_SPACE: u64 = 0x100;

/// The virtio-net header that prefixes every frame in guest memory.
pub const VIRTIO_NET_HDR_SIZE: usize = 12;

/// Why a register write was rejected.
#[derive(Clone, Copy, Debug, PartialEq, Eq, Structural)]
pub enum DeviceError {
    /// The write was not 1, 2 or 4 bytes wide.
    InvalidWriteSize,
}

/// The zero-filled virtio-net header the RX path prepends.
pub open spec fn spec_net_hdr_zero() -> Seq<u8> {
    seq![0u8, 0u8, 0u8, 0u8, 0u8, 0u8, 0u8, 0u8, 0u8, 0u8, 0u8, 0u8]
}

/// The virtio-mmio net device.  Queue 0 receives (the guest posts
/// empty buffers), queue 1 transmits (the guest posts filled
/// buffers).
pub struct VirtioNet {
    pub mac: [u8; 6],
    pub status: u32,
    pub driver_features_sel: u32,
    pub device_features_sel: u32,
    pub driver_features: u64,
    pub queue_sel: u32,
    pub rx: VirtQueue,
    pub tx: VirtQueue,
    pub interrupt_status: u32,
}

/// What a register read returns for each non-config offset.
pub open spec fn spec_net_reg_read(d: &VirtioNet, offset: u64) -> u64 {
    if offset == VIRTIO_MMIO_MAGIC_VALUE {
        MAGIC_VALUE as u64
    } else if offset == VIRTIO_MMIO_VERSION {
        VERSION as u64
    } else if offset == VIRTIO_MMIO_DEVICE_ID {
        DEVICE_ID_NET as u64
    } else if offset == VIRTIO_MMIO_VENDOR_ID {
        NET_VENDOR_ID as u64
    } else if offset == VIRTIO_MMIO_DEVICE_FEATURES {
        if d.device_features_sel == 0 {
            NET_FEATURES_LOW
        } else if d.device_features_sel == 1 {
            NET_FEATURES_HIGH
        } else {
            0u64
        }
    } else if offset == VIRTIO_MMIO_QUEUE_NUM_MAX {
        256u64
    } else if offset == VIRTIO_MMIO_QUEUE_READY {
        if d.queue_sel == 0 {
            if d.rx.ready {
                1u64
            } else {
                0u64
            }
        } else if d.queue_sel == 1 {
            if d.tx.ready {
                1u64
            } else {
                0u64
            }
        } else {
            0u64
        }
    } else if offset == VIRTIO_MMIO_INTERRUPT_STATUS {
        d.interrupt_status as u64
    } else if offset == VIRTIO_MMIO_STATUS {
        d.status as u64
    } else {
        0u64
    }
}

/// The register offsets whose writes the net device acts on.
pub open spec fn spec_net_known_write(offset: u64) -> bool {
    ||| offset == VIRTIO_MMIO_DEVICE_FEATURES_SEL
    ||| offset == VIRTIO_MMIO_DRIVER_FEATURES_SEL
    ||| offset == VIRTIO_MMIO_DRIVER_FEATURES
    ||| offset == VIRTIO_MMIO_QUEUE_SEL
    ||| offset == VIRTIO_MMIO_QUEUE_NUM
    ||| offset == VIRTIO_MMIO_QUEUE_READY
    ||| offset == VIRTIO_MMIO_QUEUE_DESC_LOW
    ||| offset == VIRTIO_MMIO_QUEUE_DESC_HIGH
    ||| offset == VIRTIO_MMIO_QUEUE_AVAIL_LOW
    ||| offset == VIRTIO_MMIO_QUEUE_AVAIL_HIGH
    ||| offset == VIRTIO_MMIO_QUEUE_USED_LOW
    ||| offset == VIRTIO_MMIO_QUEUE_USED_HIGH
    ||| offset == VIRTIO_MMIO_STATUS
    ||| offset == VIRTIO_MMIO_INTERRUPT_ACK
}

/// The value a 1-, 2- or 4-byte register write carries.
pub open spec fn spec_net_write_val(data: Seq<u8>) -> u32 {
    if data.len() == 1 {
        data[0] as u32
    } else if data.len() == 2 {
        spec_u16_from_le_bytes(data) as u32
    } else {
        spec_u32_from_le_bytes(data.take(4))
    }
}

impl VirtioNet {
    /// A net device in its reset state, with the fixed MAC address.
    pub fn new() -> (r: Self)
        ensures
            r.mac@ == seq![0x52u8, 0x54u8, 0x00u8, 0x12u8, 0x34u8, 0x56u8],
            r.status == 0 && r.driver_features_sel == 0 && r.device_features_sel == 0
                && r.driver_features == 0 && r.queue_sel == 0 && r.interrupt_status == 0,
            r.rx == VirtQueue::spec_reset(),
            r.tx == VirtQueue::spec_reset(),
    {
        let mac: [u8; 6] = [0x52, 0x54, 0x00, 0x12, 0x34, 0x56];
        proof {
            assert(mac@ =~= seq![0x52u8, 0x54u8, 0x00u8, 0x12u8, 0x34u8, 0x56u8]);
        }
        VirtioNet {
            mac,
            status: 0,
            driver_features_sel: 0,
            device_features_sel: 0,
            driver_features: 0,
            queue_sel: 0,
            rx: VirtQueue::new(),
            tx: VirtQueue::new(),
            interrupt_status: 0,
        }
    }

    /// Handles an MMIO read of `len` bytes: a register value as
    /// little-endian bytes (at most eight), or MAC bytes from the
    /// config space.
    pub fn read(&self, offset: u64, len: usize) -> (r: Vec<u8>)
        ensures
            r@.len() == if len <= 8 {
                len as int
            } else {
                8
            },
            NET_CONFIG_SPACE <= offset < NET_CONFIG_SPACE + 6 ==> forall|i: int|
                0 <= i < r@.len() ==> r@[i] == (if offset - NET_CONFIG_SPACE + i < 6 {
                    self.mac@[offset - NET_CONFIG_SPACE + i]
                } else {
                    0u8
                }),
            !(NET_CONFIG_SPACE <= offset < NET_CONFIG_SPACE + 6) ==> r@ == spec_u64_to_le_bytes(
                spec_net_reg_read(self, offset),
            ).take(r@.len() as int),
    {
        let n: usize = if len <= 8 {
            len
        } else {
            8
        };
        let mut out: Vec<u8> = Vec::new();
        if NET_CONFIG_SPACE <= offset && offset < NET_CONFIG_SPACE + 6 {
            let idx = (offset - NET_CONFIG_SPACE) as usize;
            let mut k: usize = 0;
            while k < n
                invariant
                    idx < 6,
                    n <= 8,
                    k <= n,
                    out@.len() == k,
                    forall|i: int|
                        0 <= i < k ==> out@[i] == (if idx + i < 6 {
                            self.mac@[idx + i]
                        } else {
                            0u8
                        }),
                decreases n - k,
            {
                if idx + k < 6 {
                    out.push(self.mac[idx + k]);
                } else {
                    out.push(0);
                }
                k = k + 1;
            }
            return out;
        }
        let val: u64 = if offset == VIRTIO_MMIO_MAGIC_VALUE {
            MAGIC_VALUE as u64
        } else if offset == VIRTIO_MMIO_VERSION {
            VERSION as u64
        } else if offset == VIRTIO_MMIO_DEVICE_ID {
            DEVICE_ID_NET as u64
        } else if offset == VIRTIO_MMIO_VENDOR_ID {
            NET_VENDOR_ID as u64
        } else if offset == VIRTIO_MMIO_DEVICE_FEATURES {
            if self.device_features_sel == 0 {
                NET_FEATURES_LOW
            } else if self.device_features_sel == 1 {
                NET_FEATURES_HIGH
            } else {
                0
            }
        } else if offset == VIRTIO_MMIO_QUEUE_NUM_MAX {
            256
        } else if offset == VIRTIO_MMIO_QUEUE_READY {
            if self.queue_sel == 0 {
                if self.rx.ready {
                    1
                } else {
                    0
                }
            } else if self.queue_sel == 1 {
                if self.tx.ready {
                    1
                } else {
                    0
                }
            } else {
                0
            }
        } else if offset == VIRTIO_MMIO_INTERRUPT_STATUS {
            self.interrupt_status as u64
        } else if offset == VIRTIO_MMIO_STATUS {
            self.status as u64
        } else {
            0
        };
        proof {
            vstd::bytes::lemma_auto_spec_u64_to_from_le_bytes();
        }
        let bytes = u64_to_le_bytes(val);
        let mut k: usize = 0;
        while k < n
            invariant
                n <= 8,
                bytes@.len() == 8,
                bytes@ == spec_u64_to_le_bytes(val),
                k <= n,
                out@.len() == k,
                forall|i: int| 0 <= i < k ==> out@[i] == bytes@[i],
            decreases n - k,
        {
            out.push(bytes[k]);
            k = k + 1;
        }
        proof {
            assert(out@ =~= spec_u64_to_le_bytes(spec_net_reg_read(self, offset)).take(n as int));
        }
        out
    }

    /// Handles an MMIO register write of 1, 2 or 4 bytes; any other
    /// width is rejected.  Never requests an interrupt.
    pub fn write(&mut self, offset: u64, data: &[u8]) -> (r: Result<bool, DeviceError>)
        ensures
            !(data@.len() == 1 || data@.len() == 2 || data@.len() == 4) ==> r == Err::<
                bool,
                DeviceError,
            >(DeviceError::InvalidWriteSize) && *final(self) == *old(self),
            (data@.len() == 1 || data@.len() == 2 || data@.len() == 4) ==> {
                let val = spec_net_write_val(data@);
                &&& r == Ok::<bool, DeviceError>(false)
                &&& !spec_net_known_write(offset) ==> *final(self) == *old(self)
                &&& offset == VIRTIO_MMIO_DEVICE_FEATURES_SEL ==> *final(self) == (VirtioNet {
                    device_features_sel: val,
                    ..*old(self)
                })
                &&& offset == VIRTIO_MMIO_DRIVER_FEATURES_SEL ==> *final(self) == (VirtioNet {
                    driver_features_sel: val,
                    ..*old(self)
                })
                &&& offset == VIRTIO_MMIO_DRIVER_FEATURES ==> *final(self) == (VirtioNet {
                    driver_features: if old(self).driver_features_sel == 0 {
                        (old(self).driver_features & 0xFFFFFFFF00000000u64) | (val as u64)
                    } else {
                        (old(self).driver_features & 0xFFFFFFFFu64) | ((val as u64) << 32)
                    },
                    ..*old(self)
                })
                &&& offset == VIRTIO_MMIO_QUEUE_SEL ==> *final(self) == (VirtioNet {
                    queue_sel: val,
                    ..*old(self)
                })
                &&& offset == VIRTIO_MMIO_QUEUE_NUM ==> *final(self) == (VirtioNet {
                    rx: if old(self).queue_sel == 0 {
                        (VirtQueue { queue_size: (val & 0xFFFF) as u16, ..old(self).rx })
                    } else {
                        old(self).rx
                    },
                    tx: if old(self).queue_sel == 1 {
                        (VirtQueue { queue_size: (val & 0xFFFF) as u16, ..old(self).tx })
                    } else {
                        old(self).tx
                    },
                    ..*old(self)
                })
                &&& offset == VIRTIO_MMIO_QUEUE_READY ==> *final(self) == (VirtioNet {
                    rx: if old(self).queue_sel == 0 {
                        (VirtQueue { ready: val & 1 == 1, ..old(self).rx })
                    } else {
                        old(self).rx
                    },
                    tx: if old(self).queue_sel == 1 {
                        (VirtQueue { ready: val & 1 == 1, ..old(self).tx })
                    } else {
                        old(self).tx
                    },
                    ..*old(self)
                })
                &&& offset == VIRTIO_MMIO_QUEUE_DESC_LOW ==> *final(self) == (VirtioNet {
                    rx: if old(self).queue_sel == 0 {
                        (VirtQueue {
                            desc_addr: (old(self).rx.desc_addr & 0xFFFFFFFF00000000u64) | (
                            val as u64),
                            ..old(self).rx
                        })
                    } else {
                        old(self).rx
                    },
                    tx: if old(self).queue_sel == 1 {
                        (VirtQueue {
                            desc_addr: (old(self).tx.desc_addr & 0xFFFFFFFF00000000u64) | (
                            val as u64),
                            ..old(self).tx
                        })
                    } else {
                        old(self).tx
                    },
                    ..*old(self)
                })
                &&& offset == VIRTIO_MMIO_QUEUE_DESC_HIGH ==> *final(self) == (VirtioNet {
                    rx: if old(self).queue_sel == 0 {
                        (VirtQueue {
                            desc_addr: (old(self).rx.desc_addr & 0xFFFFFFFFu64) | ((val as u64)
                                << 32),
                            ..old(self).rx
                        })
                    } else {
                        old(self).rx
                    },
                    tx: if old(self).queue_sel == 1 {
                        (VirtQueue {
                            desc_addr: (old(self).tx.desc_addr & 0xFFFFFFFFu64) | ((val as u64)
                                << 32),
                            ..old(self).tx
                        })
                    } else {
                        old(self).tx
                    },
                    ..*old(self)
                })
                &&& offset == VIRTIO_MMIO_QUEUE_AVAIL_LOW ==> *final(self) == (VirtioNet {
                    rx: if old(self).queue_sel == 0 {
                        (VirtQueue {
                            avail_addr: (old(self).rx.avail_addr & 0xFFFFFFFF00000000u64) | (
                            val as u64),
                            ..old(self).rx
                        })
                    } else {
                        old(self).rx
                    },
                    tx: if old(self).queue_sel == 1 {
                        (VirtQueue {
                            avail_addr: (old(self).tx.avail_addr & 0xFFFFFFFF00000000u64) | (
                            val as u64),
                            ..old(self).tx
                        })
                    } else {
                        old(self).tx
                    },
                    ..*old(self)
                })
                &&& offset == VIRTIO_MMIO_QUEUE_AVAIL_HIGH ==> *final(self) == (VirtioNet {
                    rx: if old(self).queue_sel == 0 {
                        (VirtQueue {
                            avail_addr: (old(self).rx.avail_addr & 0xFFFFFFFFu64) | ((val as u64)
                                << 32),
                            ..old(self).rx
                        })
                    } else {
                        old(self).rx
                    },
                    tx: if old(self).queue_sel == 1 {
                        (VirtQueue {
                            avail_addr: (old(self).tx.avail_addr & 0xFFFFFFFFu64) | ((val as u64)
                                << 32),
                            ..old(self).tx
                        })
                    } else {
                        old(self).tx
                    },
                    ..*old(self)
                })
                &&& offset == VIRTIO_MMIO_QUEUE_USED_LOW ==> *final(self) == (VirtioNet {
                    rx: if old(self).queue_sel == 0 {
                        (VirtQueue {
                            used_addr: (old(self).rx.used_addr & 0xFFFFFFFF00000000u64) | (
                            val as u64),
                            ..old(self).rx
                        })
                    } else {
                        old(self).rx
                    },
                    tx: if old(self).queue_sel == 1 {
                        (VirtQueue {
                            used_addr: (old(self).tx.used_addr & 0xFFFFFFFF00000000u64) | (
                            val as u64),
                            ..old(self).tx
                        })
                    } else {
                        old(self).tx
                    },
                    ..*old(self)
                })
                &&& offset == VIRTIO_MMIO_QUEUE_USED_HIGH ==> *final(self) == (VirtioNet {
                    rx: if old(self).queue_sel == 0 {
                        (VirtQueue {
                            used_addr: (old(self).rx.used_addr & 0xFFFFFFFFu64) | ((val as u64)
                                << 32),
                            ..old(self).rx
                        })
                    } else {
                        old(self).rx
                    },
                    tx: if old(self).queue_sel == 1 {
                        (VirtQueue {
                            used_addr: (old(self).tx.used_addr & 0xFFFFFFFFu64) | ((val as u64)
                                << 32),
                            ..old(self).tx
                        })
                    } else {
                        old(self).tx
                    },
                    ..*old(self)
                })
                &&& offset == VIRTIO_MMIO_STATUS ==> *final(self) == (if val == 0 {
                    (VirtioNet {
                        status: 0u32,
                        queue_sel: 0u32,
                        rx: VirtQueue::spec_reset(),
                        tx: VirtQueue::spec_reset(),
                        ..*old(self)
                    })
                } else {
                    (VirtioNet { status: val, ..*old(self) })
                })
                &&& offset == VIRTIO_MMIO_INTERRUPT_ACK ==> *final(self) == (VirtioNet {
                    interrupt_status: old(self).interrupt_status & !val,
                    ..*old(self)
                })
            },
    {
        let val: u32 = if data.len() == 1 {
            data[0] as u32
        } else if data.len() == 2 {
            u16_from_le_bytes(data) as u32
        } else if data.len() == 4 {
            let v = u32_from_le_bytes(slice_subrange(data, 0, 4));
            proof {
                assert(data@.subrange(0, 4) =~= data@.take(4));
            }
            v
        } else {
            return Err(DeviceError::InvalidWriteSize);
        };
        if offset == VIRTIO_MMIO_DEVICE_FEATURES_SEL {
            self.device_features_sel = val;
        } else if offset == VIRTIO_MMIO_DRIVER_FEATURES_SEL {
            self.driver_features_sel = val;
        } else if offset == VIRTIO_MMIO_DRIVER_FEATURES {
            if self.driver_features_sel == 0 {
                self.driver_features = (self.driver_features & 0xFFFFFFFF00000000) | (val as u64);
            } else {
                self.driver_features = (self.driver_features & 0xFFFFFFFF) | ((val as u64) << 32);
            }
        } else if offset == VIRTIO_MMIO_QUEUE_SEL {
            self.queue_sel = val;
        } else if offset == VIRTIO_MMIO_QUEUE_NUM {
            if self.queue_sel == 0 {
                self.rx.queue_size = (val & 0xFFFF) as u16;
            } else if self.queue_sel == 1 {
                self.tx.queue_size = (val & 0xFFFF) as u16;
            }
        } else if offset == VIRTIO_MMIO_QUEUE_READY {
            if self.queue_sel == 0 {
                self.rx.ready = val & 1 == 1;
            } else if self.queue_sel == 1 {
                self.tx.ready = val & 1 == 1;
            }
        } else if offset == VIRTIO_MMIO_QUEUE_DESC_LOW {
            if self.queue_sel == 0 {
                self.rx.desc_addr = (self.rx.desc_addr & 0xFFFFFFFF00000000) | (val as u64);
            } else if self.queue_sel == 1 {
                self.tx.desc_addr = (self.tx.desc_addr & 0xFFFFFFFF00000000) | (val as u64);
            }
        } else if offset == VIRTIO_MMIO_QUEUE_DESC_HIGH {
            if self.queue_sel == 0 {
                self.rx.desc_addr = (self.rx.desc_addr & 0xFFFFFFFF) | ((val as u64) << 32);
            } else if self.queue_sel == 1 {
                self.tx.desc_addr = (self.tx.desc_addr & 0xFFFFFFFF) | ((val as u64) << 32);
            }
        } else if offset == VIRTIO_MMIO_QUEUE_AVAIL_LOW {
            if self.queue_sel == 0 {
                self.rx.avail_addr = (self.rx.avail_addr & 0xFFFFFFFF00000000) | (val as u64);
            } else if self.queue_sel == 1 {
                self.tx.avail_addr = (self.tx.avail_addr & 0xFFFFFFFF00000000) | (val as u64);
            }
        } else if offset == VIRTIO_MMIO_QUEUE_AVAIL_HIGH {
            if self.queue_sel == 0 {
                self.rx.avail_addr = (self.rx.avail_addr & 0xFFFFFFFF) | ((val as u64) << 32);
            } else if self.queue_sel == 1 {
                self.tx.avail_addr = (self.tx.avail_addr & 0xFFFFFFFF) | ((val as u64) << 32);
            }
        } else if offset == VIRTIO_MMIO_QUEUE_USED_LOW {
            if self.queue_sel == 0 {
                self.rx.used_addr = (self.rx.used_addr & 0xFFFFFFFF00000000) | (val as u64);
            } else if self.queue_sel == 1 {
                self.tx.used_addr = (self.tx.used_addr & 0xFFFFFFFF00000000) | (val as u64);
            }
        } else if offset == VIRTIO_MMIO_QUEUE_USED_HIGH {
            if self.queue_sel == 0 {
                self.rx.used_addr = (self.rx.used_addr & 0xFFFFFFFF) | ((val as u64) << 32);
            } else if self.queue_sel == 1 {
                self.tx.used_addr = (self.tx.used_addr & 0xFFFFFFFF) | ((val as u64) << 32);
            }
        } else if offset == VIRTIO_MMIO_STATUS {
            self.status = val;
            if val == 0 {
                self.reset();
            }
        } else if offset == VIRTIO_MMIO_INTERRUPT_ACK {
            self.interrupt_status = self.interrupt_status & !val;
        }
        Ok(false)
    }

    /// Returns the device to its post-reset queue state.
    fn reset(&mut self)
        ensures
            *final(self) == (VirtioNet {
                status: 0u32,
                queue_sel: 0u32,
                rx: VirtQueue::spec_reset(),
                tx: VirtQueue::spec_reset(),
                ..*old(self)
            }),
    {
        self.status = 0;
        self.rx = VirtQueue::new();
        self.tx = VirtQueue::new();
        self.queue_sel = 0;
    }

    /// Whether the RX queue has an empty buffer waiting for a frame.
    pub fn rx_has_buffer(&self, mem: &GuestMemory) -> (r: bool)
        ensures
            r == (self.rx.ready && self.rx.queue_size > 0 && spec_avail_idx(self.rx, mem@)
                != self.rx.last_avail_idx && spec_avail_slot(self.rx) + 2 <= mem@.len()),
    {
        if !self.rx.ready {
            return false;
        }
        match self.rx.get_avail_desc_idx(mem) {
            Some(_) => true,
            None => false,
        }
    }

    /// Delivers one received frame into the guest's next RX buffer:
    /// writes a zeroed virtio-net header followed by the frame,
    /// publishes the used entry, and raises the interrupt bit.
    /// Returns false, changing nothing, when no buffer fits.
    pub fn rx_deliver(&mut self, mem: &mut GuestMemory, frame: &[u8]) -> (r: bool)
        ensures
            final(mem)@.len() == old(mem)@.len(),
            !r ==> *final(self) == *old(self) && final(mem)@ == old(mem)@,
            r == ({
                let q = old(self).rx;
                let slot = spec_avail_slot(q);
                let head = spec_u16_from_le_bytes(old(mem)@.subrange(slot, slot + 2));
                let d = spec_read_desc(q, old(mem)@, head);
                &&& q.ready
                &&& q.queue_size > 0
                &&& spec_avail_idx(q, old(mem)@) != q.last_avail_idx
                &&& slot + 2 <= old(mem)@.len()
                &&& spec_desc_offset(q, head) + 16 <= old(mem)@.len()
                &&& frame@.len() > 0
                &&& frame@.len() + VIRTIO_NET_HDR_SIZE <= d.len
                &&& d.addr + VIRTIO_NET_HDR_SIZE + frame@.len() <= old(mem)@.len()
            }),
            r ==> {
                let q = old(self).rx;
                let slot = spec_avail_slot(q);
                let head = spec_u16_from_le_bytes(old(mem)@.subrange(slot, slot + 2));
                let d = spec_read_desc(q, old(mem)@, head);
                let m1 = spec_write_bytes(
                    old(mem)@,
                    d.addr as int,
                    spec_net_hdr_zero() + frame@,
                );
                let newidx = vstd::wrapping::u16_specs::wrapping_add(q.last_avail_idx, 1);
                &&& final(self).interrupt_status == old(self).interrupt_status | 1
                &&& final(self).tx == old(self).tx
                &&& final(self).status == old(self).status
                &&& final(mem)@ == spec_add_used_mem(
                    q,
                    m1,
                    head,
                    (frame@.len() + VIRTIO_NET_HDR_SIZE) as u32,
                )
                &&& (spec_used_slot(q) + 8 <= old(mem)@.len() ==> final(self).rx == (VirtQueue {
                    last_avail_idx: newidx,
                    ..q
                }))
                &&& (spec_used_slot(q) + 8 > old(mem)@.len() ==> final(self).rx == q)
            },
    {
        if !self.rx.ready || frame.len() == 0 {
            return false;
        }
        let desc_idx = match self.rx.get_avail_desc_idx(mem) {
            Some(i) => i,
            None => {
                return false;
            },
        };
        let desc = match self.rx.read_desc(mem, desc_idx) {
            Some(d) => d,
            None => {
                return false;
            },
        };
        let memlen = mem.len();
        if frame.len() > usize::MAX - VIRTIO_NET_HDR_SIZE {
            return false;
        }
        let total = frame.len() + VIRTIO_NET_HDR_SIZE;
        if (total as u64) > (desc.len as u64) {
            return false;
        }
        if desc.addr > u64::MAX - (total as u64) || desc.addr + (total as u64) > memlen as u64 {
            return false;
        }
        let mut buf: Vec<u8> = Vec::new();
        let mut k: usize = 0;
        while k < VIRTIO_NET_HDR_SIZE
            invariant
                k <= VIRTIO_NET_HDR_SIZE,
                buf@.len() == k,
                forall|i: int| 0 <= i < k ==> buf@[i] == 0u8,
            decreases VIRTIO_NET_HDR_SIZE - k,
        {
            buf.push(0);
            k = k + 1;
        }
        let mut j: usize = 0;
        while j < frame.len()
            invariant
                buf@.len() == VIRTIO_NET_HDR_SIZE + j,
                j <= frame@.len(),
                forall|i: int| 0 <= i < VIRTIO_NET_HDR_SIZE ==> buf@[i] == 0u8,
                forall|i: int|
                    VIRTIO_NET_HDR_SIZE <= i < VIRTIO_NET_HDR_SIZE + j ==> buf@[i] == frame@[i
                        - VIRTIO_NET_HDR_SIZE],
            decreases frame@.len() - j,
        {
            buf.push(frame[j]);
            j = j + 1;
        }
        proof {
            assert(buf@ =~= spec_net_hdr_zero() + frame@);
        }
        match mem.write_slice(desc.addr as usize, buf.as_slice()) {
            Ok(()) => (),
            Err(_) => {
                proof {
                    assert(false);
                }
            },
        }
        self.rx.add_used(mem, desc_idx, total as u32);
        self.interrupt_status = self.interrupt_status | 1;
        true
    }

    /// Takes the next frame the guest queued for transmission:
    /// strips the virtio-net header, publishes the used entry,
    /// raises the interrupt bit, and hands the frame bytes back for
    /// the host endpoint.  `None` when no work is pending.
    pub fn tx_next(&mut self, mem: &mut GuestMemory) -> (r: Option<Vec<u8>>)
        ensures
            final(mem)@.len() == old(mem)@.len(),
            r is None ==> *final(self) == *old(self) && final(mem)@ == old(mem)@,
            r is Some == ({
                let q = old(self).tx;
                let slot = spec_avail_slot(q);
                let head = spec_u16_from_le_bytes(old(mem)@.subrange(slot, slot + 2));
                &&& q.ready
                &&& q.queue_size > 0
                &&& spec_avail_idx(q, old(mem)@) != q.last_avail_idx
                &&& slot + 2 <= old(mem)@.len()
                &&& spec_desc_offset(q, head) + 16 <= old(mem)@.len()
            }),
            r matches Some(frame) ==> {
                let q = old(self).tx;
                let slot = spec_avail_slot(q);
                let head = spec_u16_from_le_bytes(old(mem)@.subrange(slot, slot + 2));
                let d = spec_read_desc(q, old(mem)@, head);
                let uslot = spec_used_slot(q);
                let newidx = vstd::wrapping::u16_specs::wrapping_add(q.last_avail_idx, 1);
                &&& q.ready && q.queue_size > 0
                &&& spec_avail_idx(q, old(mem)@) != q.last_avail_idx
                &&& slot + 2 <= old(mem)@.len()
                &&& spec_desc_offset(q, head) + 16 <= old(mem)@.len()
                &&& frame@ == if d.len > VIRTIO_NET_HDR_SIZE && d.addr + d.len <= old(
                    mem,
                )@.len() {
                    old(mem)@.subrange(d.addr + VIRTIO_NET_HDR_SIZE, d.addr + d.len)
                } else {
                    Seq::<u8>::empty()
                }
                &&& final(self).interrupt_status == old(self).interrupt_status | 1
                &&& final(self).rx == old(self).rx
                &&& final(self).status == old(self).status
                &&& final(mem)@ == spec_add_used_mem(q, old(mem)@, head, 0u32)
                &&& (uslot + 8 <= old(mem)@.len() ==> final(self).tx == (VirtQueue {
                    last_avail_idx: newidx,
                    ..q
                }))
                &&& (uslot + 8 > old(mem)@.len() ==> final(self).tx == q)
            },
    {
        if !self.tx.ready {
            return None;
        }
        let desc_idx = match self.tx.get_avail_desc_idx(mem) {
            Some(i) => i,
            None => {
                return None;
            },
        };
        let desc = match self.tx.read_desc(mem, desc_idx) {
            Some(d) => d,
            None => {
                return None;
            },
        };
        let memlen = mem.len();
        let mut frame: Vec<u8> = Vec::new();
        if desc.len as usize > VIRTIO_NET_HDR_SIZE && desc.addr <= u64::MAX - (desc.len as u64)
            && desc.addr + (desc.len as u64) <= memlen as u64 {
            let start = desc.addr as usize + VIRTIO_NET_HDR_SIZE;
            let count = desc.len as usize - VIRTIO_NET_HDR_SIZE;
            match mem.read_slice(start, count) {
                Ok(v) => {
                    frame = v;
                },
                Err(_) => {
                    proof {
                        assert(false);
                    }
                },
            }
        }
        self.tx.add_used(mem, desc_idx, 0);
        self.interrupt_status = self.interrupt_status | 1;
        Some(frame)
    }

    /// Whether the device currently has an interrupt pending.
    pub fn should_interrupt(&self) -> (r: bool)
        ensures
            r == (self.interrupt_status != 0),
    {
        self.interrupt_status != 0
    }
}

impl Default for VirtioNet {
    fn default() -> (r: Self)
        ensures
            r.status == 0 && r.interrupt_status == 0,
    {
        VirtioNet::new()
    }
}

} // verus!
