//! The per-vCPU run loop's decisions: which device handles each
//! exit, which IRQ line to pulse, when to stop, and how to treat
//! errors from the host run primitive.  The host side performs the
//! blocking run call and the IRQ injection and hands the results
//! back as plain values.

use vstd::prelude::*;

verus! {

use crate::memory::GuestMemory;
use crate::serial::{spec_serial_output, spec_serial_read, SerialConsole};
use crate::virtio::{spec_notify_pending, VirtioBlock, VIRTIO_MMIO_QUEUE_NOTIFY};
use crate::virtio_net::VirtioNet;

/// First guest port of the serial window.
pub const SERIAL_PORT_BASE: u16 = 0x3F8;

/// One past the last guest port of the serial window.
pub const SERIAL_PORT_END: u16 = 0x400;

/// Guest-physical base of the block device's MMIO window.
pub const VIRTIO_MMIO_BASE: u64 = 0xFEB00000;

/// Size of each virtio MMIO window.
pub const VIRTIO_MMIO_SIZE: u64 = 0x1000;

/// Guest-physical base of the net device's MMIO window.
pub const VIRTIO_NET_MMIO_BASE: u64 = 0xFEB10000;

/// IRQ line pulsed for the block device.
pub const BLOCK_IRQ_LINE: u32 = 5;

/// IRQ line pulsed for the net device.
pub const NET_IRQ_LINE: u32 = 6;

/// One vCPU exit, as plain values.
pub enum VcpuEvent {
    /// The guest wrote `data` to a port.
    IoOut { port: u16, data: Vec<u8> },
    /// The guest reads `len` bytes from a port.
    IoIn { port: u16, len: usize },
    /// The guest reads `len` bytes at a physical address.
    MmioRead { addr: u64, len: usize },
    /// The guest wrote `data` at a physical address.
    MmioWrite { addr: u64, data: Vec<u8> },
    /// The guest halted.
    Hlt,
    /// The guest requested shutdown.
    Shutdown,
    /// Any other exit; ignored.
    Other,
}

/// What the host must do after one exit is dispatched.
pub struct ExitOutcome {
    /// Bytes to place in the guest's in-bound buffer (port or MMIO
    /// reads).
    pub data: Vec<u8>,
    /// Bytes the serial console emitted for the host output stream.
    pub host_bytes: Vec<u8>,
    /// The IRQ line to pulse, if any.
    pub irq_line: Option<u32>,
    /// Whether the vCPU thread must return.
    pub stop: bool,
    /// Whether the thread should yield before running again.
    pub yield_hint: bool,
}

/// Whether a port lies in the serial window.
pub open spec fn spec_in_serial(port: u16) -> bool {
    SERIAL_PORT_BASE <= port < SERIAL_PORT_END
}

/// Whether an address lies in the block device's MMIO window.
pub open spec fn spec_in_block_window(addr: u64) -> bool {
    VIRTIO_MMIO_BASE <= addr < VIRTIO_MMIO_BASE + VIRTIO_MMIO_SIZE
}

/// Whether an address lies in the net device's MMIO window.
pub open spec fn spec_in_net_window(addr: u64) -> bool {
    VIRTIO_NET_MMIO_BASE <= addr < VIRTIO_NET_MMIO_BASE + VIRTIO_MMIO_SIZE
}

/// Dispatches one vCPU exit to the owning device and says what the
/// host must do next.
pub fn handle_exit(
    event: &VcpuEvent,
    stop_flag: bool,
    serial: &mut SerialConsole,
    blk: &mut VirtioBlock,
    net: &mut VirtioNet,
    mem: &mut GuestMemory,
) -> (r: ExitOutcome)
    ensures
        final(mem)@.len() == old(mem)@.len(),
        // Port writes go to the serial console and nowhere else.
        event matches VcpuEvent::IoOut { port, data } ==> {
            &&& *final(blk) == *old(blk) && *final(net) == *old(net) && final(mem)@ == old(mem)@
            &&& !r.stop && !r.yield_hint && r.irq_line is None && r.data@.len() == 0
            &&& spec_in_serial(*port) ==> r.host_bytes@ == spec_serial_output(*port, data@)
                && final(serial)@ == old(serial)@ + r.host_bytes@
            &&& !spec_in_serial(*port) ==> *final(serial) == *old(serial) && r.host_bytes@.len()
                == 0
        },
        // Port reads are answered by the serial console.
        event matches VcpuEvent::IoIn { port, len } ==> {
            &&& *final(blk) == *old(blk) && *final(net) == *old(net) && final(mem)@ == old(mem)@
                && *final(serial) == *old(serial)
            &&& !r.stop && !r.yield_hint && r.irq_line is None && r.host_bytes@.len() == 0
            &&& (spec_in_serial(*port) && *len > 0) ==> r.data@ == seq![
                spec_serial_read(*port),
            ]
            &&& !(spec_in_serial(*port) && *len > 0) ==> r.data@.len() == 0
        },
        // MMIO reads are answered by the owning device's registers.
        event matches VcpuEvent::MmioRead { addr, len } ==> {
            &&& *final(blk) == *old(blk) && *final(net) == *old(net) && final(mem)@ == old(mem)@
                && *final(serial) == *old(serial)
            &&& !r.stop && !r.yield_hint && r.irq_line is None && r.host_bytes@.len() == 0
            &&& spec_in_block_window(*addr) ==> r.data@ == vstd::bytes::spec_u32_to_le_bytes(
                crate::virtio::spec_block_reg_read(old(blk), (*addr - VIRTIO_MMIO_BASE) as u64),
            ).take(if *len <= 4 {
                *len as int
            } else {
                4
            })
            &&& spec_in_net_window(*addr) ==> {
                let off = ((*addr - VIRTIO_NET_MMIO_BASE) as u64);
                &&& r.data@.len() == (if *len <= 8 {
                    *len as int
                } else {
                    8
                })
                &&& !(crate::virtio_net::NET_CONFIG_SPACE <= off
                    < crate::virtio_net::NET_CONFIG_SPACE + 6) ==> r.data@
                    == vstd::bytes::spec_u64_to_le_bytes(
                    crate::virtio_net::spec_net_reg_read(old(net), off),
                ).take(r.data@.len() as int)
            }
            &&& !spec_in_block_window(*addr) && !spec_in_net_window(*addr) ==> r.data@.len() == 0
        },
        // MMIO writes go to the owning device; a completed block
        // request pulses the block line.
        event matches VcpuEvent::MmioWrite { addr, data } ==> {
            &&& *final(serial) == *old(serial)
            &&& !r.stop && !r.yield_hint && r.host_bytes@.len() == 0 && r.data@.len() == 0
            &&& spec_in_block_window(*addr) ==> {
                &&& *final(net) == *old(net)
                &&& (r.irq_line is None || r.irq_line == Some(BLOCK_IRQ_LINE))
                &&& r.irq_line == Some(BLOCK_IRQ_LINE) ==> final(blk).interrupt_status == old(
                    blk,
                ).interrupt_status | 1
                &&& (*addr - VIRTIO_MMIO_BASE == VIRTIO_MMIO_QUEUE_NOTIFY && data@.len() >= 4
                    && spec_notify_pending(old(blk), old(mem)@)) ==> r.irq_line == Some(
                    BLOCK_IRQ_LINE,
                )
            }
            &&& spec_in_net_window(*addr) ==> *final(blk) == *old(blk) && final(mem)@ == old(
                mem,
            )@ && r.irq_line is None
            &&& !spec_in_block_window(*addr) && !spec_in_net_window(*addr) ==> *final(blk)
                == *old(blk) && *final(net) == *old(net) && final(mem)@ == old(mem)@
                && r.irq_line is None
        },
        // A halted guest stops when the flag is set and yields
        // otherwise; a shutdown exit always stops.
        event matches VcpuEvent::Hlt ==> {
            &&& *final(serial) == *old(serial) && *final(blk) == *old(blk) && *final(net) == *old(
                net,
            ) && final(mem)@ == old(mem)@
            &&& r.stop == stop_flag && r.yield_hint == !stop_flag
            &&& r.irq_line is None && r.host_bytes@.len() == 0 && r.data@.len() == 0
        },
        event matches VcpuEvent::Shutdown ==> {
            &&& *final(serial) == *old(serial) && *final(blk) == *old(blk) && *final(net) == *old(
                net,
            ) && final(mem)@ == old(mem)@
            &&& r.stop && !r.yield_hint && r.irq_line is None && r.host_bytes@.len() == 0
                && r.data@.len() == 0
        },
        event matches VcpuEvent::Other ==> {
            &&& *final(serial) == *old(serial) && *final(blk) == *old(blk) && *final(net) == *old(
                net,
            ) && final(mem)@ == old(mem)@
            &&& !r.stop && !r.yield_hint && r.irq_line is None && r.host_bytes@.len() == 0
                && r.data@.len() == 0
        },
{
    match event {
        VcpuEvent::IoOut { port, data } => {
            let mut host_bytes: Vec<u8> = Vec::new();
            if SERIAL_PORT_BASE <= *port && *port < SERIAL_PORT_END {
                host_bytes = serial.write(*port, data.as_slice());
            }
            ExitOutcome {
                data: Vec::new(),
                host_bytes,
                irq_line: None,
                stop: false,
                yield_hint: false,
            }
        },
        VcpuEvent::IoIn { port, len } => {
            let mut data: Vec<u8> = Vec::new();
            if SERIAL_PORT_BASE <= *port && *port < SERIAL_PORT_END && *len > 0 {
                data.push(serial.read(*port));
            }
            ExitOutcome {
                data,
                host_bytes: Vec::new(),
                irq_line: None,
                stop: false,
                yield_hint: false,
            }
        },
        VcpuEvent::MmioRead { addr, len } => {
            let mut data: Vec<u8> = Vec::new();
            if VIRTIO_MMIO_BASE <= *addr && *addr < VIRTIO_MMIO_BASE + VIRTIO_MMIO_SIZE {
                data = blk.read(*addr - VIRTIO_MMIO_BASE, *len);
            } else if VIRTIO_NET_MMIO_BASE <= *addr && *addr < VIRTIO_NET_MMIO_BASE
                + VIRTIO_MMIO_SIZE {
                data = net.read(*addr - VIRTIO_NET_MMIO_BASE, *len);
            }
            ExitOutcome {
                data,
                host_bytes: Vec::new(),
                irq_line: None,
                stop: false,
                yield_hint: false,
            }
        },
        VcpuEvent::MmioWrite { addr, data } => {
            let mut irq_line: Option<u32> = None;
            if VIRTIO_MMIO_BASE <= *addr && *addr < VIRTIO_MMIO_BASE + VIRTIO_MMIO_SIZE {
                let needs_irq = blk.write(*addr - VIRTIO_MMIO_BASE, data.as_slice(), mem);
                if needs_irq {
                    irq_line = Some(BLOCK_IRQ_LINE);
                }
            } else if VIRTIO_NET_MMIO_BASE <= *addr && *addr < VIRTIO_NET_MMIO_BASE
                + VIRTIO_MMIO_SIZE {
                let needs_irq = match net.write(*addr - VIRTIO_NET_MMIO_BASE, data.as_slice()) {
                    Ok(b) => b,
                    Err(_) => false,
                };
                if needs_irq {
                    irq_line = Some(NET_IRQ_LINE);
                }
            }
            ExitOutcome {
                data: Vec::new(),
                host_bytes: Vec::new(),
                irq_line,
                stop: false,
                yield_hint: false,
            }
        },
        VcpuEvent::Hlt => ExitOutcome {
            data: Vec::new(),
            host_bytes: Vec::new(),
            irq_line: None,
            stop: stop_flag,
            yield_hint: !stop_flag,
        },
        VcpuEvent::Shutdown => ExitOutcome {
            data: Vec::new(),
            host_bytes: Vec::new(),
            irq_line: None,
            stop: true,
            yield_hint: false,
        },
        VcpuEvent::Other => ExitOutcome {
            data: Vec::new(),
            host_bytes: Vec::new(),
            irq_line: None,
            stop: false,
            yield_hint: false,
        },
    }
}

/// What to do with an error from the host run primitive.
#[derive(Clone, Copy, Debug, PartialEq, Eq, Structural)]
pub enum RunErrorAction {
    /// The vCPU was not ready; yield and retry.
    RetryAfterYield,
    /// A signal interrupted the run; re-check the stop flag, then
    /// retry.
    CheckStopAndRetry,
    /// Anything else is fatal: set the stop flag and exit.
    Fatal,
}

/// Classifies an errno from the run primitive: 11 (would block)
/// retries after a yield, 4 (interrupted) re-checks the stop flag,
/// everything else is fatal.
pub fn classify_run_error(errno: i32) -> (r: RunErrorAction)
    ensures
        errno == 11 ==> r == RunErrorAction::RetryAfterYield,
        errno == 4 ==> r == RunErrorAction::CheckStopAndRetry,
        errno != 11 && errno != 4 ==> r == RunErrorAction::Fatal,
{
    if errno == 11 {
        RunErrorAction::RetryAfterYield
    } else if errno == 4 {
        RunErrorAction::CheckStopAndRetry
    } else {
        RunErrorAction::Fatal
    }
}

/// What a vCPU thread does at the top of each loop iteration.
#[derive(Clone, Copy, Debug, PartialEq, Eq, Structural)]
pub enum StepAction {
    /// The stop flag is set: the thread returns now.
    Stop,
    /// This is vCPU 0: poll the net device, then run.
    PollThenRun,
    /// Run without polling.
    RunOnly,
}

/// The loop-top decision: a set stop flag ends the thread within
/// this iteration; only vCPU 0 polls the net device.
pub fn run_loop_step(stop_flag: bool, cpu_id: u8) -> (r: StepAction)
    ensures
        stop_flag <==> r == StepAction::Stop,
        !stop_flag && cpu_id == 0 ==> r == StepAction::PollThenRun,
        !stop_flag && cpu_id != 0 ==> r == StepAction::RunOnly,
{
    if stop_flag {
        StepAction::Stop
    } else if cpu_id == 0 {
        StepAction::PollThenRun
    } else {
        StepAction::RunOnly
    }
}

} // verus!
