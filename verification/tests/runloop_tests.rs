use axvm_core::memory::GuestMemory;
use axvm_core::runloop::{
    classify_run_error, handle_exit, run_loop_step, RunErrorAction, StepAction, VcpuEvent,
    BLOCK_IRQ_LINE, VIRTIO_MMIO_BASE,
};
use axvm_core::serial::SerialConsole;
use axvm_core::virtio::VirtioBlock;
use axvm_core::virtio_net::VirtioNet;

fn fresh() -> (SerialConsole, VirtioBlock, VirtioNet, GuestMemory) {
    (SerialConsole::new(), VirtioBlock::new(None), VirtioNet::new(), GuestMemory::new(0x10000))
}

#[test]
fn serial_write_reaches_host_stream() {
    let (mut serial, mut blk, mut net, mut mem) = fresh();
    let ev = VcpuEvent::IoOut { port: 0x3F8, data: vec![b'\n'] };
    let out = handle_exit(&ev, false, &mut serial, &mut blk, &mut net, &mut mem);
    assert_eq!(out.host_bytes, vec![b'\r', b'\n']);
    assert!(out.irq_line.is_none());
    assert!(!out.stop);
}

#[test]
fn serial_read_fills_guest_buffer() {
    let (mut serial, mut blk, mut net, mut mem) = fresh();
    let ev = VcpuEvent::IoIn { port: 0x3FD, len: 1 };
    let out = handle_exit(&ev, false, &mut serial, &mut blk, &mut net, &mut mem);
    assert_eq!(out.data, vec![0x60]);
}

#[test]
fn mmio_read_routes_to_block_device() {
    let (mut serial, mut blk, mut net, mut mem) = fresh();
    let ev = VcpuEvent::MmioRead { addr: VIRTIO_MMIO_BASE, len: 4 };
    let out = handle_exit(&ev, false, &mut serial, &mut blk, &mut net, &mut mem);
    assert_eq!(out.data, 0x74726976u32.to_le_bytes().to_vec());
}

#[test]
fn mmio_read_routes_to_net_device() {
    let (mut serial, mut blk, mut net, mut mem) = fresh();
    let ev = VcpuEvent::MmioRead { addr: 0xFEB10008, len: 4 };
    let out = handle_exit(&ev, false, &mut serial, &mut blk, &mut net, &mut mem);
    assert_eq!(out.data, 1u32.to_le_bytes().to_vec());
}

#[test]
fn mmio_write_routes_to_block_device() {
    let (mut serial, mut blk, mut net, mut mem) = fresh();
    // Write the queue size through the window.
    let ev = VcpuEvent::MmioWrite { addr: VIRTIO_MMIO_BASE + 0x38, data: 128u32.to_le_bytes().to_vec() };
    let out = handle_exit(&ev, false, &mut serial, &mut blk, &mut net, &mut mem);
    assert!(out.irq_line.is_none());
    assert_eq!(blk.queue_num, 128);
}

#[test]
fn completed_block_request_pulses_block_line() {
    let (mut serial, mut net, mut mem) = (SerialConsole::new(), VirtioNet::new(), GuestMemory::new(0x10000));
    let mut blk = VirtioBlock::new(Some(vec![7u8; 1024]));
    let mut reg = |blk: &mut VirtioBlock, mem: &mut GuestMemory, off: u64, val: u32| {
        blk.write(off, &val.to_le_bytes(), mem);
    };
    reg(&mut blk, &mut mem, 0x38, 8); // queue size
    reg(&mut blk, &mut mem, 0x80, 0x1000); // descriptor table
    reg(&mut blk, &mut mem, 0x90, 0x2000); // available ring
    reg(&mut blk, &mut mem, 0xA0, 0x3000); // used ring
    reg(&mut blk, &mut mem, 0x44, 1); // ready
    // Header (IN, sector 0), data, status.
    mem.write_u32(0x4000, 0).unwrap();
    mem.write_u64(0x4008, 0).unwrap();
    mem.write_u64(0x1000, 0x4000).unwrap();
    mem.write_u32(0x1008, 16).unwrap();
    mem.write_u16(0x100C, 1).unwrap();
    mem.write_u16(0x100E, 1).unwrap();
    mem.write_u64(0x1010, 0x5000).unwrap();
    mem.write_u32(0x1018, 512).unwrap();
    mem.write_u16(0x101C, 3).unwrap();
    mem.write_u16(0x101E, 2).unwrap();
    mem.write_u64(0x1020, 0x6000).unwrap();
    mem.write_u32(0x1028, 1).unwrap();
    mem.write_u16(0x102C, 2).unwrap();
    // Publish head 0 in the available ring.
    mem.write_u16(0x2004, 0).unwrap();
    mem.write_u16(0x2002, 1).unwrap();
    let ev = VcpuEvent::MmioWrite { addr: VIRTIO_MMIO_BASE + 0x50, data: 0u32.to_le_bytes().to_vec() };
    let out = handle_exit(&ev, false, &mut serial, &mut blk, &mut net, &mut mem);
    assert_eq!(out.irq_line, Some(BLOCK_IRQ_LINE));
    assert_eq!(mem.read_u8(0x6000).unwrap(), 0);
}

#[test]
fn hlt_stops_only_when_flag_set() {
    let (mut serial, mut blk, mut net, mut mem) = fresh();
    let out = handle_exit(&VcpuEvent::Hlt, false, &mut serial, &mut blk, &mut net, &mut mem);
    assert!(!out.stop);
    assert!(out.yield_hint);
    let out = handle_exit(&VcpuEvent::Hlt, true, &mut serial, &mut blk, &mut net, &mut mem);
    assert!(out.stop);
}

#[test]
fn shutdown_always_stops() {
    let (mut serial, mut blk, mut net, mut mem) = fresh();
    let out = handle_exit(&VcpuEvent::Shutdown, false, &mut serial, &mut blk, &mut net, &mut mem);
    assert!(out.stop);
}

#[test]
fn run_errors_classified() {
    assert_eq!(classify_run_error(11), RunErrorAction::RetryAfterYield);
    assert_eq!(classify_run_error(4), RunErrorAction::CheckStopAndRetry);
    assert_eq!(classify_run_error(5), RunErrorAction::Fatal);
    assert_eq!(classify_run_error(0), RunErrorAction::Fatal);
}

#[test]
fn stop_flag_ends_loop_within_one_iteration() {
    assert_eq!(run_loop_step(true, 0), StepAction::Stop);
    assert_eq!(run_loop_step(true, 3), StepAction::Stop);
    assert_eq!(run_loop_step(false, 0), StepAction::PollThenRun);
    assert_eq!(run_loop_step(false, 1), StepAction::RunOnly);
}
