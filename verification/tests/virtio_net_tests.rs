use axvm_core::memory::GuestMemory;
use axvm_core::virtio::{
    VIRTIO_MMIO_DEVICE_ID, VIRTIO_MMIO_INTERRUPT_ACK, VIRTIO_MMIO_MAGIC_VALUE,
    VIRTIO_MMIO_QUEUE_AVAIL_LOW, VIRTIO_MMIO_QUEUE_DESC_LOW, VIRTIO_MMIO_QUEUE_NUM,
    VIRTIO_MMIO_QUEUE_READY, VIRTIO_MMIO_QUEUE_SEL, VIRTIO_MMIO_QUEUE_USED_LOW,
    VIRTIO_MMIO_VERSION,
};
use axvm_core::virtio_net::{DeviceError, VirtioNet, NET_CONFIG_SPACE};

const DESC_TABLE: u64 = 0x1000;
const AVAIL_RING: u64 = 0x2000;
const USED_RING: u64 = 0x3000;
const PACKET_BUF: u64 = 0x5000;

fn write_reg(dev: &mut VirtioNet, offset: u64, val: u32) {
    dev.write(offset, &val.to_le_bytes()).unwrap();
}

fn write_desc(mem: &mut GuestMemory, idx: u64, addr: u64, len: u32, flags: u16, next: u16) {
    let base = (DESC_TABLE + idx * 16) as usize;
    mem.write_u64(base, addr).unwrap();
    mem.write_u32(base + 8, len).unwrap();
    mem.write_u16(base + 12, flags).unwrap();
    mem.write_u16(base + 14, next).unwrap();
}

fn configure_queue(dev: &mut VirtioNet, sel: u32) {
    write_reg(dev, VIRTIO_MMIO_QUEUE_SEL, sel);
    write_reg(dev, VIRTIO_MMIO_QUEUE_NUM, 256);
    write_reg(dev, VIRTIO_MMIO_QUEUE_DESC_LOW, DESC_TABLE as u32);
    write_reg(dev, VIRTIO_MMIO_QUEUE_AVAIL_LOW, AVAIL_RING as u32);
    write_reg(dev, VIRTIO_MMIO_QUEUE_USED_LOW, USED_RING as u32);
    write_reg(dev, VIRTIO_MMIO_QUEUE_READY, 1);
}

#[test]
fn responds_to_identity_reads_without_tap() {
    let dev = VirtioNet::new();
    assert_eq!(dev.read(VIRTIO_MMIO_MAGIC_VALUE, 4), 0x74726976u32.to_le_bytes().to_vec());
    assert_eq!(dev.read(VIRTIO_MMIO_VERSION, 4), 2u32.to_le_bytes().to_vec());
    assert_eq!(dev.read(VIRTIO_MMIO_DEVICE_ID, 4), 1u32.to_le_bytes().to_vec());
    assert!(!dev.should_interrupt());
}

#[test]
fn both_queues_configurable_without_tap() {
    let mut dev = VirtioNet::new();
    configure_queue(&mut dev, 0);
    configure_queue(&mut dev, 1);
    write_reg(&mut dev, VIRTIO_MMIO_QUEUE_SEL, 0);
    let r = dev.read(VIRTIO_MMIO_QUEUE_READY, 4);
    assert_eq!(u32::from_le_bytes(r.try_into().unwrap()), 1);
    write_reg(&mut dev, VIRTIO_MMIO_QUEUE_SEL, 1);
    let r = dev.read(VIRTIO_MMIO_QUEUE_READY, 4);
    assert_eq!(u32::from_le_bytes(r.try_into().unwrap()), 1);
    // No frames flowed, so no interrupt was ever raised.
    assert!(!dev.should_interrupt());
}

#[test]
fn config_space_reports_mac() {
    let dev = VirtioNet::new();
    let mac = dev.read(NET_CONFIG_SPACE, 6);
    assert_eq!(mac, vec![0x52, 0x54, 0x00, 0x12, 0x34, 0x56]);
    let tail = dev.read(NET_CONFIG_SPACE + 4, 4);
    assert_eq!(tail, vec![0x34, 0x56, 0, 0]);
}

#[test]
fn rejects_odd_write_sizes() {
    let mut dev = VirtioNet::new();
    let r = dev.write(VIRTIO_MMIO_QUEUE_SEL, &[1, 2, 3]);
    assert_eq!(r, Err(DeviceError::InvalidWriteSize));
    assert!(dev.write(VIRTIO_MMIO_QUEUE_SEL, &[1]).is_ok());
    assert!(dev.write(VIRTIO_MMIO_QUEUE_SEL, &[1, 0]).is_ok());
}

#[test]
fn tx_strips_virtio_net_header() {
    let mut mem = GuestMemory::new(0x10000);
    let mut dev = VirtioNet::new();
    configure_queue(&mut dev, 1);
    // A 12-byte header followed by a 60-byte frame.
    let frame: Vec<u8> = (0..60u8).collect();
    mem.write_slice(PACKET_BUF as usize + 12, &frame).unwrap();
    write_desc(&mut mem, 0, PACKET_BUF, 12 + 60, 0, 0);
    mem.write_u16(AVAIL_RING as usize + 4, 0).unwrap();
    mem.write_u16(AVAIL_RING as usize + 2, 1).unwrap();

    let sent = dev.tx_next(&mut mem).unwrap();
    // The frame on the wire is the chain data minus the header.
    assert_eq!(sent.len(), 60);
    assert_eq!(sent, frame);
    // The used ring advanced and the interrupt bit is set.
    assert_eq!(mem.read_u16(USED_RING as usize + 2).unwrap(), 1);
    assert!(dev.should_interrupt());
    // Nothing further is pending.
    assert!(dev.tx_next(&mut mem).is_none());
}

#[test]
fn rx_prepends_zero_header() {
    let mut mem = GuestMemory::new(0x10000);
    let mut dev = VirtioNet::new();
    configure_queue(&mut dev, 0);
    // The guest posts one empty 1526-byte buffer.
    write_desc(&mut mem, 0, PACKET_BUF, 1526, 2, 0);
    mem.write_u16(AVAIL_RING as usize + 4, 0).unwrap();
    mem.write_u16(AVAIL_RING as usize + 2, 1).unwrap();
    assert!(dev.rx_has_buffer(&mem));

    let frame = vec![0xABu8; 64];
    assert!(dev.rx_deliver(&mut mem, &frame));
    let hdr = mem.read_slice(PACKET_BUF as usize, 12).unwrap();
    assert_eq!(hdr, vec![0u8; 12]);
    let body = mem.read_slice(PACKET_BUF as usize + 12, 64).unwrap();
    assert_eq!(body, frame);
    // used.len reports header plus frame.
    assert_eq!(mem.read_u32(USED_RING as usize + 8).unwrap(), 76);
    assert!(dev.should_interrupt());
}

#[test]
fn rx_without_buffer_changes_nothing() {
    let mut mem = GuestMemory::new(0x10000);
    let mut dev = VirtioNet::new();
    configure_queue(&mut dev, 0);
    // avail.idx stays 0: no buffer published.
    assert!(!dev.rx_has_buffer(&mem));
    assert!(!dev.rx_deliver(&mut mem, &[1, 2, 3]));
    assert!(!dev.should_interrupt());
}

#[test]
fn rx_oversized_frame_is_dropped() {
    let mut mem = GuestMemory::new(0x10000);
    let mut dev = VirtioNet::new();
    configure_queue(&mut dev, 0);
    // Buffer smaller than header + frame.
    write_desc(&mut mem, 0, PACKET_BUF, 20, 2, 0);
    mem.write_u16(AVAIL_RING as usize + 4, 0).unwrap();
    mem.write_u16(AVAIL_RING as usize + 2, 1).unwrap();
    assert!(!dev.rx_deliver(&mut mem, &[0u8; 64]));
    assert!(!dev.should_interrupt());
}

#[test]
fn interrupt_ack_clears_net_status() {
    let mut mem = GuestMemory::new(0x10000);
    let mut dev = VirtioNet::new();
    configure_queue(&mut dev, 1);
    write_desc(&mut mem, 0, PACKET_BUF, 40, 0, 0);
    mem.write_u16(AVAIL_RING as usize + 4, 0).unwrap();
    mem.write_u16(AVAIL_RING as usize + 2, 1).unwrap();
    dev.tx_next(&mut mem).unwrap();
    assert!(dev.should_interrupt());
    write_reg(&mut dev, VIRTIO_MMIO_INTERRUPT_ACK, 1);
    assert!(!dev.should_interrupt());
}

#[test]
fn device_reset_clears_queues() {
    let mut dev = VirtioNet::new();
    configure_queue(&mut dev, 0);
    write_reg(&mut dev, axvm_core::virtio::VIRTIO_MMIO_STATUS, 0);
    write_reg(&mut dev, VIRTIO_MMIO_QUEUE_SEL, 0);
    let r = dev.read(VIRTIO_MMIO_QUEUE_READY, 4);
    assert_eq!(u32::from_le_bytes(r.try_into().unwrap()), 0);
}
