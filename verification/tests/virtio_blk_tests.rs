use axvm_core::memory::GuestMemory;
use axvm_core::virtio::{
    VirtioBlock, VIRTIO_MMIO_DEVICE_ID, VIRTIO_MMIO_INTERRUPT_ACK, VIRTIO_MMIO_INTERRUPT_STATUS,
    VIRTIO_MMIO_MAGIC_VALUE, VIRTIO_MMIO_QUEUE_AVAIL_LOW, VIRTIO_MMIO_QUEUE_DESC_LOW,
    VIRTIO_MMIO_QUEUE_NOTIFY, VIRTIO_MMIO_QUEUE_NUM, VIRTIO_MMIO_QUEUE_READY,
    VIRTIO_MMIO_QUEUE_USED_LOW, VIRTIO_MMIO_STATUS, VIRTIO_MMIO_VERSION,
};

const DESC_TABLE: u64 = 0x1000;
const AVAIL_RING: u64 = 0x2000;
const USED_RING: u64 = 0x3000;
const HEADER_BUF: u64 = 0x4000;
const DATA_BUF: u64 = 0x5000;
const STATUS_BUF: u64 = 0x6000;

fn write_reg(dev: &mut VirtioBlock, mem: &mut GuestMemory, offset: u64, val: u32) -> bool {
    dev.write(offset, &val.to_le_bytes(), mem)
}

fn write_desc(mem: &mut GuestMemory, idx: u64, addr: u64, len: u32, flags: u16, next: u16) {
    let base = (DESC_TABLE + idx * 16) as usize;
    mem.write_u64(base, addr).unwrap();
    mem.write_u32(base + 8, len).unwrap();
    mem.write_u16(base + 12, flags).unwrap();
    mem.write_u16(base + 14, next).unwrap();
}

/// Builds a three-descriptor IN request for `sector` and publishes it.
fn publish_in_request(mem: &mut GuestMemory, sector: u64, data_len: u32) {
    // Header: type 0 (IN), reserved, sector.
    mem.write_u32(HEADER_BUF as usize, 0).unwrap();
    mem.write_u32(HEADER_BUF as usize + 4, 0).unwrap();
    mem.write_u64(HEADER_BUF as usize + 8, sector).unwrap();
    // Chain: header -> data (device-writable) -> status.
    write_desc(mem, 0, HEADER_BUF, 16, 1, 1);
    write_desc(mem, 1, DATA_BUF, data_len, 1 | 2, 2);
    write_desc(mem, 2, STATUS_BUF, 1, 2, 0);
    // Available ring: one head, index 0.
    mem.write_u16(AVAIL_RING as usize + 4, 0).unwrap();
    mem.write_u16(AVAIL_RING as usize + 2, 1).unwrap();
}

fn configured_device(mem: &mut GuestMemory, disk: Option<Vec<u8>>) -> VirtioBlock {
    let mut dev = VirtioBlock::new(disk);
    write_reg(&mut dev, mem, VIRTIO_MMIO_QUEUE_NUM, 256);
    write_reg(&mut dev, mem, VIRTIO_MMIO_QUEUE_DESC_LOW, DESC_TABLE as u32);
    write_reg(&mut dev, mem, VIRTIO_MMIO_QUEUE_AVAIL_LOW, AVAIL_RING as u32);
    write_reg(&mut dev, mem, VIRTIO_MMIO_QUEUE_USED_LOW, USED_RING as u32);
    write_reg(&mut dev, mem, VIRTIO_MMIO_QUEUE_READY, 1);
    dev
}

#[test]
fn register_identity() {
    let dev = VirtioBlock::new(None);
    assert_eq!(dev.read(VIRTIO_MMIO_MAGIC_VALUE, 4), 0x74726976u32.to_le_bytes().to_vec());
    assert_eq!(dev.read(VIRTIO_MMIO_VERSION, 4), 2u32.to_le_bytes().to_vec());
    assert_eq!(dev.read(VIRTIO_MMIO_DEVICE_ID, 4), 2u32.to_le_bytes().to_vec());
}

#[test]
fn in_request_round_trips_disk_pattern() {
    let mut mem = GuestMemory::new(0x10000);
    // A disk whose first sector carries a known pattern.
    let mut disk = vec![0u8; 4096];
    for (i, b) in disk.iter_mut().enumerate().take(512) {
        *b = (i % 251) as u8;
    }
    let mut dev = configured_device(&mut mem, Some(disk.clone()));
    publish_in_request(&mut mem, 0, 512);

    let irq = write_reg(&mut dev, &mut mem, VIRTIO_MMIO_QUEUE_NOTIFY, 0);
    assert!(irq);
    // The data buffer now holds the first sector.
    let data = mem.read_slice(DATA_BUF as usize, 512).unwrap();
    assert_eq!(data, disk[..512].to_vec());
    // Status byte is OK.
    assert_eq!(mem.read_u8(STATUS_BUF as usize).unwrap(), 0);
    // used.idx advanced by exactly 1, and the used element reports
    // the head id with bytes_read + 1.
    assert_eq!(mem.read_u16(USED_RING as usize + 2).unwrap(), 1);
    assert_eq!(mem.read_u32(USED_RING as usize + 4).unwrap(), 0);
    assert_eq!(mem.read_u32(USED_RING as usize + 8).unwrap(), 513);
}

#[test]
fn first_sector_of_disk_image_reaches_guest() {
    let mut mem = GuestMemory::new(0x10000);
    let mut disk = vec![0u8; 100 * 1024 * 1024];
    disk[..8].copy_from_slice(b"AXVMDISK");
    let mut dev = configured_device(&mut mem, Some(disk));
    publish_in_request(&mut mem, 0, 512);

    let irq = write_reg(&mut dev, &mut mem, VIRTIO_MMIO_QUEUE_NOTIFY, 0);
    assert!(irq);
    let head = mem.read_slice(DATA_BUF as usize, 8).unwrap();
    assert_eq!(head, b"AXVMDISK".to_vec());
    assert_eq!(mem.read_u8(STATUS_BUF as usize).unwrap(), 0);
    assert_eq!(mem.read_u16(USED_RING as usize + 2).unwrap(), 1);
}

#[test]
fn in_request_reads_requested_sector() {
    let mut mem = GuestMemory::new(0x10000);
    let mut disk = vec![0u8; 3 * 512];
    disk[2 * 512] = 0xEE;
    let mut dev = configured_device(&mut mem, Some(disk));
    publish_in_request(&mut mem, 2, 512);
    assert!(write_reg(&mut dev, &mut mem, VIRTIO_MMIO_QUEUE_NOTIFY, 0));
    assert_eq!(mem.read_u8(DATA_BUF as usize).unwrap(), 0xEE);
}

#[test]
fn out_request_writes_disk() {
    let mut mem = GuestMemory::new(0x10000);
    let disk = vec![0u8; 2048];
    let mut dev = configured_device(&mut mem, Some(disk));
    // Payload in guest memory.
    mem.write_slice(DATA_BUF as usize, b"HELLODISK").unwrap();
    // Header: type 1 (OUT), sector 1.
    mem.write_u32(HEADER_BUF as usize, 1).unwrap();
    mem.write_u64(HEADER_BUF as usize + 8, 1).unwrap();
    write_desc(&mut mem, 0, HEADER_BUF, 16, 1, 1);
    write_desc(&mut mem, 1, DATA_BUF, 9, 1, 2);
    write_desc(&mut mem, 2, STATUS_BUF, 1, 2, 0);
    mem.write_u16(AVAIL_RING as usize + 4, 0).unwrap();
    mem.write_u16(AVAIL_RING as usize + 2, 1).unwrap();

    assert!(write_reg(&mut dev, &mut mem, VIRTIO_MMIO_QUEUE_NOTIFY, 0));
    let disk = dev.disk.as_ref().unwrap();
    assert_eq!(&disk[512..521], b"HELLODISK");
    assert_eq!(mem.read_u8(STATUS_BUF as usize).unwrap(), 0);
    // OUT publishes only the status byte.
    assert_eq!(mem.read_u32(USED_RING as usize + 8).unwrap(), 1);
}

#[test]
fn interrupt_bit_set_then_acknowledged() {
    let mut mem = GuestMemory::new(0x10000);
    let disk = vec![1u8; 1024];
    let mut dev = configured_device(&mut mem, Some(disk));
    publish_in_request(&mut mem, 0, 512);
    assert!(write_reg(&mut dev, &mut mem, VIRTIO_MMIO_QUEUE_NOTIFY, 0));
    let status = dev.read(VIRTIO_MMIO_INTERRUPT_STATUS, 4);
    let status_val = u32::from_le_bytes(status.try_into().unwrap());
    assert_eq!(status_val & 1, 1);
    // Acknowledging with the value read clears the bit.
    write_reg(&mut dev, &mut mem, VIRTIO_MMIO_INTERRUPT_ACK, status_val);
    let cleared = dev.read(VIRTIO_MMIO_INTERRUPT_STATUS, 4);
    assert_eq!(u32::from_le_bytes(cleared.try_into().unwrap()) & 1, 0);
}

#[test]
fn notify_without_work_raises_nothing() {
    let mut mem = GuestMemory::new(0x10000);
    let mut dev = configured_device(&mut mem, Some(vec![0u8; 512]));
    // avail.idx == last_seen: nothing pending.
    assert!(!write_reg(&mut dev, &mut mem, VIRTIO_MMIO_QUEUE_NOTIFY, 0));
    let status = dev.read(VIRTIO_MMIO_INTERRUPT_STATUS, 4);
    assert_eq!(u32::from_le_bytes(status.try_into().unwrap()), 0);
}

#[test]
fn device_reset_clears_queue_state() {
    let mut mem = GuestMemory::new(0x10000);
    let mut dev = configured_device(&mut mem, None);
    write_reg(&mut dev, &mut mem, VIRTIO_MMIO_STATUS, 0xF);
    write_reg(&mut dev, &mut mem, VIRTIO_MMIO_STATUS, 0);
    let ready = dev.read(VIRTIO_MMIO_QUEUE_READY, 4);
    assert_eq!(u32::from_le_bytes(ready.try_into().unwrap()), 0);
}
