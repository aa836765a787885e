use axvm_core::linux::{BootParams, E820Entry, SetupHeader, E820_RAM, SETUP_HEADER_SIZE};
use axvm_core::memory::GuestMemory;
use axvm_core::virtqueue::VirtQueue;

#[test]
fn e820_entry_packs_little_endian() {
    let e = E820Entry { addr: 0x100000, size: 0x9FC00, type_: E820_RAM };
    let b = e.to_bytes();
    assert_eq!(b.len(), 20);
    assert_eq!(&b[..8], &0x100000u64.to_le_bytes());
    assert_eq!(&b[8..16], &0x9FC00u64.to_le_bytes());
    assert_eq!(&b[16..20], &1u32.to_le_bytes());
}

#[test]
fn setup_header_reads_image_fields() {
    let mut image = vec![0u8; 0x1F1 + SETUP_HEADER_SIZE];
    image[0x1F1] = 7; // setup_sects
    image[0x202..0x206].copy_from_slice(&0x53726448u32.to_le_bytes());
    image[0x206..0x208].copy_from_slice(&0x020Fu16.to_le_bytes());
    image[0x211] = 0x01;
    image[0x214..0x218].copy_from_slice(&0x100000u32.to_le_bytes());
    let hdr = SetupHeader::from_image(&image).unwrap();
    assert_eq!(hdr.setup_sects(), 7);
    assert_eq!(hdr.header_magic(), 0x53726448);
    assert_eq!(hdr.version(), 0x020F);
    assert_eq!(hdr.loadflags(), 0x01);
    assert_eq!(hdr.code32_start(), 0x100000);
}

#[test]
fn setup_header_rejects_short_image() {
    let image = vec![0u8; 0x1F1 + SETUP_HEADER_SIZE - 1];
    assert!(SetupHeader::from_image(&image).is_none());
}

#[test]
fn setup_header_setters_write_fields() {
    let image = vec![0u8; 0x268];
    let mut hdr = SetupHeader::from_image(&image).unwrap();
    hdr.set_type_of_loader(0xFF);
    hdr.set_loadflags(0x81);
    hdr.set_cmd_line_ptr(0x20000);
    hdr.set_cmdline_size(42);
    let mut zp = BootParams::new();
    zp.set_header(&hdr);
    let bytes = zp.as_bytes();
    assert_eq!(bytes[0x210], 0xFF);
    assert_eq!(bytes[0x211], 0x81);
    assert_eq!(&bytes[0x228..0x22C], &0x20000u32.to_le_bytes());
    assert_eq!(&bytes[0x238..0x23C], &42u32.to_le_bytes());
}

#[test]
fn boot_params_e820_table_layout() {
    let mut zp = BootParams::new();
    zp.set_e820_entries(2);
    zp.set_e820_entry(0, &E820Entry { addr: 0, size: 0x9FC00, type_: 1 });
    zp.set_e820_entry(1, &E820Entry { addr: 0x100000, size: 0x3FF00000, type_: 1 });
    let bytes = zp.as_bytes();
    assert_eq!(bytes.len(), 4096);
    assert_eq!(bytes[0x1E8], 2);
    assert_eq!(&bytes[0x2D0..0x2D8], &0u64.to_le_bytes());
    assert_eq!(&bytes[0x2E4..0x2EC], &0x100000u64.to_le_bytes());
}

#[test]
fn virtqueue_publishes_used_entries() {
    let mut mem = GuestMemory::new(0x4000);
    let mut q = VirtQueue::new();
    q.queue_size = 4;
    q.ready = true;
    q.avail_addr = 0x1000;
    q.used_addr = 0x2000;
    q.desc_addr = 0x3000;
    // The guest publishes head 3 as the first available entry.
    mem.write_u16(0x1004, 3).unwrap();
    mem.write_u16(0x1002, 1).unwrap();
    assert_eq!(q.available_idx(&mem), 1);
    assert_eq!(q.get_avail_desc_idx(&mem), Some(3));
    q.add_used(&mut mem, 3, 100);
    assert_eq!(q.last_avail_idx, 1);
    assert_eq!(mem.read_u32(0x2004).unwrap(), 3);
    assert_eq!(mem.read_u32(0x2008).unwrap(), 100);
    assert_eq!(mem.read_u16(0x2002).unwrap(), 1);
    // Nothing further is available.
    assert_eq!(q.get_avail_desc_idx(&mem), None);
}

#[test]
fn virtqueue_reads_descriptors() {
    let mut mem = GuestMemory::new(0x4000);
    let mut q = VirtQueue::new();
    q.queue_size = 4;
    q.desc_addr = 0x3000;
    mem.write_u64(0x3010, 0xAAAA).unwrap();
    mem.write_u32(0x3018, 512).unwrap();
    mem.write_u16(0x301C, 2).unwrap();
    mem.write_u16(0x301E, 9).unwrap();
    let d = q.read_desc(&mem, 1).unwrap();
    assert_eq!(d.addr, 0xAAAA);
    assert_eq!(d.len, 512);
    assert_eq!(d.flags, 2);
    assert_eq!(d.next, 9);
    // A descriptor beyond the region is refused.
    q.desc_addr = 0x4000;
    assert!(q.read_desc(&mem, 0).is_none());
}
