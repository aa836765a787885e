use axvm_core::linux::{CMDLINE_START, HDRS_MAGIC, KERNEL_START, SETUP_HEADER_OFFSET, ZERO_PAGE_START};
use axvm_core::loader::{load_linux, LoaderError, SECTOR_SIZE};
use axvm_core::memory::GuestMemory;

const MEM_SIZE: usize = 0x200000;

/// A minimal boot-protocol image: `setup_sects` setup sectors, the
/// magic at 0x202, a version, a `code32_start`, and a body.
fn fake_kernel(setup_sects: u8, version: u16, code32_start: u32, body: &[u8]) -> Vec<u8> {
    let effective = if setup_sects == 0 { 4usize } else { setup_sects as usize };
    let start = (effective + 1) * 512;
    let mut image = vec![0u8; start];
    image[0x1F1] = setup_sects;
    image[0x202..0x206].copy_from_slice(&HDRS_MAGIC.to_le_bytes());
    image[0x206..0x208].copy_from_slice(&version.to_le_bytes());
    image[0x211] = 0x01; // loadflags before the loader touches them
    image[0x214..0x218].copy_from_slice(&code32_start.to_le_bytes());
    image.extend_from_slice(body);
    image
}

#[test]
fn test_constants() {
    assert_eq!(SETUP_HEADER_OFFSET, 0x1F1);
    assert_eq!(SECTOR_SIZE, 512);
    assert_eq!(KERNEL_START, 0x100000);
}

#[test]
fn accepts_magic_and_returns_entry() {
    let mut mem = GuestMemory::new(MEM_SIZE);
    let image = fake_kernel(1, 0x020F, 0, b"KERNELBODY");
    let entry = load_linux(&mut mem, &image, MEM_SIZE, b"console=ttyS0").unwrap();
    assert_eq!(entry, 0x100000);
}

#[test]
fn honors_code32_start() {
    let mut mem = GuestMemory::new(MEM_SIZE);
    let image = fake_kernel(1, 0x020F, 0x100200, b"X");
    let entry = load_linux(&mut mem, &image, MEM_SIZE, b"").unwrap();
    assert_eq!(entry, 0x100200);
}

#[test]
fn rejects_bad_magic() {
    let mut mem = GuestMemory::new(MEM_SIZE);
    let mut image = fake_kernel(1, 0x020F, 0, b"X");
    image[0x202..0x206].copy_from_slice(&0x12345678u32.to_le_bytes());
    let r = load_linux(&mut mem, &image, MEM_SIZE, b"");
    assert_eq!(r, Err(LoaderError::BootImageInvalid));
}

#[test]
fn rejects_truncated_image() {
    let mut mem = GuestMemory::new(MEM_SIZE);
    let image = vec![0u8; 0x200];
    let r = load_linux(&mut mem, &image, MEM_SIZE, b"");
    assert_eq!(r, Err(LoaderError::BootImageTruncated));
}

#[test]
fn rejects_body_that_does_not_fit() {
    let mut mem = GuestMemory::new(MEM_SIZE);
    let body = vec![0xAAu8; MEM_SIZE - KERNEL_START + 1];
    let image = fake_kernel(1, 0x020F, 0, &body);
    let r = load_linux(&mut mem, &image, MEM_SIZE, b"");
    assert_eq!(r, Err(LoaderError::MemoryBounds));
}

#[test]
fn emits_two_e820_entries() {
    let mut mem = GuestMemory::new(MEM_SIZE);
    let image = fake_kernel(1, 0x020F, 0, b"X");
    load_linux(&mut mem, &image, MEM_SIZE, b"").unwrap();
    // Entry count.
    assert_eq!(mem.read_u8(ZERO_PAGE_START + 0x1E8).unwrap(), 2);
    // First entry: [0, 0x9FC00), type RAM.
    let table = ZERO_PAGE_START + 0x2D0;
    assert_eq!(mem.read_u64(table).unwrap(), 0);
    assert_eq!(mem.read_u64(table + 8).unwrap(), 0x9FC00);
    assert_eq!(mem.read_u32(table + 16).unwrap(), 1);
    // Second entry: [0x100000, mem_size), type RAM.
    assert_eq!(mem.read_u64(table + 20).unwrap(), 0x100000);
    assert_eq!(mem.read_u64(table + 28).unwrap(), (MEM_SIZE - 0x100000) as u64);
    assert_eq!(mem.read_u32(table + 36).unwrap(), 1);
}

#[test]
fn places_command_line() {
    let mut mem = GuestMemory::new(MEM_SIZE);
    let image = fake_kernel(1, 0x020F, 0, b"X");
    let cmdline = b"console=ttyS0 root=/dev/vda";
    load_linux(&mut mem, &image, MEM_SIZE, cmdline).unwrap();
    let placed = mem.read_slice(CMDLINE_START, cmdline.len()).unwrap();
    assert_eq!(placed, cmdline.to_vec());
    assert_eq!(mem.read_u8(CMDLINE_START + cmdline.len()).unwrap(), 0);
    // Header fields inside the zero page.
    assert_eq!(mem.read_u32(ZERO_PAGE_START + 0x228).unwrap(), CMDLINE_START as u32);
    assert_eq!(mem.read_u32(ZERO_PAGE_START + 0x238).unwrap(), (cmdline.len() + 1) as u32);
}

#[test]
fn copies_kernel_body_and_sets_loader_fields() {
    let mut mem = GuestMemory::new(MEM_SIZE);
    let body = b"KERNELBODYBYTES";
    let image = fake_kernel(2, 0x020F, 0, body);
    load_linux(&mut mem, &image, MEM_SIZE, b"x").unwrap();
    let loaded = mem.read_slice(KERNEL_START, body.len()).unwrap();
    assert_eq!(loaded, body.to_vec());
    // type_of_loader and the CAN_USE_HEAP loadflag.
    assert_eq!(mem.read_u8(ZERO_PAGE_START + 0x210).unwrap(), 0xFF);
    assert_eq!(mem.read_u8(ZERO_PAGE_START + 0x211).unwrap(), 0x01 | 0x80);
    // The header magic is echoed into the zero page.
    assert_eq!(mem.read_u32(ZERO_PAGE_START + 0x202).unwrap(), HDRS_MAGIC);
}

#[test]
fn setup_sects_zero_defaults_to_four() {
    let mut mem = GuestMemory::new(MEM_SIZE);
    // With setup_sects = 0 the body starts at (4 + 1) * 512.
    let body = b"BODY";
    let image = fake_kernel(0, 0x0100, 0, body);
    assert_eq!(image.len(), 5 * 512 + body.len());
    load_linux(&mut mem, &image, MEM_SIZE, b"").unwrap();
    let loaded = mem.read_slice(KERNEL_START, body.len()).unwrap();
    assert_eq!(loaded, body.to_vec());
    // Old protocol (< 0x200): loadflags untouched.
    assert_eq!(mem.read_u8(ZERO_PAGE_START + 0x211).unwrap(), 0x01);
}

#[test]
fn long_command_line_is_truncated() {
    let mut mem = GuestMemory::new(MEM_SIZE);
    let image = fake_kernel(1, 0x020F, 0, b"X");
    let cmdline = vec![b'a'; 0x10000 + 5];
    load_linux(&mut mem, &image, MEM_SIZE, &cmdline).unwrap();
    let placed = mem.read_slice(CMDLINE_START, 0xFFFF).unwrap();
    assert!(placed.iter().all(|&b| b == b'a'));
    assert_eq!(mem.read_u8(CMDLINE_START + 0xFFFF).unwrap(), 0);
    assert_eq!(mem.read_u32(ZERO_PAGE_START + 0x238).unwrap(), 0x10000);
}
