use axvm_core::memory::{GuestMemory, MemError};

#[test]
fn new_region_is_zeroed() {
    let mem = GuestMemory::new(64);
    assert_eq!(mem.len(), 64);
    let all = mem.read_slice(0, 64).unwrap();
    assert!(all.iter().all(|&b| b == 0));
}

#[test]
fn out_of_bounds_accesses_fail() {
    let mut mem = GuestMemory::new(16);
    assert_eq!(mem.write_u8(16, 1), Err(MemError::OutOfBounds));
    assert_eq!(mem.write_u16(15, 1), Err(MemError::OutOfBounds));
    assert_eq!(mem.write_u32(13, 1), Err(MemError::OutOfBounds));
    assert_eq!(mem.write_u64(9, 1), Err(MemError::OutOfBounds));
    assert!(mem.read_u8(16).is_err());
    assert!(mem.read_u16(15).is_err());
    assert!(mem.read_u32(13).is_err());
    assert!(mem.read_u64(9).is_err());
    assert!(mem.write_slice(12, &[0; 5]).is_err());
    assert!(mem.read_slice(12, 5).is_err());
    // An offset so large that offset + len wraps must still fail.
    assert!(mem.read_slice(usize::MAX, 2).is_err());
    assert!(mem.write_slice(usize::MAX, &[1, 2]).is_err());
}

#[test]
fn round_trip_aligned() {
    let mut mem = GuestMemory::new(64);
    mem.write_u8(0, 0xAB).unwrap();
    assert_eq!(mem.read_u8(0).unwrap(), 0xAB);
    mem.write_u16(2, 0xBEEF).unwrap();
    assert_eq!(mem.read_u16(2).unwrap(), 0xBEEF);
    mem.write_u32(4, 0xDEADBEEF).unwrap();
    assert_eq!(mem.read_u32(4).unwrap(), 0xDEADBEEF);
    mem.write_u64(8, 0xCAFEBABE_DEADBEEF).unwrap();
    assert_eq!(mem.read_u64(8).unwrap(), 0xCAFEBABE_DEADBEEF);
}

#[test]
fn round_trip_unaligned() {
    let mut mem = GuestMemory::new(64);
    mem.write_u16(1, 0x1234).unwrap();
    assert_eq!(mem.read_u16(1).unwrap(), 0x1234);
    mem.write_u32(5, 0x89ABCDEF).unwrap();
    assert_eq!(mem.read_u32(5).unwrap(), 0x89ABCDEF);
    mem.write_u64(11, 0x0123_4567_89AB_CDEF).unwrap();
    assert_eq!(mem.read_u64(11).unwrap(), 0x0123_4567_89AB_CDEF);
}

#[test]
fn little_endian_layout() {
    let mut mem = GuestMemory::new(16);
    mem.write_u32(0, 0x11223344).unwrap();
    let b = mem.read_slice(0, 4).unwrap();
    assert_eq!(b, vec![0x44, 0x33, 0x22, 0x11]);
}

#[test]
fn slice_round_trip_and_frame() {
    let mut mem = GuestMemory::new(32);
    mem.write_u8(0, 7).unwrap();
    mem.write_slice(8, &[1, 2, 3, 4]).unwrap();
    assert_eq!(mem.read_slice(8, 4).unwrap(), vec![1, 2, 3, 4]);
    // Bytes outside the written range are untouched.
    assert_eq!(mem.read_u8(0).unwrap(), 7);
    assert_eq!(mem.read_u8(7).unwrap(), 0);
    assert_eq!(mem.read_u8(12).unwrap(), 0);
}

#[test]
fn fill_and_copy_within() {
    let mut mem = GuestMemory::new(32);
    mem.fill(4, 8, 0x5A).unwrap();
    assert_eq!(mem.read_slice(4, 8).unwrap(), vec![0x5A; 8]);
    assert_eq!(mem.read_u8(3).unwrap(), 0);
    assert_eq!(mem.read_u8(12).unwrap(), 0);
    mem.copy_within(4, 20, 8).unwrap();
    assert_eq!(mem.read_slice(20, 8).unwrap(), vec![0x5A; 8]);
    assert!(mem.fill(30, 4, 1).is_err());
    assert!(mem.copy_within(0, 30, 4).is_err());
}
