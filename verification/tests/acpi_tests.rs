use axvm_core::acpi::{
    calculate_checksum, setup_acpi, MADT_START, RSDP_SIZE, RSDP_START, RSDT_SIZE, RSDT_START,
};
use axvm_core::memory::GuestMemory;

#[test]
fn checksum_balances_byte_sum() {
    let data = [1u8, 2, 3, 250];
    let cs = calculate_checksum(&data);
    let total: u8 = data.iter().fold(cs, |acc, &b| acc.wrapping_add(b));
    assert_eq!(total, 0);
    assert_eq!(calculate_checksum(&[]), 0);
}

#[test]
fn tables_carry_signatures_and_checksums() {
    let mut mem = GuestMemory::new(0x100000);
    setup_acpi(&mut mem, 2).unwrap();

    let rsdp = mem.read_slice(RSDP_START, RSDP_SIZE).unwrap();
    assert_eq!(&rsdp[..8], b"RSD PTR ");
    // ACPI 1.0 checksum covers the first 20 bytes.
    let sum: u8 = rsdp[..20].iter().fold(0u8, |a, &b| a.wrapping_add(b));
    assert_eq!(sum, 0);
    // The RSDP points at the RSDT.
    let rsdt_ptr = u32::from_le_bytes(rsdp[16..20].try_into().unwrap());
    assert_eq!(rsdt_ptr as usize, RSDT_START);

    let rsdt = mem.read_slice(RSDT_START, RSDT_SIZE).unwrap();
    assert_eq!(&rsdt[..4], b"RSDT");
    let sum: u8 = rsdt.iter().fold(0u8, |a, &b| a.wrapping_add(b));
    assert_eq!(sum, 0);
    // The RSDT's single pointer names the MADT.
    let madt_ptr = u32::from_le_bytes(rsdt[36..40].try_into().unwrap());
    assert_eq!(madt_ptr as usize, MADT_START);
}

#[test]
fn madt_lists_one_apic_per_cpu() {
    let mut mem = GuestMemory::new(0x100000);
    setup_acpi(&mut mem, 3).unwrap();
    let len = 44 + 8 * 3;
    let madt = mem.read_slice(MADT_START, len).unwrap();
    assert_eq!(&madt[..4], b"APIC");
    assert_eq!(u32::from_le_bytes(madt[4..8].try_into().unwrap()), len as u32);
    let sum: u8 = madt.iter().fold(0u8, |a, &b| a.wrapping_add(b));
    assert_eq!(sum, 0);
    // Local APIC address and the PCAT flag.
    assert_eq!(u32::from_le_bytes(madt[36..40].try_into().unwrap()), 0xFEE00000);
    assert_eq!(u32::from_le_bytes(madt[40..44].try_into().unwrap()), 1);
    // One enabled entry per CPU, ids in order.
    for i in 0..3usize {
        let e = &madt[44 + 8 * i..44 + 8 * (i + 1)];
        assert_eq!(e[0], 0); // local APIC entry
        assert_eq!(e[1], 8); // entry length
        assert_eq!(e[2], i as u8);
        assert_eq!(e[3], i as u8);
        assert_eq!(u32::from_le_bytes(e[4..8].try_into().unwrap()), 1);
    }
}

#[test]
fn acpi_fails_in_tiny_memory() {
    let mut mem = GuestMemory::new(0x1000);
    assert!(setup_acpi(&mut mem, 1).is_err());
}
