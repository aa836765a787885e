use axvm_core::memory::GuestMemory;
use axvm_core::vcpu::{
    long_mode_regs, long_mode_sregs, protected_mode_regs, protected_mode_sregs, setup_gdt,
    setup_gdt_32bit, setup_page_tables_extended, CpuRegisters, CpuSpecialRegisters,
    SegmentDescriptor, CR0_PE, CR0_PG, CR4_PAE, EFER_LMA, EFER_LME, GDT_CODE32, GDT_CODE64,
    GDT_DATA32, GDT_DATA64,
};

fn zero_regs() -> CpuRegisters {
    CpuRegisters {
        rax: 0,
        rbx: 0,
        rcx: 0,
        rdx: 0,
        rsi: 0,
        rdi: 0,
        rsp: 0,
        rbp: 0,
        r8: 0,
        r9: 0,
        r10: 0,
        r11: 0,
        r12: 0,
        r13: 0,
        r14: 0,
        r15: 0,
        rip: 0,
        rflags: 0,
    }
}

#[test]
fn gdt_32bit_layout() {
    let mut mem = GuestMemory::new(0x8000);
    setup_gdt_32bit(&mut mem).unwrap();
    assert_eq!(mem.read_u64(0x4000).unwrap(), 0);
    assert_eq!(mem.read_u64(0x4008).unwrap(), GDT_CODE32);
    assert_eq!(mem.read_u64(0x4010).unwrap(), GDT_DATA32);
    assert_eq!(GDT_CODE32, 0x00CF9A000000FFFF);
    assert_eq!(GDT_DATA32, 0x00CF92000000FFFF);
}

#[test]
fn gdt_64bit_layout() {
    let mut mem = GuestMemory::new(0x8000);
    setup_gdt(&mut mem).unwrap();
    assert_eq!(mem.read_u64(0x4008).unwrap(), GDT_CODE64);
    assert_eq!(mem.read_u64(0x4010).unwrap(), GDT_DATA64);
}

#[test]
fn gdt_fails_in_tiny_memory() {
    let mut mem = GuestMemory::new(0x4000);
    assert!(setup_gdt_32bit(&mut mem).is_err());
}

#[test]
fn page_tables_identity_map_first_gigabyte() {
    let mut mem = GuestMemory::new(0x8000);
    setup_page_tables_extended(&mut mem).unwrap();
    // PML4[0] -> PDPT, PDPT[0] -> PD, both present + writable.
    assert_eq!(mem.read_u64(0x1000).unwrap(), 0x2003);
    assert_eq!(mem.read_u64(0x2000).unwrap(), 0x3003);
    // 512 huge entries: present + write + huge over 2 MiB frames.
    assert_eq!(mem.read_u64(0x3000).unwrap(), 0x83);
    assert_eq!(mem.read_u64(0x3008).unwrap(), 0x200000 | 0x83);
    assert_eq!(mem.read_u64(0x3000 + 511 * 8).unwrap(), 511 * 0x200000 | 0x83);
}

#[test]
fn protected_mode_state_matches_boot_protocol() {
    let sregs = protected_mode_sregs();
    assert_eq!(sregs.cr0, CR0_PE);
    assert_eq!(sregs.cr3, 0);
    assert_eq!(sregs.cr4, 0);
    assert_eq!(sregs.efer, 0);
    assert_eq!(sregs.cs.selector, 0x08);
    assert_eq!(sregs.cs.db, 1);
    assert_eq!(sregs.cs.l, 0);
    assert_eq!(sregs.ds.selector, 0x10);
    assert_eq!(sregs.gdt_base, 0x4000);
    assert_eq!(sregs.gdt_limit, 23);
    assert_eq!(sregs.idt_base, 0);
    assert_eq!(sregs.idt_limit, 0);
    assert_eq!(sregs.ldt.unusable, 1);
    assert_eq!(sregs.tr.present, 1);

    let regs = protected_mode_regs(&zero_regs(), 0x100000, 0x7000);
    assert_eq!(regs.rflags, 2);
    assert_eq!(regs.rip, 0x100000);
    assert_eq!(regs.rsi, 0x7000);
    assert_eq!(regs.rsp, 0x90000);
    assert_eq!(regs.rax, 0);
}

#[test]
fn long_mode_state_enables_paging() {
    let base = protected_mode_sregs();
    let sregs: CpuSpecialRegisters = long_mode_sregs(&base);
    assert_eq!(sregs.cr3, 0x1000);
    assert_eq!(sregs.cr4 & CR4_PAE, CR4_PAE);
    assert_eq!(sregs.efer & (EFER_LME | EFER_LMA), EFER_LME | EFER_LMA);
    assert_eq!(sregs.cr0 & (CR0_PE | CR0_PG), CR0_PE | CR0_PG);
    assert_eq!(sregs.cs.l, 1);
    assert_eq!(sregs.cs.db, 0);

    let mut current = zero_regs();
    current.r8 = 99;
    let regs = long_mode_regs(&current, 0x200000);
    assert_eq!(regs.rip, 0x200000);
    assert_eq!(regs.rsi, 0x7000);
    assert_eq!(regs.rflags, 2);
    // Registers the long-mode path does not set are preserved.
    assert_eq!(regs.r8, 99);
}

#[test]
fn segment_descriptor_fields_carry_over() {
    let seg = SegmentDescriptor {
        base: 0,
        limit: 0xFFFFFFFF,
        selector: 0x08,
        type_: 0x0B,
        present: 1,
        dpl: 0,
        db: 1,
        s: 1,
        l: 0,
        g: 1,
        avl: 0,
        unusable: 0,
    };
    let sregs = protected_mode_sregs();
    assert_eq!(sregs.cs, seg);
}
