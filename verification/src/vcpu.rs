//! vCPU bootstrap state: the GDT and identity-mapped page tables
//! written into guest memory, and the exact register state a kernel
//! needs at entry, for 32-bit protected mode (the bzImage path) and
//! for 64-bit long mode (a flat payload).

use vstd::prelude::*;

verus! {

use crate::memory::{GuestMemory, MemError};
use vstd::bytes::{spec_u64_to_le_bytes, u64_to_le_bytes};

/// CR0 protected-mode-enable bit.
pub const CR0_PE: u64 = 0x1;

/// CR0 paging-enable bit.
pub const CR0_PG: u64 = 0x80000000;

/// CR4 physical-address-extension bit.
pub const CR4_PAE: u64 = 0x20;

/// EFER long-mode-enable bit.
pub const EFER_LME: u64 = 0x100;

/// EFER long-mode-active bit.
pub const EFER_LMA: u64 = 0x400;

/// Guest address of the PML4 (64-bit path only).
pub const PML4_START: usize = 0x1000;

/// Guest address of the PDPT.
pub const PDPT_START: usize = 0x2000;

/// Guest address of the page directory of 2 MiB entries.
pub const PD_START: usize = 0x3000;

/// Guest address of the GDT.
pub const GDT_START: usize = 0x4000;

/// 32-bit flat code descriptor: execute/read, G=1, D=1.
pub const GDT_CODE32: u64 = 0x00CF9A000000FFFF;

/// 32-bit flat data descriptor: read/write, G=1, D=1.
pub const GDT_DATA32: u64 = 0x00CF92000000FFFF;

/// 64-bit code descriptor: L=1, D=0.
pub const GDT_CODE64: u64 = 0x00209A0000000000;

/// Data descriptor for the 64-bit path.
pub const GDT_DATA64: u64 = 0x0000920000000000;

/// The page-directory entry for slot `i`: the 2 MiB frame at
/// `i * 0x200000`, present, writable, huge.
pub open spec fn spec_pd_entry(i: int) -> u64 {
    ((i * 0x200000) as u64) | 0x83u64
}

/// The packed page directory for slots `0 .. n`, in order.
pub open spec fn spec_pd_entries(n: int) -> Seq<u8>
    decreases n,
{
    if n <= 0 {
        Seq::<u8>::empty()
    } else {
        spec_pd_entries(n - 1) + spec_u64_to_le_bytes(spec_pd_entry(n - 1))
    }
}

/// The packed 3-entry GDT image: a null descriptor and the two
/// given descriptors.
pub open spec fn spec_gdt_bytes(code: u64, data: u64) -> Seq<u8> {
    spec_u64_to_le_bytes(0) + spec_u64_to_le_bytes(code) + spec_u64_to_le_bytes(data)
}

/// The page directory holds eight bytes per slot.
pub proof fn lemma_pd_entries_len(n: int)
    requires
        n >= 0,
    ensures
        spec_pd_entries(n).len() == 8 * n,
    decreases n,
{
    vstd::bytes::lemma_auto_spec_u64_to_from_le_bytes();
    if n > 0 {
        lemma_pd_entries_len(n - 1);
    }
}

/// Slot `j` of the packed page directory is the little-endian image
/// of its 2 MiB entry.
pub proof fn lemma_pd_entry_bytes(n: int, j: int)
    requires
        0 <= j < n,
    ensures
        spec_pd_entries(n).subrange(8 * j, 8 * j + 8) == spec_u64_to_le_bytes(spec_pd_entry(j)),
    decreases n,
{
    vstd::bytes::lemma_auto_spec_u64_to_from_le_bytes();
    lemma_pd_entries_len(n);
    if j == n - 1 {
        lemma_pd_entries_len(n - 1);
        assert(spec_pd_entries(n).subrange(8 * j, 8 * j + 8) =~= spec_u64_to_le_bytes(
            spec_pd_entry(j),
        ));
    } else {
        lemma_pd_entry_bytes(n - 1, j);
        lemma_pd_entries_len(n - 1);
        assert(spec_pd_entries(n).subrange(8 * j, 8 * j + 8) =~= spec_pd_entries(n - 1).subrange(
            8 * j,
            8 * j + 8,
        ));
    }
}

/// Builds the packed GDT image for the two given descriptors.
fn build_gdt(code: u64, data: u64) -> (r: Vec<u8>)
    ensures
        r@ == spec_gdt_bytes(code, data),
        r@.len() == 24,
{
    proof {
        vstd::bytes::lemma_auto_spec_u64_to_from_le_bytes();
    }
    let mut v = u64_to_le_bytes(0);
    let mut c = u64_to_le_bytes(code);
    let mut d = u64_to_le_bytes(data);
    v.append(&mut c);
    v.append(&mut d);
    v
}

/// Writes the 32-bit protected-mode GDT (null, flat code, flat
/// data) at its fixed guest address.
pub fn setup_gdt_32bit(mem: &mut GuestMemory) -> (r: Result<(), MemError>)
    ensures
        final(mem)@.len() == old(mem)@.len(),
        r is Err ==> final(mem)@ == old(mem)@,
        r is Ok <==> GDT_START + 24 <= old(mem)@.len(),
        r is Ok ==> {
            &&& final(mem)@.subrange(GDT_START as int, GDT_START + 24) == spec_gdt_bytes(
                GDT_CODE32,
                GDT_DATA32,
            )
            &&& forall|i: int|
                0 <= i < final(mem)@.len() && !(GDT_START <= i < GDT_START + 24) ==> final(mem)@[i] == old(mem)@[i]
        },
{
    let gdt = build_gdt(GDT_CODE32, GDT_DATA32);
    match mem.write_slice(GDT_START, gdt.as_slice()) {
        Ok(()) => {
            proof {
                assert(mem@.subrange(GDT_START as int, GDT_START + 24) =~= spec_gdt_bytes(
                    GDT_CODE32,
                    GDT_DATA32,
                ));
            }
            Ok(())
        },
        Err(e) => Err(e),
    }
}

/// Writes the 64-bit GDT (null, 64-bit code, data) at its fixed
/// guest address.
pub fn setup_gdt(mem: &mut GuestMemory) -> (r: Result<(), MemError>)
    ensures
        final(mem)@.len() == old(mem)@.len(),
        r is Err ==> final(mem)@ == old(mem)@,
        r is Ok <==> GDT_START + 24 <= old(mem)@.len(),
        r is Ok ==> {
            &&& final(mem)@.subrange(GDT_START as int, GDT_START + 24) == spec_gdt_bytes(
                GDT_CODE64,
                GDT_DATA64,
            )
            &&& forall|i: int|
                0 <= i < final(mem)@.len() && !(GDT_START <= i < GDT_START + 24) ==> final(mem)@[i] == old(mem)@[i]
        },
{
    let gdt = build_gdt(GDT_CODE64, GDT_DATA64);
    match mem.write_slice(GDT_START, gdt.as_slice()) {
        Ok(()) => {
            proof {
                assert(mem@.subrange(GDT_START as int, GDT_START + 24) =~= spec_gdt_bytes(
                    GDT_CODE64,
                    GDT_DATA64,
                ));
            }
            Ok(())
        },
        Err(e) => Err(e),
    }
}

/// Builds the four-level identity map covering the first 1 GiB with
/// 2 MiB pages: PML4 and PDPT each hold one pointer entry, and the
/// page directory holds 512 huge-page entries.
pub fn setup_page_tables_extended(mem: &mut GuestMemory) -> (r: Result<(), MemError>)
    ensures
        final(mem)@.len() == old(mem)@.len(),
        r is Err ==> final(mem)@ == old(mem)@,
        r is Ok <==> PD_START + 4096 <= old(mem)@.len(),
        r is Ok ==> {
            let m = final(mem)@;
            &&& m.subrange(PML4_START as int, PML4_START + 8) == spec_u64_to_le_bytes(0x2003u64)
            &&& m.subrange(PDPT_START as int, PDPT_START + 8) == spec_u64_to_le_bytes(0x3003u64)
            &&& m.subrange(PD_START as int, PD_START + 4096) == spec_pd_entries(512)
            &&& forall|i: int|
                0 <= i < m.len() && !(PML4_START <= i < PML4_START + 8) && !(PDPT_START <= i
                    < PDPT_START + 8) && !(PD_START <= i < PD_START + 4096) ==> m[i] == old(mem)@[i]
        },
{
    let n = mem.len();
    if n < PD_START + 4096 {
        return Err(MemError::OutOfBounds);
    }
    match mem.write_u64(PML4_START, 0x2003) {
        Ok(()) => (),
        Err(e) => {
            return Err(e);
        },
    }
    match mem.write_u64(PDPT_START, 0x3003) {
        Ok(()) => (),
        Err(e) => {
            return Err(e);
        },
    }

    // Build the 512-entry page directory host-side, then write it.
    let mut table: Vec<u8> = Vec::new();
    let mut i: u64 = 0;
    while i < 512
        invariant
            i <= 512,
            table@ == spec_pd_entries(i as int),
            table@.len() == 8 * i,
        decreases 512 - i,
    {
        let entry: u64 = (i * 0x200000) | 0x83;
        let mut b = u64_to_le_bytes(entry);
        table.append(&mut b);
        proof {
            vstd::bytes::lemma_auto_spec_u64_to_from_le_bytes();
            assert(entry == spec_pd_entry(i as int));
            assert(table@ =~= spec_pd_entries(i + 1));
        }
        i = i + 1;
    }
    match mem.write_slice(PD_START, table.as_slice()) {
        Ok(()) => (),
        Err(e) => {
            return Err(e);
        },
    }
    proof {
        vstd::bytes::lemma_auto_spec_u64_to_from_le_bytes();
        assert(mem@.subrange(PML4_START as int, PML4_START + 8) =~= spec_u64_to_le_bytes(
            0x2003u64,
        ));
        assert(mem@.subrange(PDPT_START as int, PDPT_START + 8) =~= spec_u64_to_le_bytes(
            0x3003u64,
        ));
        assert(mem@.subrange(PD_START as int, PD_START + 4096) =~= spec_pd_entries(512));
    }
    Ok(())
}

/// One segment register's state, as the host virtualization
/// facility consumes it.
#[derive(Clone, Copy, Debug, PartialEq, Eq, Structural)]
pub struct SegmentDescriptor {
    pub base: u64,
    pub limit: u32,
    pub selector: u16,
    pub type_: u8,
    pub present: u8,
    pub dpl: u8,
    pub db: u8,
    pub s: u8,
    pub l: u8,
    pub g: u8,
    pub avl: u8,
    pub unusable: u8,
}

/// The special registers a vCPU needs before its first entry.
#[derive(Clone, Copy, Debug, PartialEq, Eq, Structural)]
pub struct CpuSpecialRegisters {
    pub cr0: u64,
    pub cr3: u64,
    pub cr4: u64,
    pub efer: u64,
    pub cs: SegmentDescriptor,
    pub ds: SegmentDescriptor,
    pub es: SegmentDescriptor,
    pub fs: SegmentDescriptor,
    pub gs: SegmentDescriptor,
    pub ss: SegmentDescriptor,
    pub tr: SegmentDescriptor,
    pub ldt: SegmentDescriptor,
    pub gdt_base: u64,
    pub gdt_limit: u16,
    pub idt_base: u64,
    pub idt_limit: u16,
}

/// The general-purpose registers a vCPU needs before its first
/// entry.
#[derive(Clone, Copy, Debug, PartialEq, Eq, Structural)]
pub struct CpuRegisters {
    pub rax: u64,
    pub rbx: u64,
    pub rcx: u64,
    pub rdx: u64,
    pub rsi: u64,
    pub rdi: u64,
    pub rsp: u64,
    pub rbp: u64,
    pub r8: u64,
    pub r9: u64,
    pub r10: u64,
    pub r11: u64,
    pub r12: u64,
    pub r13: u64,
    pub r14: u64,
    pub r15: u64,
    pub rip: u64,
    pub rflags: u64,
}

/// The 32-bit flat code segment: selector 0x08, execute/read, G=1,
/// D=1.
pub open spec fn spec_code_seg_32() -> SegmentDescriptor {
    SegmentDescriptor {
        base: 0,
        limit: 0xFFFFFFFF,
        selector: 0x08,
        type_: 0x0B,
        present: 1,
        dpl: 0,
        db: 1,
        s: 1,
        l: 0,
        g: 1,
        avl: 0,
        unusable: 0,
    }
}

/// The 32-bit flat data segment: selector 0x10, read/write, G=1,
/// D=1.
pub open spec fn spec_data_seg_32() -> SegmentDescriptor {
    SegmentDescriptor {
        base: 0,
        limit: 0xFFFFFFFF,
        selector: 0x10,
        type_: 0x03,
        present: 1,
        dpl: 0,
        db: 1,
        s: 1,
        l: 0,
        g: 1,
        avl: 0,
        unusable: 0,
    }
}

/// The 64-bit code segment: selector 0x08, L=1, D=0.
pub open spec fn spec_code_seg_64() -> SegmentDescriptor {
    SegmentDescriptor {
        base: 0,
        limit: 0xFFFFFFFF,
        selector: 0x08,
        type_: 0x0B,
        present: 1,
        dpl: 0,
        db: 0,
        s: 1,
        l: 1,
        g: 1,
        avl: 0,
        unusable: 0,
    }
}

/// The flat data segment used alongside the 64-bit code segment.
pub open spec fn spec_data_seg_64() -> SegmentDescriptor {
    SegmentDescriptor {
        base: 0,
        limit: 0xFFFFFFFF,
        selector: 0x10,
        type_: 0x03,
        present: 1,
        dpl: 0,
        db: 1,
        s: 1,
        l: 0,
        g: 1,
        avl: 0,
        unusable: 0,
    }
}

/// The minimal valid busy task register.
pub open spec fn spec_tr_seg() -> SegmentDescriptor {
    SegmentDescriptor {
        base: 0,
        limit: 0,
        selector: 0,
        type_: 0x0B,
        present: 1,
        dpl: 0,
        db: 0,
        s: 0,
        l: 0,
        g: 0,
        avl: 0,
        unusable: 0,
    }
}

/// The explicitly unusable LDT.
pub open spec fn spec_ldt_seg() -> SegmentDescriptor {
    SegmentDescriptor {
        base: 0,
        limit: 0,
        selector: 0,
        type_: 0x02,
        present: 0,
        dpl: 0,
        db: 0,
        s: 0,
        l: 0,
        g: 0,
        avl: 0,
        unusable: 1,
    }
}

/// The complete special-register state for 32-bit protected-mode
/// entry: protected mode on, paging off, flat segments from the GDT
/// at its fixed address, a minimal TR, an unusable LDT, and an
/// empty IDT.
pub open spec fn spec_protected_mode_sregs() -> CpuSpecialRegisters {
    CpuSpecialRegisters {
        cr0: CR0_PE,
        cr3: 0,
        cr4: 0,
        efer: 0,
        cs: spec_code_seg_32(),
        ds: spec_data_seg_32(),
        es: spec_data_seg_32(),
        fs: spec_data_seg_32(),
        gs: spec_data_seg_32(),
        ss: spec_data_seg_32(),
        tr: spec_tr_seg(),
        ldt: spec_ldt_seg(),
        gdt_base: GDT_START as u64,
        gdt_limit: 23,
        idt_base: 0,
        idt_limit: 0,
    }
}

/// Computes the special registers for 32-bit protected-mode entry.
pub fn protected_mode_sregs() -> (r: CpuSpecialRegisters)
    ensures
        r == spec_protected_mode_sregs(),
{
    let code_seg = SegmentDescriptor {
        base: 0,
        limit: 0xFFFFFFFF,
        selector: 0x08,
        type_: 0x0B,
        present: 1,
        dpl: 0,
        db: 1,
        s: 1,
        l: 0,
        g: 1,
        avl: 0,
        unusable: 0,
    };
    let data_seg = SegmentDescriptor {
        base: 0,
        limit: 0xFFFFFFFF,
        selector: 0x10,
        type_: 0x03,
        present: 1,
        dpl: 0,
        db: 1,
        s: 1,
        l: 0,
        g: 1,
        avl: 0,
        unusable: 0,
    };
    let tr_seg = SegmentDescriptor {
        base: 0,
        limit: 0,
        selector: 0,
        type_: 0x0B,
        present: 1,
        dpl: 0,
        db: 0,
        s: 0,
        l: 0,
        g: 0,
        avl: 0,
        unusable: 0,
    };
    let ldt_seg = SegmentDescriptor {
        base: 0,
        limit: 0,
        selector: 0,
        type_: 0x02,
        present: 0,
        dpl: 0,
        db: 0,
        s: 0,
        l: 0,
        g: 0,
        avl: 0,
        unusable: 1,
    };
    CpuSpecialRegisters {
        cr0: CR0_PE,
        cr3: 0,
        cr4: 0,
        efer: 0,
        cs: code_seg,
        ds: data_seg,
        es: data_seg,
        fs: data_seg,
        gs: data_seg,
        ss: data_seg,
        tr: tr_seg,
        ldt: ldt_seg,
        gdt_base: 0x4000,
        gdt_limit: 23,
        idt_base: 0,
        idt_limit: 0,
    }
}

/// Computes the general-purpose registers for 32-bit protected-mode
/// entry: reserved flag bit set and interrupts off, RIP at the
/// entry point, RSI pointing at the zero page, the stack just below
/// 640 KiB, and every other legacy register zero.
pub fn protected_mode_regs(
    current: &CpuRegisters,
    entry_point: u64,
    boot_params_addr: u64,
) -> (r: CpuRegisters)
    ensures
        r == (CpuRegisters {
            rflags: 2u64,
            rip: entry_point,
            rsi: boot_params_addr,
            rax: 0u64,
            rbx: 0u64,
            rcx: 0u64,
            rdx: 0u64,
            rdi: 0u64,
            rbp: 0u64,
            rsp: 0x90000u64,
            ..*current
        }),
{
    let mut r = *current;
    r.rflags = 2;
    r.rip = entry_point;
    r.rsi = boot_params_addr;
    r.rax = 0;
    r.rbx = 0;
    r.rcx = 0;
    r.rdx = 0;
    r.rdi = 0;
    r.rbp = 0;
    r.rsp = 0x90000;
    r
}

/// Computes the special registers for 64-bit long-mode entry from
/// the vCPU's current state: CR3 at the PML4, PAE on, long mode
/// enabled and active, protected mode and paging on, and 64-bit
/// segments.
pub fn long_mode_sregs(current: &CpuSpecialRegisters) -> (r: CpuSpecialRegisters)
    ensures
        r == (CpuSpecialRegisters {
            cr3: PML4_START as u64,
            cr4: current.cr4 | CR4_PAE,
            efer: current.efer | EFER_LME | EFER_LMA,
            cr0: current.cr0 | CR0_PE | CR0_PG,
            cs: spec_code_seg_64(),
            ds: spec_data_seg_64(),
            es: spec_data_seg_64(),
            fs: spec_data_seg_64(),
            gs: spec_data_seg_64(),
            ss: spec_data_seg_64(),
            tr: spec_tr_seg(),
            ldt: spec_ldt_seg(),
            gdt_base: GDT_START as u64,
            gdt_limit: 23u16,
            idt_base: 0u64,
            idt_limit: 0u16,
        }),
{
    let code_seg = SegmentDescriptor {
        base: 0,
        limit: 0xFFFFFFFF,
        selector: 0x08,
        type_: 0x0B,
        present: 1,
        dpl: 0,
        db: 0,
        s: 1,
        l: 1,
        g: 1,
        avl: 0,
        unusable: 0,
    };
    let data_seg = SegmentDescriptor {
        base: 0,
        limit: 0xFFFFFFFF,
        selector: 0x10,
        type_: 0x03,
        present: 1,
        dpl: 0,
        db: 1,
        s: 1,
        l: 0,
        g: 1,
        avl: 0,
        unusable: 0,
    };
    let tr_seg = SegmentDescriptor {
        base: 0,
        limit: 0,
        selector: 0,
        type_: 0x0B,
        present: 1,
        dpl: 0,
        db: 0,
        s: 0,
        l: 0,
        g: 0,
        avl: 0,
        unusable: 0,
    };
    let ldt_seg = SegmentDescriptor {
        base: 0,
        limit: 0,
        selector: 0,
        type_: 0x02,
        present: 0,
        dpl: 0,
        db: 0,
        s: 0,
        l: 0,
        g: 0,
        avl: 0,
        unusable: 1,
    };
    CpuSpecialRegisters {
        cr0: current.cr0 | CR0_PE | CR0_PG,
        cr3: 0x1000,
        cr4: current.cr4 | CR4_PAE,
        efer: current.efer | EFER_LME | EFER_LMA,
        cs: code_seg,
        ds: data_seg,
        es: data_seg,
        fs: data_seg,
        gs: data_seg,
        ss: data_seg,
        tr: tr_seg,
        ldt: ldt_seg,
        gdt_base: 0x4000,
        gdt_limit: 23,
        idt_base: 0,
        idt_limit: 0,
    }
}

/// Computes the general-purpose registers for 64-bit long-mode
/// entry: reserved flag bit set, RIP at the entry point, RSI
/// pointing at the zero page, and RAX/RBX cleared.
pub fn long_mode_regs(current: &CpuRegisters, entry_point: u64) -> (r: CpuRegisters)
    ensures
        r == (CpuRegisters {
            rflags: 2u64,
            rip: entry_point,
            rax: 0u64,
            rbx: 0u64,
            rsi: crate::linux::ZERO_PAGE_START as u64,
            ..*current
        }),
{
    let mut r = *current;
    r.rflags = 2;
    r.rip = entry_point;
    r.rax = 0;
    r.rbx = 0;
    r.rsi = 0x7000;
    r
}

} // verus!
