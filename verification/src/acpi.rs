//! ACPI table generation: the RSDP, RSDT and MADT images that tell
//! the guest kernel how many CPUs it has, written into the BIOS ROM
//! scan area.

use vstd::prelude::*;

verus! {

use crate::memory::{spec_write_bytes, GuestMemory, MemError};
use vstd::bytes::{spec_u32_to_le_bytes, spec_u64_to_le_bytes, u32_to_le_bytes, u64_to_le_bytes};

/// Guest address of the RSDP, inside the BIOS ROM area the kernel
/// scans.
pub const RSDP_START: usize = 0xE0000;

/// Guest address of the RSDT: directly after the 36-byte RSDP.
pub const RSDT_START: usize = 0xE0024;

/// Guest address of the MADT: after the 40-byte RSDT.
pub const MADT_START: usize = 0xE004C;

/// Size of the RSDP structure.
pub const RSDP_SIZE: usize = 36;

/// Size of a system-description-table header.
pub const SDT_HEADER_SIZE: usize = 36;

/// Size of the RSDT: a header plus one 32-bit table pointer.
pub const RSDT_SIZE: usize = 40;

/// Size of the fixed MADT prefix, before the per-CPU entries.
pub const MADT_PREFIX_SIZE: usize = 44;

/// Size of one MADT local-APIC entry.
pub const MADT_APIC_ENTRY_SIZE: usize = 8;

/// The sum of a byte sequence, as an unbounded integer.
pub open spec fn spec_byte_sum(s: Seq<u8>) -> int
    decreases s.len(),
{
    if s.len() == 0 {
        0
    } else {
        spec_byte_sum(s.drop_last()) + s.last()
    }
}

/// The ACPI checksum byte: the value that makes the byte sum of the
/// whole structure zero modulo 256.
pub open spec fn spec_checksum(s: Seq<u8>) -> u8 {
    ((256 - spec_byte_sum(s) % 256) % 256) as u8
}

/// One MADT local-APIC entry for CPU `i`: type 0, length 8, the
/// processor id and APIC id both `i`, and the enabled flag.
pub open spec fn spec_apic_entry(i: u8) -> Seq<u8> {
    seq![0u8, 8u8, i, i] + spec_u32_to_le_bytes(1)
}

/// The local-APIC entries for CPUs `0 .. n`, in order.
pub open spec fn spec_apic_entries(n: int) -> Seq<u8>
    decreases n,
{
    if n <= 0 {
        Seq::<u8>::empty()
    } else {
        spec_apic_entries(n - 1) + spec_apic_entry((n - 1) as u8)
    }
}

/// The MADT image before its checksum byte is patched in: the
/// "APIC" header, the local-APIC address and PCAT flag, and one
/// entry per CPU.
pub open spec fn spec_madt_unpatched(n: u8) -> Seq<u8> {
    seq![0x41u8, 0x50u8, 0x49u8, 0x43u8]  // "APIC"
     + spec_u32_to_le_bytes((MADT_PREFIX_SIZE + MADT_APIC_ENTRY_SIZE * n) as u32) + seq![1u8, 0u8]
        + seq![0x41u8, 0x58u8, 0x56u8, 0x4Du8, 0x20u8, 0x20u8]  // "AXVM  "
     + seq![0x41u8, 0x58u8, 0x56u8, 0x4Du8, 0x43u8, 0x50u8, 0x55u8, 0x20u8]  // "AXVMCPU "
     + spec_u32_to_le_bytes(1) + spec_u32_to_le_bytes(0x4D5641) + spec_u32_to_le_bytes(1)
        + spec_u32_to_le_bytes(0xFEE00000) + spec_u32_to_le_bytes(1) + spec_apic_entries(n as int)
}

/// The finished MADT image, with its checksum in place.
pub open spec fn spec_madt_bytes(n: u8) -> Seq<u8> {
    spec_write_bytes(spec_madt_unpatched(n), 9, seq![spec_checksum(spec_madt_unpatched(n))])
}

/// The RSDT image before its checksum byte is patched in: an
/// "RSDT" header and a single pointer to the MADT.
pub open spec fn spec_rsdt_unpatched() -> Seq<u8> {
    seq![0x52u8, 0x53u8, 0x44u8, 0x54u8]  // "RSDT"
     + spec_u32_to_le_bytes(RSDT_SIZE as u32) + seq![1u8, 0u8]
        + seq![0x41u8, 0x58u8, 0x56u8, 0x4Du8, 0x20u8, 0x20u8]  // "AXVM  "
     + seq![0x41u8, 0x58u8, 0x56u8, 0x4Du8, 0x52u8, 0x53u8, 0x44u8, 0x54u8]  // "AXVMRSDT"
     + spec_u32_to_le_bytes(1) + spec_u32_to_le_bytes(0x4D5641) + spec_u32_to_le_bytes(1)
        + spec_u32_to_le_bytes(MADT_START as u32)
}

/// The finished RSDT image, with its checksum in place.
pub open spec fn spec_rsdt_bytes() -> Seq<u8> {
    spec_write_bytes(spec_rsdt_unpatched(), 9, seq![spec_checksum(spec_rsdt_unpatched())])
}

/// The RSDP image before its checksum byte is patched in: the
/// "RSD PTR " signature, the OEM id, and the RSDT pointer.
pub open spec fn spec_rsdp_unpatched() -> Seq<u8> {
    seq![0x52u8, 0x53u8, 0x44u8, 0x20u8, 0x50u8, 0x54u8, 0x52u8, 0x20u8]  // "RSD PTR "
     + seq![0u8] + seq![0x41u8, 0x58u8, 0x56u8, 0x4Du8, 0x20u8, 0x20u8]  // "AXVM  "
     + seq![0u8] + spec_u32_to_le_bytes(RSDT_START as u32) + spec_u32_to_le_bytes(
        RSDP_SIZE as u32,
    ) + spec_u64_to_le_bytes(0) + seq![0u8, 0u8, 0u8, 0u8]
}

/// The finished RSDP image: the ACPI 1.0 checksum covers only the
/// first 20 bytes and sits at offset 8.
pub open spec fn spec_rsdp_bytes() -> Seq<u8> {
    spec_write_bytes(
        spec_rsdp_unpatched(),
        8,
        seq![spec_checksum(spec_rsdp_unpatched().take(20))],
    )
}

/// The ACPI checksum of `data`: the byte that makes the sum of
/// `data` and the checksum zero modulo 256.
pub fn calculate_checksum(data: &[u8]) -> (r: u8)
    ensures
        r == spec_checksum(data@),
{
    let mut acc: u8 = 0;
    let mut k: usize = 0;
    while k < data.len()
        invariant
            k <= data@.len(),
            acc == spec_byte_sum(data@.take(k as int)) % 256,
        decreases data@.len() - k,
    {
        let b = data[k];
        proof {
            assert(data@.take(k + 1).drop_last() =~= data@.take(k as int));
            assert(data@.take(k + 1).last() == data@[k as int]);
        }
        acc = acc.wrapping_add(b);
        k = k + 1;
    }
    proof {
        assert(data@.take(data@.len() as int) =~= data@);
    }
    0u8.wrapping_sub(acc)
}

/// Appends the little-endian bytes of `x` to `v`.
fn push_u32(v: &mut Vec<u8>, x: u32)
    ensures
        final(v)@ == old(v)@ + spec_u32_to_le_bytes(x),
{
    let mut b = u32_to_le_bytes(x);
    v.append(&mut b);
}

/// Builds the finished MADT image for `n` CPUs.
fn build_madt(n: u8) -> (r: Vec<u8>)
    ensures
        r@ == spec_madt_bytes(n),
        r@.len() == MADT_PREFIX_SIZE + MADT_APIC_ENTRY_SIZE * n,
{
    proof {
        vstd::bytes::lemma_auto_spec_u32_to_from_le_bytes();
    }
    let mut v: Vec<u8> = Vec::new();
    v.push(0x41);
    v.push(0x50);
    v.push(0x49);
    v.push(0x43);
    push_u32(&mut v, (MADT_PREFIX_SIZE + MADT_APIC_ENTRY_SIZE * (n as usize)) as u32);
    v.push(1);
    v.push(0);
    v.push(0x41);
    v.push(0x58);
    v.push(0x56);
    v.push(0x4D);
    v.push(0x20);
    v.push(0x20);
    v.push(0x41);
    v.push(0x58);
    v.push(0x56);
    v.push(0x4D);
    v.push(0x43);
    v.push(0x50);
    v.push(0x55);
    v.push(0x20);
    push_u32(&mut v, 1);
    push_u32(&mut v, 0x4D5641);
    push_u32(&mut v, 1);
    push_u32(&mut v, 0xFEE00000);
    push_u32(&mut v, 1);
    proof {
        assert(v@ =~= spec_madt_unpatched(n).take(MADT_PREFIX_SIZE as int));
        assert(spec_apic_entries(0) =~= Seq::<u8>::empty());
        assert(v@ =~= spec_madt_unpatched(n).take(MADT_PREFIX_SIZE as int) + spec_apic_entries(0));
    }
    let mut i: u8 = 0;
    while i < n
        invariant
            i <= n,
            v@ == spec_madt_unpatched(n).take(MADT_PREFIX_SIZE as int) + spec_apic_entries(
                i as int,
            ),
            v@.len() == MADT_PREFIX_SIZE + MADT_APIC_ENTRY_SIZE * i,
        decreases n - i,
    {
        v.push(0);
        v.push(8);
        v.push(i);
        v.push(i);
        push_u32(&mut v, 1);
        proof {
            vstd::bytes::lemma_auto_spec_u32_to_from_le_bytes();
            assert(v@ =~= spec_madt_unpatched(n).take(MADT_PREFIX_SIZE as int)
                + spec_apic_entries((i + 1) as int));
        }
        i = i + 1;
    }
    proof {
        assert(v@ =~= spec_madt_unpatched(n));
    }
    let cs = calculate_checksum(v.as_slice());
    v.set(9, cs);
    proof {
        assert(v@ =~= spec_madt_bytes(n));
    }
    v
}

/// Builds the finished RSDT image.
fn build_rsdt() -> (r: Vec<u8>)
    ensures
        r@ == spec_rsdt_bytes(),
        r@.len() == RSDT_SIZE,
{
    proof {
        vstd::bytes::lemma_auto_spec_u32_to_from_le_bytes();
    }
    let mut v: Vec<u8> = Vec::new();
    v.push(0x52);
    v.push(0x53);
    v.push(0x44);
    v.push(0x54);
    push_u32(&mut v, RSDT_SIZE as u32);
    v.push(1);
    v.push(0);
    v.push(0x41);
    v.push(0x58);
    v.push(0x56);
    v.push(0x4D);
    v.push(0x20);
    v.push(0x20);
    v.push(0x41);
    v.push(0x58);
    v.push(0x56);
    v.push(0x4D);
    v.push(0x52);
    v.push(0x53);
    v.push(0x44);
    v.push(0x54);
    push_u32(&mut v, 1);
    push_u32(&mut v, 0x4D5641);
    push_u32(&mut v, 1);
    push_u32(&mut v, MADT_START as u32);
    proof {
        assert(v@ =~= spec_rsdt_unpatched());
    }
    let cs = calculate_checksum(v.as_slice());
    v.set(9, cs);
    proof {
        assert(v@ =~= spec_rsdt_bytes());
    }
    v
}

/// Builds the finished RSDP image.
fn build_rsdp() -> (r: Vec<u8>)
    ensures
        r@ == spec_rsdp_bytes(),
        r@.len() == RSDP_SIZE,
{
    proof {
        vstd::bytes::lemma_auto_spec_u32_to_from_le_bytes();
        vstd::bytes::lemma_auto_spec_u64_to_from_le_bytes();
    }
    let mut v: Vec<u8> = Vec::new();
    v.push(0x52);
    v.push(0x53);
    v.push(0x44);
    v.push(0x20);
    v.push(0x50);
    v.push(0x54);
    v.push(0x52);
    v.push(0x20);
    v.push(0);
    v.push(0x41);
    v.push(0x58);
    v.push(0x56);
    v.push(0x4D);
    v.push(0x20);
    v.push(0x20);
    v.push(0);
    push_u32(&mut v, RSDT_START as u32);
    push_u32(&mut v, RSDP_SIZE as u32);
    let mut xsdt = u64_to_le_bytes(0);
    v.append(&mut xsdt);
    v.push(0);
    v.push(0);
    v.push(0);
    v.push(0);
    proof {
        assert(v@ =~= spec_rsdp_unpatched());
    }
    let head = vstd::slice::slice_subrange(v.as_slice(), 0, 20);
    proof {
        assert(head@ =~= spec_rsdp_unpatched().take(20));
    }
    let cs = calculate_checksum(head);
    v.set(8, cs);
    proof {
        assert(v@ =~= spec_rsdp_bytes());
    }
    v
}

/// Writes the RSDP, RSDT and MADT for `vcpu_count` CPUs into guest
/// memory at the BIOS ROM scan area.  Fails, leaving memory
/// untouched, when the area does not fit.
pub fn setup_acpi(mem: &mut GuestMemory, vcpu_count: u8) -> (r: Result<(), MemError>)
    ensures
        final(mem)@.len() == old(mem)@.len(),
        r is Err ==> final(mem)@ == old(mem)@,
        r is Ok <==> MADT_START + MADT_PREFIX_SIZE + MADT_APIC_ENTRY_SIZE * vcpu_count <= old(
            mem,
        )@.len(),
        r is Ok ==> {
            let m = final(mem)@;
            &&& m.subrange(RSDP_START as int, RSDP_START + RSDP_SIZE) == spec_rsdp_bytes()
            &&& m.subrange(RSDT_START as int, RSDT_START + RSDT_SIZE) == spec_rsdt_bytes()
            &&& m.subrange(
                MADT_START as int,
                MADT_START + MADT_PREFIX_SIZE + MADT_APIC_ENTRY_SIZE * vcpu_count,
            ) == spec_madt_bytes(vcpu_count)
            &&& forall|i: int|
                0 <= i < m.len() && !(RSDP_START <= i < MADT_START + MADT_PREFIX_SIZE
                    + MADT_APIC_ENTRY_SIZE * vcpu_count) ==> m[i] == old(mem)@[i]
        },
{
    let madt = build_madt(vcpu_count);
    let n = mem.len();
    if n < MADT_START || madt.len() > n - MADT_START {
        return Err(MemError::OutOfBounds);
    }
    let rsdt = build_rsdt();
    let rsdp = build_rsdp();
    match mem.write_slice(MADT_START, madt.as_slice()) {
        Ok(()) => (),
        Err(_) => {
            return Err(MemError::OutOfBounds);
        },
    }
    match mem.write_slice(RSDT_START, rsdt.as_slice()) {
        Ok(()) => (),
        Err(_) => {
            return Err(MemError::OutOfBounds);
        },
    }
    match mem.write_slice(RSDP_START, rsdp.as_slice()) {
        Ok(()) => (),
        Err(_) => {
            return Err(MemError::OutOfBounds);
        },
    }
    proof {
        let m = mem@;
        assert(m.subrange(RSDP_START as int, RSDP_START + RSDP_SIZE) =~= spec_rsdp_bytes());
        assert(m.subrange(RSDT_START as int, RSDT_START + RSDT_SIZE) =~= spec_rsdt_bytes());
        assert(m.subrange(
            MADT_START as int,
            MADT_START + MADT_PREFIX_SIZE + MADT_APIC_ENTRY_SIZE * vcpu_count,
        ) =~= spec_madt_bytes(vcpu_count));
    }
    Ok(())
}

} // verus!
