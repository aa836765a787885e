//! Linux boot-protocol data: the setup header, the zero-page boot
//! parameters, and E820 memory-map entries, all kept as the packed
//! little-endian byte images the guest kernel consumes.

use vstd::prelude::*;

verus! {

use crate::memory::spec_write_bytes;
use vstd::bytes::{
    spec_u16_from_le_bytes, spec_u32_from_le_bytes, spec_u32_to_le_bytes, spec_u64_to_le_bytes,
    u16_from_le_bytes, u32_from_le_bytes, u32_to_le_bytes, u64_to_le_bytes,
};
use vstd::slice::slice_subrange;

/// Guest address of the zero page.
pub const ZERO_PAGE_START: usize = 0x7000;

/// Guest address of the kernel command line.
pub const CMDLINE_START: usize = 0x20000;

/// Guest address where the protected-mode kernel body is loaded.
pub const KERNEL_START: usize = 0x100000;

/// E820 entry type for usable RAM.
pub const E820_RAM: u32 = 1;

/// The boot-protocol magic "HdrS", little-endian.
pub const HDRS_MAGIC: u32 = 0x53726448;

/// Offset of the setup header inside the image and the zero page.
pub const SETUP_HEADER_OFFSET: usize = 0x1F1;

/// Size of the setup header in bytes.
pub const SETUP_HEADER_SIZE: usize = 0x77;

/// Offset of the E820 entry count inside the zero page.
pub const ZP_E820_ENTRIES: usize = 0x1E8;

/// Offset of the E820 table inside the zero page.
pub const ZP_E820_TABLE: usize = 0x2D0;

/// Size of one packed E820 entry.
pub const E820_ENTRY_SIZE: usize = 20;

/// Capacity of the zero page's E820 table.
pub const E820_MAX_ENTRIES: usize = 128;

/// Size of the zero page.
pub const ZERO_PAGE_SIZE: usize = 4096;

/// Header-relative offset of `setup_sects`.
pub const HDR_SETUP_SECTS: usize = 0x00;

/// Header-relative offset of the `header` magic field.
pub const HDR_HEADER: usize = 0x11;

/// Header-relative offset of `version`.
pub const HDR_VERSION: usize = 0x15;

/// Header-relative offset of `type_of_loader`.
pub const HDR_TYPE_OF_LOADER: usize = 0x1F;

/// Header-relative offset of `loadflags`.
pub const HDR_LOADFLAGS: usize = 0x20;

/// Header-relative offset of `code32_start`.
pub const HDR_CODE32_START: usize = 0x23;

/// Header-relative offset of `cmd_line_ptr`.
pub const HDR_CMD_LINE_PTR: usize = 0x37;

/// Header-relative offset of `cmdline_size`.
pub const HDR_CMDLINE_SIZE: usize = 0x47;

/// Writes `data` into the vector at `off`, in place.
pub(crate) fn vec_write_bytes(v: &mut Vec<u8>, off: usize, data: &[u8])
    requires
        off + data@.len() <= old(v)@.len(),
    ensures
        final(v)@ == spec_write_bytes(old(v)@, off as int, data@),
{
    let n = v.len();
    let mut k: usize = 0;
    while k < data.len()
        invariant
            v@.len() <= usize::MAX,
            off + data@.len() <= v@.len(),
            k <= data@.len(),
            v@.len() == old(v)@.len(),
            forall|i: int| 0 <= i < off ==> v@[i] == old(v)@[i],
            forall|i: int| off <= i < off + k ==> v@[i] == data@[i - off],
            forall|i: int| off + k <= i < v@.len() ==> v@[i] == old(v)@[i],
        decreases data@.len() - k,
    {
        let b = data[k];
        v.set(off + k, b);
        k = k + 1;
    }
    proof {
        assert(v@ =~= spec_write_bytes(old(v)@, off as int, data@));
    }
}

/// One E820 memory-map entry: a base address, a byte length, and a
/// region type.
#[derive(Clone, Copy, Debug, PartialEq, Eq, Structural)]
pub struct E820Entry {
    pub addr: u64,
    pub size: u64,
    pub type_: u32,
}

/// The 20-byte packed little-endian image of an E820 entry.
pub open spec fn spec_e820_bytes(e: E820Entry) -> Seq<u8> {
    spec_u64_to_le_bytes(e.addr) + spec_u64_to_le_bytes(e.size) + spec_u32_to_le_bytes(e.type_)
}

impl E820Entry {
    /// The packed byte image of this entry.
    pub fn to_bytes(&self) -> (r: Vec<u8>)
        ensures
            r@ == spec_e820_bytes(*self),
            r@.len() == E820_ENTRY_SIZE,
    {
        let mut out = u64_to_le_bytes(self.addr);
        let mut size_bytes = u64_to_le_bytes(self.size);
        let mut type_bytes = u32_to_le_bytes(self.type_);
        out.append(&mut size_bytes);
        out.append(&mut type_bytes);
        out
    }
}

/// The boot-protocol setup header, held as its packed byte image.
/// The header sits at offset `0x1F1` of both the kernel image and
/// the zero page; its view is that byte sequence.
pub struct SetupHeader {
    bytes: Vec<u8>,
}

impl View for SetupHeader {
    type V = Seq<u8>;

    closed spec fn view(&self) -> Seq<u8> {
        self.bytes@
    }
}

/// Whether a header image has the right size.
pub open spec fn spec_header_wf(h: &SetupHeader) -> bool {
    h@.len() == SETUP_HEADER_SIZE
}

/// The `header` magic field of a kernel image, at image offset 0x202.
pub open spec fn spec_image_magic(image: Seq<u8>) -> u32
    recommends
        image.len() >= SETUP_HEADER_OFFSET + SETUP_HEADER_SIZE,
{
    spec_u32_from_le_bytes(image.subrange(0x202, 0x206))
}

impl SetupHeader {
    /// Extracts the setup header from a kernel image; `None` when
    /// the image is too short to hold one.
    pub fn from_image(image: &[u8]) -> (r: Option<SetupHeader>)
        ensures
            match r {
                Some(h) => {
                    &&& image@.len() >= SETUP_HEADER_OFFSET + SETUP_HEADER_SIZE
                    &&& spec_header_wf(&h)
                    &&& h@ == image@.subrange(
                        SETUP_HEADER_OFFSET as int,
                        (SETUP_HEADER_OFFSET + SETUP_HEADER_SIZE) as int,
                    )
                },
                None => image@.len() < SETUP_HEADER_OFFSET + SETUP_HEADER_SIZE,
            },
    {
        if image.len() < SETUP_HEADER_OFFSET + SETUP_HEADER_SIZE {
            return None;
        }
        let s = slice_subrange(image, SETUP_HEADER_OFFSET, SETUP_HEADER_OFFSET + SETUP_HEADER_SIZE);
        let mut bytes: Vec<u8> = Vec::new();
        let mut k: usize = 0;
        while k < s.len()
            invariant
                s@.len() == SETUP_HEADER_SIZE,
                k <= s@.len(),
                bytes@.len() == k,
                forall|i: int| 0 <= i < k ==> bytes@[i] == s@[i],
            decreases s@.len() - k,
        {
            bytes.push(s[k]);
            k = k + 1;
        }
        proof {
            assert(bytes@ =~= image@.subrange(
                SETUP_HEADER_OFFSET as int,
                (SETUP_HEADER_OFFSET + SETUP_HEADER_SIZE) as int,
            ));
        }
        Some(SetupHeader { bytes })
    }

    /// The `setup_sects` field.
    pub fn setup_sects(&self) -> (r: u8)
        requires
            spec_header_wf(self),
        ensures
            r == self@[HDR_SETUP_SECTS as int],
    {
        self.bytes[HDR_SETUP_SECTS]
    }

    /// The `header` magic field.
    pub fn header_magic(&self) -> (r: u32)
        requires
            spec_header_wf(self),
        ensures
            r == spec_u32_from_le_bytes(self@.subrange(HDR_HEADER as int, HDR_HEADER + 4)),
    {
        let s = slice_subrange(self.bytes.as_slice(), HDR_HEADER, HDR_HEADER + 4);
        u32_from_le_bytes(s)
    }

    /// The boot-protocol `version` field.
    pub fn version(&self) -> (r: u16)
        requires
            spec_header_wf(self),
        ensures
            r == spec_u16_from_le_bytes(self@.subrange(HDR_VERSION as int, HDR_VERSION + 2)),
    {
        let s = slice_subrange(self.bytes.as_slice(), HDR_VERSION, HDR_VERSION + 2);
        u16_from_le_bytes(s)
    }

    /// The `loadflags` field.
    pub fn loadflags(&self) -> (r: u8)
        requires
            spec_header_wf(self),
        ensures
            r == self@[HDR_LOADFLAGS as int],
    {
        self.bytes[HDR_LOADFLAGS]
    }

    /// The `code32_start` field.
    pub fn code32_start(&self) -> (r: u32)
        requires
            spec_header_wf(self),
        ensures
            r == spec_u32_from_le_bytes(
                self@.subrange(HDR_CODE32_START as int, HDR_CODE32_START + 4),
            ),
    {
        let s = slice_subrange(self.bytes.as_slice(), HDR_CODE32_START, HDR_CODE32_START + 4);
        u32_from_le_bytes(s)
    }

    /// Sets the `type_of_loader` field.
    pub fn set_type_of_loader(&mut self, v: u8)
        requires
            spec_header_wf(old(self)),
        ensures
            spec_header_wf(final(self)),
            final(self)@ == spec_write_bytes(old(self)@, HDR_TYPE_OF_LOADER as int, seq![v]),
    {
        self.bytes.set(HDR_TYPE_OF_LOADER, v);
        proof {
            assert(self.bytes@ =~= spec_write_bytes(
                old(self)@,
                HDR_TYPE_OF_LOADER as int,
                seq![v],
            ));
        }
    }

    /// Sets the `loadflags` field.
    pub fn set_loadflags(&mut self, v: u8)
        requires
            spec_header_wf(old(self)),
        ensures
            spec_header_wf(final(self)),
            final(self)@ == spec_write_bytes(old(self)@, HDR_LOADFLAGS as int, seq![v]),
    {
        self.bytes.set(HDR_LOADFLAGS, v);
        proof {
            assert(self.bytes@ =~= spec_write_bytes(old(self)@, HDR_LOADFLAGS as int, seq![v]));
        }
    }

    /// Sets the `cmd_line_ptr` field.
    pub fn set_cmd_line_ptr(&mut self, v: u32)
        requires
            spec_header_wf(old(self)),
        ensures
            spec_header_wf(final(self)),
            final(self)@ == spec_write_bytes(
                old(self)@,
                HDR_CMD_LINE_PTR as int,
                spec_u32_to_le_bytes(v),
            ),
    {
        let b = u32_to_le_bytes(v);
        vec_write_bytes(&mut self.bytes, HDR_CMD_LINE_PTR, b.as_slice());
    }

    /// Sets the `cmdline_size` field.
    pub fn set_cmdline_size(&mut self, v: u32)
        requires
            spec_header_wf(old(self)),
        ensures
            spec_header_wf(final(self)),
            final(self)@ == spec_write_bytes(
                old(self)@,
                HDR_CMDLINE_SIZE as int,
                spec_u32_to_le_bytes(v),
            ),
    {
        let b = u32_to_le_bytes(v);
        vec_write_bytes(&mut self.bytes, HDR_CMDLINE_SIZE, b.as_slice());
    }
}

/// The zero page: the 4 KiB boot-parameter block the kernel reads at
/// entry, held as its packed byte image.  Its view is that byte
/// sequence.
pub struct BootParams {
    bytes: Vec<u8>,
}

impl View for BootParams {
    type V = Seq<u8>;

    closed spec fn view(&self) -> Seq<u8> {
        self.bytes@
    }
}

/// Whether a zero-page image has the right size.
pub open spec fn spec_boot_params_wf(p: &BootParams) -> bool {
    p@.len() == ZERO_PAGE_SIZE
}

impl BootParams {
    /// A zero-filled zero page.
    pub fn new() -> (r: Self)
        ensures
            spec_boot_params_wf(&r),
            forall|i: int| 0 <= i < ZERO_PAGE_SIZE ==> r@[i] == 0u8,
    {
        let mut bytes: Vec<u8> = Vec::new();
        while bytes.len() < ZERO_PAGE_SIZE
            invariant
                bytes@.len() <= ZERO_PAGE_SIZE,
                forall|i: int| 0 <= i < bytes@.len() ==> bytes@[i] == 0u8,
            decreases ZERO_PAGE_SIZE - bytes@.len(),
        {
            bytes.push(0u8);
        }
        BootParams { bytes }
    }

    /// Stores the E820 entry count.
    pub fn set_e820_entries(&mut self, n: u8)
        requires
            spec_boot_params_wf(old(self)),
        ensures
            spec_boot_params_wf(final(self)),
            final(self)@ == spec_write_bytes(old(self)@, ZP_E820_ENTRIES as int, seq![n]),
    {
        self.bytes.set(ZP_E820_ENTRIES, n);
        proof {
            assert(self.bytes@ =~= spec_write_bytes(old(self)@, ZP_E820_ENTRIES as int, seq![n]));
        }
    }

    /// Stores E820 entry number `idx` into the table.
    pub fn set_e820_entry(&mut self, idx: usize, e: &E820Entry)
        requires
            spec_boot_params_wf(old(self)),
            idx < E820_MAX_ENTRIES,
        ensures
            spec_boot_params_wf(final(self)),
            final(self)@ == spec_write_bytes(
                old(self)@,
                ZP_E820_TABLE + idx * E820_ENTRY_SIZE,
                spec_e820_bytes(*e),
            ),
    {
        let b = e.to_bytes();
        vec_write_bytes(&mut self.bytes, ZP_E820_TABLE + idx * E820_ENTRY_SIZE, b.as_slice());
    }

    /// Stores the setup header at its zero-page offset.
    pub fn set_header(&mut self, h: &SetupHeader)
        requires
            spec_boot_params_wf(old(self)),
            spec_header_wf(h),
        ensures
            spec_boot_params_wf(final(self)),
            final(self)@ == spec_write_bytes(old(self)@, SETUP_HEADER_OFFSET as int, h@),
    {
        vec_write_bytes(&mut self.bytes, SETUP_HEADER_OFFSET, h.bytes.as_slice());
    }

    /// The packed byte image of the zero page.
    pub fn as_bytes(&self) -> (r: &Vec<u8>)
        ensures
            r@ == self@,
    {
        &self.bytes
    }
}

} // verus!
