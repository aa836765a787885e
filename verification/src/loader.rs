//! The boot-image loader: validates a Linux boot-protocol image and
//! stages the command line, the E820 map, the kernel body and the
//! zero page into guest memory.

use vstd::prelude::*;

verus! {

use crate::linux::{
    spec_e820_bytes, spec_image_magic, BootParams, E820Entry, SetupHeader, CMDLINE_START,
    E820_ENTRY_SIZE, E820_RAM, HDRS_MAGIC, HDR_CMDLINE_SIZE, HDR_CMD_LINE_PTR, HDR_HEADER,
    HDR_LOADFLAGS, HDR_TYPE_OF_LOADER, KERNEL_START, SETUP_HEADER_OFFSET, SETUP_HEADER_SIZE,
    ZERO_PAGE_SIZE, ZERO_PAGE_START, ZP_E820_ENTRIES, ZP_E820_TABLE,
};
use crate::memory::{spec_write_bytes, GuestMemory};
use vstd::bytes::{spec_u16_from_le_bytes, spec_u32_from_le_bytes, spec_u32_to_le_bytes};
use vstd::slice::slice_subrange;

/// Default number of setup sectors when the header says zero.
pub const DEFAULT_SETUP_SECTS: u8 = 4;

/// Sector size in bytes.
pub const SECTOR_SIZE: u64 = 512;

/// The command line may occupy at most this many bytes before its
/// NUL terminator, so that it ends below the 64 KiB window.
pub const CMDLINE_MAX: usize = 0xFFFF;

/// Why the loader rejected its input.
#[derive(Clone, Copy, Debug, PartialEq, Eq, Structural)]
pub enum LoaderError {
    /// The image's `header` field is not the "HdrS" magic.
    BootImageInvalid,
    /// The image is too short to hold a setup header.
    BootImageTruncated,
    /// The kernel body does not fit in guest memory.
    MemoryBounds,
}

/// Whether the image is long enough to hold a setup header.
pub open spec fn spec_image_complete(image: Seq<u8>) -> bool {
    image.len() >= SETUP_HEADER_OFFSET + SETUP_HEADER_SIZE
}

/// Whether the image is complete and carries the "HdrS" magic.
pub open spec fn spec_image_valid(image: Seq<u8>) -> bool {
    spec_image_complete(image) && spec_image_magic(image) == HDRS_MAGIC
}

/// The effective setup-sector count: the header byte, or 4 when it
/// is zero.
pub open spec fn spec_setup_sects(image: Seq<u8>) -> int {
    if image[SETUP_HEADER_OFFSET as int] == 0u8 {
        DEFAULT_SETUP_SECTS as int
    } else {
        image[SETUP_HEADER_OFFSET as int] as int
    }
}

/// The file offset of the protected-mode kernel body.
pub open spec fn spec_kernel_body_offset(image: Seq<u8>) -> int {
    (spec_setup_sects(image) + 1) * 512
}

/// The protected-mode kernel body: everything after the setup
/// sectors, or nothing when the image ends before them.
pub open spec fn spec_kernel_body(image: Seq<u8>) -> Seq<u8> {
    if spec_kernel_body_offset(image) >= image.len() {
        Seq::<u8>::empty()
    } else {
        image.skip(spec_kernel_body_offset(image))
    }
}

/// The command line truncated to fit, with its NUL, below 64 KiB.
pub open spec fn spec_cmdline_truncated(c: Seq<u8>) -> Seq<u8> {
    if c.len() > CMDLINE_MAX {
        c.take(CMDLINE_MAX as int)
    } else {
        c
    }
}

/// The finished zero-page image: a zeroed page carrying the E820
/// count and table, and the image's setup header with the loader's
/// fields filled in.
pub open spec fn spec_zero_page(image: Seq<u8>, mem_size: int, cmdlen: int) -> Seq<u8> {
    let hdr0 = image.subrange(
        SETUP_HEADER_OFFSET as int,
        (SETUP_HEADER_OFFSET + SETUP_HEADER_SIZE) as int,
    );
    let hdr1 = spec_write_bytes(
        hdr0,
        HDR_CMD_LINE_PTR as int,
        spec_u32_to_le_bytes(CMDLINE_START as u32),
    );
    let hdr2 = spec_write_bytes(
        hdr1,
        HDR_CMDLINE_SIZE as int,
        spec_u32_to_le_bytes((cmdlen + 1) as u32),
    );
    let hdr3 = spec_write_bytes(hdr2, HDR_TYPE_OF_LOADER as int, seq![0xFFu8]);
    let hdr = if spec_u16_from_le_bytes(image.subrange(0x206, 0x208)) >= 0x200 {
        spec_write_bytes(hdr3, HDR_LOADFLAGS as int, seq![image[0x211] | 0x80u8])
    } else {
        hdr3
    };
    let z0 = Seq::<u8>::new(ZERO_PAGE_SIZE as nat, |i: int| 0u8);
    let z1 = spec_write_bytes(z0, ZP_E820_ENTRIES as int, seq![2u8]);
    let z2 = spec_write_bytes(
        z1,
        ZP_E820_TABLE as int,
        spec_e820_bytes(E820Entry { addr: 0u64, size: 0x9FC00u64, type_: E820_RAM }),
    );
    let z3 = spec_write_bytes(
        z2,
        ZP_E820_TABLE + E820_ENTRY_SIZE,
        spec_e820_bytes(
            E820Entry {
                addr: KERNEL_START as u64,
                size: (mem_size - KERNEL_START) as u64,
                type_: E820_RAM,
            },
        ),
    );
    spec_write_bytes(z3, SETUP_HEADER_OFFSET as int, hdr)
}

/// The guest entry point: `code32_start` when non-zero, else the
/// fixed kernel load address.
pub open spec fn spec_entry_point(image: Seq<u8>) -> u64 {
    let c32 = spec_u32_from_le_bytes(image.subrange(0x214, 0x218));
    if c32 != 0u32 {
        c32 as u64
    } else {
        KERNEL_START as u64
    }
}

/// Loads a Linux boot-protocol image into guest memory.
///
/// Validates the "HdrS" magic, builds a two-entry E820 map, stages
/// the NUL-terminated command line at its fixed address, copies the
/// kernel body to the 1 MiB mark, writes the finished zero page, and
/// returns the guest entry point.  On any error, guest memory is
/// left untouched.
pub fn load_linux(
    guest_mem: &mut GuestMemory,
    kernel: &[u8],
    mem_size: usize,
    cmdline: &[u8],
) -> (r: Result<u64, LoaderError>)
    requires
        old(guest_mem)@.len() == mem_size,
        KERNEL_START <= mem_size,
    ensures
        final(guest_mem)@.len() == old(guest_mem)@.len(),
        r is Err ==> final(guest_mem)@ == old(guest_mem)@,
        (r == Err::<u64, LoaderError>(LoaderError::BootImageTruncated)) <==> !spec_image_complete(
            kernel@,
        ),
        (r == Err::<u64, LoaderError>(LoaderError::BootImageInvalid)) <==> (spec_image_complete(
            kernel@,
        ) && spec_image_magic(kernel@) != HDRS_MAGIC),
        (r == Err::<u64, LoaderError>(LoaderError::MemoryBounds)) <==> (spec_image_valid(kernel@)
            && spec_kernel_body(kernel@).len() > mem_size - KERNEL_START),
        r is Ok <==> (spec_image_valid(kernel@) && spec_kernel_body(kernel@).len() <= mem_size
            - KERNEL_START),
        r matches Ok(entry) ==> {
            let cmd = spec_cmdline_truncated(cmdline@);
            let body = spec_kernel_body(kernel@);
            let m = final(guest_mem)@;
            &&& entry == spec_entry_point(kernel@)
            &&& m.subrange(CMDLINE_START as int, CMDLINE_START + cmd.len()) == cmd
            &&& m[CMDLINE_START + cmd.len()] == 0u8
            &&& m.subrange(KERNEL_START as int, KERNEL_START + body.len()) == body
            &&& m.subrange(ZERO_PAGE_START as int, ZERO_PAGE_START + ZERO_PAGE_SIZE)
                == spec_zero_page(kernel@, mem_size as int, cmd.len() as int)
            &&& m[ZERO_PAGE_START + ZP_E820_ENTRIES] == 2u8
            &&& m.subrange(
                ZERO_PAGE_START + ZP_E820_TABLE,
                ZERO_PAGE_START + ZP_E820_TABLE + E820_ENTRY_SIZE,
            ) == spec_e820_bytes(E820Entry { addr: 0u64, size: 0x9FC00u64, type_: E820_RAM })
            &&& m.subrange(
                ZERO_PAGE_START + ZP_E820_TABLE + E820_ENTRY_SIZE,
                ZERO_PAGE_START + ZP_E820_TABLE + 2 * E820_ENTRY_SIZE,
            ) == spec_e820_bytes(
                E820Entry {
                    addr: KERNEL_START as u64,
                    size: (mem_size - KERNEL_START) as u64,
                    type_: E820_RAM,
                },
            )
            &&& m.subrange(
                ZERO_PAGE_START + SETUP_HEADER_OFFSET + HDR_HEADER,
                ZERO_PAGE_START + SETUP_HEADER_OFFSET + HDR_HEADER + 4,
            ) == kernel@.subrange(0x202, 0x206)
            &&& m[ZERO_PAGE_START + SETUP_HEADER_OFFSET + HDR_TYPE_OF_LOADER] == 0xFFu8
            &&& m.subrange(
                ZERO_PAGE_START + SETUP_HEADER_OFFSET + HDR_CMD_LINE_PTR,
                ZERO_PAGE_START + SETUP_HEADER_OFFSET + HDR_CMD_LINE_PTR + 4,
            ) == spec_u32_to_le_bytes(CMDLINE_START as u32)
            &&& m.subrange(
                ZERO_PAGE_START + SETUP_HEADER_OFFSET + HDR_CMDLINE_SIZE,
                ZERO_PAGE_START + SETUP_HEADER_OFFSET + HDR_CMDLINE_SIZE + 4,
            ) == spec_u32_to_le_bytes((cmd.len() + 1) as u32)
            &&& m[ZERO_PAGE_START + SETUP_HEADER_OFFSET + HDR_LOADFLAGS] == (
            if spec_u16_from_le_bytes(kernel@.subrange(0x206, 0x208)) >= 0x200 {
                kernel@[0x211] | 0x80u8
            } else {
                kernel@[0x211]
            })
            &&& forall|i: int|
                0 <= i < m.len() && !(ZERO_PAGE_START <= i < ZERO_PAGE_START + ZERO_PAGE_SIZE) && !(
                CMDLINE_START <= i < CMDLINE_START + cmd.len() + 1) && !(KERNEL_START <= i
                    < KERNEL_START + body.len()) ==> m[i] == old(guest_mem)@[i]
        },
{
    let ghost m0 = guest_mem@;

    // Read and validate the setup header.
    let hdr0 = match SetupHeader::from_image(kernel) {
        Some(h) => h,
        None => {
            return Err(LoaderError::BootImageTruncated);
        },
    };
    proof {
        assert(hdr0@.subrange(HDR_HEADER as int, HDR_HEADER + 4) =~= kernel@.subrange(
            0x202,
            0x206,
        ));
    }
    let magic = hdr0.header_magic();
    if magic != HDRS_MAGIC {
        return Err(LoaderError::BootImageInvalid);
    }

    // Locate the protected-mode kernel body.
    let setup_sects_raw = hdr0.setup_sects();
    let setup_sects: u64 = if setup_sects_raw == 0 {
        DEFAULT_SETUP_SECTS as u64
    } else {
        setup_sects_raw as u64
    };
    let body_offset_u64: u64 = (setup_sects + 1) * SECTOR_SIZE;
    let body_start: usize = if body_offset_u64 >= kernel.len() as u64 {
        kernel.len()
    } else {
        body_offset_u64 as usize
    };
    let body = slice_subrange(kernel, body_start, kernel.len());
    proof {
        assert(body@ =~= spec_kernel_body(kernel@));
    }
    if body.len() > mem_size - KERNEL_START {
        return Err(LoaderError::MemoryBounds);
    }

    // Read the fields the loader consumes before mutating the header.
    let version = hdr0.version();
    let loadflags0 = hdr0.loadflags();
    let code32 = hdr0.code32_start();
    proof {
        assert(hdr0@.subrange(crate::linux::HDR_VERSION as int, crate::linux::HDR_VERSION + 2)
            =~= kernel@.subrange(0x206, 0x208));
        assert(hdr0@.subrange(
            crate::linux::HDR_CODE32_START as int,
            crate::linux::HDR_CODE32_START + 4,
        ) =~= kernel@.subrange(0x214, 0x218));
        assert(kernel@[0x211] == hdr0@[HDR_LOADFLAGS as int]);
    }

    // Stage the command line, truncated to end below 64 KiB.
    let clen: usize = if cmdline.len() > CMDLINE_MAX {
        CMDLINE_MAX
    } else {
        cmdline.len()
    };
    let cmd = slice_subrange(cmdline, 0, clen);
    proof {
        assert(cmd@ =~= spec_cmdline_truncated(cmdline@));
    }
    let ghost m1 = spec_write_bytes(m0, CMDLINE_START as int, cmd@);
    match guest_mem.write_slice(CMDLINE_START, cmd) {
        Ok(()) => (),
        Err(_) => {
            return Err(LoaderError::MemoryBounds);
        },
    }
    let ghost m2 = spec_write_bytes(m1, CMDLINE_START + clen, seq![0u8]);
    match guest_mem.write_u8(CMDLINE_START + clen, 0) {
        Ok(()) => (),
        Err(_) => {
            return Err(LoaderError::MemoryBounds);
        },
    }

    // Copy the kernel body to the 1 MiB mark.
    let ghost m3 = spec_write_bytes(m2, KERNEL_START as int, body@);
    match guest_mem.write_slice(KERNEL_START, body) {
        Ok(()) => (),
        Err(_) => {
            return Err(LoaderError::MemoryBounds);
        },
    }

    // Populate the header copy that the zero page will carry.
    let mut hdr = hdr0;
    hdr.set_cmd_line_ptr(CMDLINE_START as u32);
    hdr.set_cmdline_size((clen + 1) as u32);
    hdr.set_type_of_loader(0xFF);
    if version >= 0x0200 {
        hdr.set_loadflags(loadflags0 | 0x80);
    }

    // Build the zero page: E820 map, then the header image.
    let mut zp = BootParams::new();
    zp.set_e820_entries(2);
    let low = E820Entry { addr: 0u64, size: 0x9FC00u64, type_: E820_RAM };
    zp.set_e820_entry(0, &low);
    let high = E820Entry {
        addr: KERNEL_START as u64,
        size: (mem_size - KERNEL_START) as u64,
        type_: E820_RAM,
    };
    zp.set_e820_entry(1, &high);
    zp.set_header(&hdr);
    proof {
        vstd::bytes::lemma_auto_spec_u64_to_from_le_bytes();
        vstd::bytes::lemma_auto_spec_u32_to_from_le_bytes();
        assert(zp@.subrange(ZP_E820_TABLE as int, ZP_E820_TABLE + E820_ENTRY_SIZE)
            =~= spec_e820_bytes(low));
        assert(zp@.subrange(
            ZP_E820_TABLE + E820_ENTRY_SIZE,
            ZP_E820_TABLE + 2 * E820_ENTRY_SIZE,
        ) =~= spec_e820_bytes(high));
        assert(zp@.subrange(
            SETUP_HEADER_OFFSET + HDR_HEADER,
            SETUP_HEADER_OFFSET + HDR_HEADER + 4,
        ) =~= kernel@.subrange(0x202, 0x206));
        assert(zp@.subrange(
            SETUP_HEADER_OFFSET + HDR_CMD_LINE_PTR,
            SETUP_HEADER_OFFSET + HDR_CMD_LINE_PTR + 4,
        ) =~= spec_u32_to_le_bytes(CMDLINE_START as u32));
        assert(zp@.subrange(
            SETUP_HEADER_OFFSET + HDR_CMDLINE_SIZE,
            SETUP_HEADER_OFFSET + HDR_CMDLINE_SIZE + 4,
        ) =~= spec_u32_to_le_bytes((clen + 1) as u32));
    }

    proof {
        assert(zp@ =~= spec_zero_page(kernel@, mem_size as int, clen as int));
    }
    let ghost m4 = spec_write_bytes(m3, ZERO_PAGE_START as int, zp@);
    match guest_mem.write_slice(ZERO_PAGE_START, zp.as_bytes().as_slice()) {
        Ok(()) => (),
        Err(_) => {
            return Err(LoaderError::MemoryBounds);
        },
    }

    let entry: u64 = if code32 != 0 {
        code32 as u64
    } else {
        KERNEL_START as u64
    };

    proof {
        let cmdg = spec_cmdline_truncated(cmdline@);
        let bodyg = spec_kernel_body(kernel@);
        let m = guest_mem@;
        assert(m == m4);
        assert(m.subrange(ZERO_PAGE_START as int, ZERO_PAGE_START + ZERO_PAGE_SIZE) =~= zp@);
        assert(m.subrange(CMDLINE_START as int, CMDLINE_START + cmdg.len()) =~= cmdg);
        assert(m.subrange(KERNEL_START as int, KERNEL_START + bodyg.len()) =~= bodyg);
        assert(m.subrange(
            ZERO_PAGE_START + ZP_E820_TABLE,
            ZERO_PAGE_START + ZP_E820_TABLE + E820_ENTRY_SIZE,
        ) =~= zp@.subrange(ZP_E820_TABLE as int, ZP_E820_TABLE + E820_ENTRY_SIZE));
        assert(m.subrange(
            ZERO_PAGE_START + ZP_E820_TABLE + E820_ENTRY_SIZE,
            ZERO_PAGE_START + ZP_E820_TABLE + 2 * E820_ENTRY_SIZE,
        ) =~= zp@.subrange(ZP_E820_TABLE + E820_ENTRY_SIZE, ZP_E820_TABLE + 2 * E820_ENTRY_SIZE));
        assert(m.subrange(
            ZERO_PAGE_START + SETUP_HEADER_OFFSET + HDR_HEADER,
            ZERO_PAGE_START + SETUP_HEADER_OFFSET + HDR_HEADER + 4,
        ) =~= zp@.subrange(SETUP_HEADER_OFFSET + HDR_HEADER, SETUP_HEADER_OFFSET + HDR_HEADER + 4));
        assert(m.subrange(
            ZERO_PAGE_START + SETUP_HEADER_OFFSET + HDR_CMD_LINE_PTR,
            ZERO_PAGE_START + SETUP_HEADER_OFFSET + HDR_CMD_LINE_PTR + 4,
        ) =~= zp@.subrange(
            SETUP_HEADER_OFFSET + HDR_CMD_LINE_PTR,
            SETUP_HEADER_OFFSET + HDR_CMD_LINE_PTR + 4,
        ));
        assert(m.subrange(
            ZERO_PAGE_START + SETUP_HEADER_OFFSET + HDR_CMDLINE_SIZE,
            ZERO_PAGE_START + SETUP_HEADER_OFFSET + HDR_CMDLINE_SIZE + 4,
        ) =~= zp@.subrange(
            SETUP_HEADER_OFFSET + HDR_CMDLINE_SIZE,
            SETUP_HEADER_OFFSET + HDR_CMDLINE_SIZE + 4,
        ));
    }

    Ok(entry)
}

} // verus!
