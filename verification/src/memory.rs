//! Guest physical memory: a contiguous, zero-initialized byte region
//! with bounds-checked little-endian access at arbitrary alignment.

use vstd::prelude::*;

verus! {

use vstd::bytes::{
    spec_u16_from_le_bytes, spec_u16_to_le_bytes, spec_u32_from_le_bytes, spec_u32_to_le_bytes,
    spec_u64_from_le_bytes, spec_u64_to_le_bytes, u16_from_le_bytes, u16_to_le_bytes,
    u32_from_le_bytes, u32_to_le_bytes, u64_from_le_bytes, u64_to_le_bytes,
};
use vstd::slice::slice_subrange;

/// The byte region `m` with `data` overlaid starting at offset `off`.
pub open spec fn spec_write_bytes(m: Seq<u8>, off: int, data: Seq<u8>) -> Seq<u8> {
    Seq::new(m.len(), |i: int| if off <= i < off + data.len() { data[i - off] } else { m[i] })
}

/// An access that does not fit inside the region.
#[derive(Clone, Copy, Debug, PartialEq, Eq, Structural)]
pub enum MemError {
    OutOfBounds,
}

/// Guest physical RAM.  The region is zeroed at creation and every
/// access is bounds-checked against its length.
pub struct GuestMemory {
    data: Vec<u8>,
}

impl View for GuestMemory {
    type V = Seq<u8>;

    closed spec fn view(&self) -> Seq<u8> {
        self.data@
    }
}

impl GuestMemory {
    /// Allocates a zero-filled guest memory region of `size` bytes.
    pub fn new(size: usize) -> (r: Self)
        ensures
            r@.len() == size,
            forall|i: int| 0 <= i < size ==> r@[i] == 0u8,
    {
        let mut data: Vec<u8> = Vec::new();
        while data.len() < size
            invariant
                data@.len() <= size,
                forall|i: int| 0 <= i < data@.len() ==> data@[i] == 0u8,
            decreases size - data@.len(),
        {
            data.push(0u8);
        }
        GuestMemory { data }
    }

    /// The length of the region in bytes.
    pub fn len(&self) -> (n: usize)
        ensures
            n == self@.len(),
    {
        self.data.len()
    }

    /// Copies `data` into the region at `offset`.
    pub fn write_slice(&mut self, offset: usize, data: &[u8]) -> (r: Result<(), MemError>)
        ensures
            final(self)@.len() == old(self)@.len(),
            match r {
                Ok(()) => {
                    &&& offset + data@.len() <= old(self)@.len()
                    &&& final(self)@ == spec_write_bytes(old(self)@, offset as int, data@)
                },
                Err(e) => {
                    &&& e == MemError::OutOfBounds
                    &&& offset + data@.len() > old(self)@.len()
                    &&& final(self)@ == old(self)@
                },
            },
    {
        let n = self.data.len();
        if data.len() > n || offset > n - data.len() {
            return Err(MemError::OutOfBounds);
        }
        let mut k: usize = 0;
        while k < data.len()
            invariant
                self.data@.len() <= usize::MAX,
                offset + data@.len() <= self.data@.len(),
                k <= data@.len(),
                self.data@.len() == old(self)@.len(),
                forall|i: int| 0 <= i < offset ==> self.data@[i] == old(self)@[i],
                forall|i: int|
                    offset <= i < offset + k ==> self.data@[i] == data@[i - offset],
                forall|i: int|
                    offset + k <= i < self.data@.len() ==> self.data@[i] == old(self)@[i],
            decreases data@.len() - k,
        {
            let b = data[k];
            self.data.set(offset + k, b);
            k = k + 1;
        }
        proof {
            assert(self@ =~= spec_write_bytes(old(self)@, offset as int, data@));
        }
        Ok(())
    }

    /// Reads `len` bytes starting at `offset`.
    pub fn read_slice(&self, offset: usize, len: usize) -> (r: Result<Vec<u8>, MemError>)
        ensures
            match r {
                Ok(v) => {
                    &&& offset + len <= self@.len()
                    &&& v@ == self@.subrange(offset as int, offset + len)
                },
                Err(e) => {
                    &&& e == MemError::OutOfBounds
                    &&& offset + len > self@.len()
                },
            },
    {
        let n = self.data.len();
        if len > n || offset > n - len {
            return Err(MemError::OutOfBounds);
        }
        let mut v: Vec<u8> = Vec::new();
        let mut k: usize = 0;
        while k < len
            invariant
                self.data@.len() <= usize::MAX,
                offset + len <= self.data@.len(),
                k <= len,
                v@.len() == k,
                forall|i: int| 0 <= i < k ==> v@[i] == self.data@[offset + i],
            decreases len - k,
        {
            v.push(self.data[offset + k]);
            k = k + 1;
        }
        proof {
            assert(v@ =~= self@.subrange(offset as int, offset + len));
        }
        Ok(v)
    }

    /// Writes a single byte at `offset`.
    pub fn write_u8(&mut self, offset: usize, val: u8) -> (r: Result<(), MemError>)
        ensures
            final(self)@.len() == old(self)@.len(),
            match r {
                Ok(()) => {
                    &&& offset + 1 <= old(self)@.len()
                    &&& final(self)@ == spec_write_bytes(old(self)@, offset as int, seq![val])
                },
                Err(e) => {
                    &&& e == MemError::OutOfBounds
                    &&& offset + 1 > old(self)@.len()
                    &&& final(self)@ == old(self)@
                },
            },
    {
        let mut b: Vec<u8> = Vec::new();
        b.push(val);
        let r = self.write_slice(offset, b.as_slice());
        proof {
            assert(b@ =~= seq![val]);
        }
        r
    }

    /// Writes `val` at `offset` as two little-endian bytes.
    pub fn write_u16(&mut self, offset: usize, val: u16) -> (r: Result<(), MemError>)
        ensures
            final(self)@.len() == old(self)@.len(),
            match r {
                Ok(()) => {
                    &&& offset + 2 <= old(self)@.len()
                    &&& final(self)@ == spec_write_bytes(old(self)@, offset as int, spec_u16_to_le_bytes(val))
                },
                Err(e) => {
                    &&& e == MemError::OutOfBounds
                    &&& offset + 2 > old(self)@.len()
                    &&& final(self)@ == old(self)@
                },
            },
    {
        proof {
            vstd::bytes::lemma_auto_spec_u16_to_from_le_bytes();
        }
        let b = u16_to_le_bytes(val);
        self.write_slice(offset, b.as_slice())
    }

    /// Writes `val` at `offset` as four little-endian bytes.
    pub fn write_u32(&mut self, offset: usize, val: u32) -> (r: Result<(), MemError>)
        ensures
            final(self)@.len() == old(self)@.len(),
            match r {
                Ok(()) => {
                    &&& offset + 4 <= old(self)@.len()
                    &&& final(self)@ == spec_write_bytes(old(self)@, offset as int, spec_u32_to_le_bytes(val))
                },
                Err(e) => {
                    &&& e == MemError::OutOfBounds
                    &&& offset + 4 > old(self)@.len()
                    &&& final(self)@ == old(self)@
                },
            },
    {
        proof {
            vstd::bytes::lemma_auto_spec_u32_to_from_le_bytes();
        }
        let b = u32_to_le_bytes(val);
        self.write_slice(offset, b.as_slice())
    }

    /// Writes `val` at `offset` as eight little-endian bytes.
    pub fn write_u64(&mut self, offset: usize, val: u64) -> (r: Result<(), MemError>)
        ensures
            final(self)@.len() == old(self)@.len(),
            match r {
                Ok(()) => {
                    &&& offset + 8 <= old(self)@.len()
                    &&& final(self)@ == spec_write_bytes(old(self)@, offset as int, spec_u64_to_le_bytes(val))
                },
                Err(e) => {
                    &&& e == MemError::OutOfBounds
                    &&& offset + 8 > old(self)@.len()
                    &&& final(self)@ == old(self)@
                },
            },
    {
        proof {
            vstd::bytes::lemma_auto_spec_u64_to_from_le_bytes();
        }
        let b = u64_to_le_bytes(val);
        self.write_slice(offset, b.as_slice())
    }

    /// Reads the byte at `offset`.
    pub fn read_u8(&self, offset: usize) -> (r: Result<u8, MemError>)
        ensures
            match r {
                Ok(v) => offset + 1 <= self@.len() && v == self@[offset as int],
                Err(e) => e == MemError::OutOfBounds && offset + 1 > self@.len(),
            },
    {
        if offset < self.data.len() {
            Ok(self.data[offset])
        } else {
            Err(MemError::OutOfBounds)
        }
    }

    /// Reads two little-endian bytes at `offset`.
    pub fn read_u16(&self, offset: usize) -> (r: Result<u16, MemError>)
        ensures
            match r {
                Ok(v) => {
                    &&& offset + 2 <= self@.len()
                    &&& v == spec_u16_from_le_bytes(self@.subrange(offset as int, offset + 2))
                },
                Err(e) => e == MemError::OutOfBounds && offset + 2 > self@.len(),
            },
    {
        if 2 > self.data.len() || offset > self.data.len() - 2 {
            return Err(MemError::OutOfBounds);
        }
        let s = slice_subrange(self.data.as_slice(), offset, offset + 2);
        Ok(u16_from_le_bytes(s))
    }

    /// Reads four little-endian bytes at `offset`.
    pub fn read_u32(&self, offset: usize) -> (r: Result<u32, MemError>)
        ensures
            match r {
                Ok(v) => {
                    &&& offset + 4 <= self@.len()
                    &&& v == spec_u32_from_le_bytes(self@.subrange(offset as int, offset + 4))
                },
                Err(e) => e == MemError::OutOfBounds && offset + 4 > self@.len(),
            },
    {
        if 4 > self.data.len() || offset > self.data.len() - 4 {
            return Err(MemError::OutOfBounds);
        }
        let s = slice_subrange(self.data.as_slice(), offset, offset + 4);
        Ok(u32_from_le_bytes(s))
    }

    /// Reads eight little-endian bytes at `offset`.
    pub fn read_u64(&self, offset: usize) -> (r: Result<u64, MemError>)
        ensures
            match r {
                Ok(v) => {
                    &&& offset + 8 <= self@.len()
                    &&& v == spec_u64_from_le_bytes(self@.subrange(offset as int, offset + 8))
                },
                Err(e) => e == MemError::OutOfBounds && offset + 8 > self@.len(),
            },
    {
        if 8 > self.data.len() || offset > self.data.len() - 8 {
            return Err(MemError::OutOfBounds);
        }
        let s = slice_subrange(self.data.as_slice(), offset, offset + 8);
        Ok(u64_from_le_bytes(s))
    }

    /// Fills `len` bytes at `offset` with `byte`.
    pub fn fill(&mut self, offset: usize, len: usize, byte: u8) -> (r: Result<(), MemError>)
        ensures
            final(self)@.len() == old(self)@.len(),
            match r {
                Ok(()) => {
                    &&& offset + len <= old(self)@.len()
                    &&& final(self)@.len() == old(self)@.len()
                    &&& forall|i: int|
                        offset <= i < offset + len ==> final(self)@[i] == byte
                    &&& forall|i: int|
                        0 <= i < final(self)@.len() && !(offset <= i < offset + len) ==> final(self)@[i]
                            == old(self)@[i]
                },
                Err(e) => {
                    &&& e == MemError::OutOfBounds
                    &&& offset + len > old(self)@.len()
                    &&& final(self)@ == old(self)@
                },
            },
    {
        let n = self.data.len();
        if len > n || offset > n - len {
            return Err(MemError::OutOfBounds);
        }
        let mut k: usize = 0;
        while k < len
            invariant
                self.data@.len() <= usize::MAX,
                offset + len <= self.data@.len(),
                k <= len,
                self.data@.len() == old(self)@.len(),
                forall|i: int| 0 <= i < offset ==> self.data@[i] == old(self)@[i],
                forall|i: int| offset <= i < offset + k ==> self.data@[i] == byte,
                forall|i: int|
                    offset + k <= i < self.data@.len() ==> self.data@[i] == old(self)@[i],
            decreases len - k,
        {
            self.data.set(offset + k, byte);
            k = k + 1;
        }
        Ok(())
    }

    /// Copies `len` bytes from offset `src` to offset `dst`; the
    /// regions may overlap, and the source is read before any byte of
    /// the destination is written.
    pub fn copy_within(&mut self, src: usize, dst: usize, len: usize) -> (r: Result<
        (),
        MemError,
    >)
        ensures
            final(self)@.len() == old(self)@.len(),
            match r {
                Ok(()) => {
                    &&& src + len <= old(self)@.len()
                    &&& dst + len <= old(self)@.len()
                    &&& final(self)@ == spec_write_bytes(
                        old(self)@,
                        dst as int,
                        old(self)@.subrange(src as int, src + len),
                    )
                },
                Err(e) => {
                    &&& e == MemError::OutOfBounds
                    &&& (src + len > old(self)@.len() || dst + len > old(self)@.len())
                    &&& final(self)@ == old(self)@
                },
            },
    {
        let buf = match self.read_slice(src, len) {
            Ok(b) => b,
            Err(e) => {
                return Err(e);
            },
        };
        self.write_slice(dst, buf.as_slice())
    }

    /// Borrows the whole region as bytes, for the host side to map
    /// into the virtualization facility.
    pub fn bytes(&self) -> (r: &Vec<u8>)
        ensures
            r@ == self@,
    {
        &self.data
    }

    /// Reads two little-endian bytes at a 64-bit guest address,
    /// returning `None` when the access does not fit.
    pub fn load_u16(&self, addr: u64) -> (r: Option<u16>)
        ensures
            match r {
                Some(v) => {
                    &&& addr + 2 <= self@.len()
                    &&& v == spec_u16_from_le_bytes(self@.subrange(addr as int, addr + 2))
                },
                None => addr + 2 > self@.len(),
            },
    {
        let n = self.len();
        if addr <= u64::MAX - 2 && addr + 2 <= n as u64 {
            match self.read_u16(addr as usize) {
                Ok(v) => Some(v),
                Err(_) => None,
            }
        } else {
            None
        }
    }

    /// Reads four little-endian bytes at a 64-bit guest address.
    pub fn load_u32(&self, addr: u64) -> (r: Option<u32>)
        ensures
            match r {
                Some(v) => {
                    &&& addr + 4 <= self@.len()
                    &&& v == spec_u32_from_le_bytes(self@.subrange(addr as int, addr + 4))
                },
                None => addr + 4 > self@.len(),
            },
    {
        let n = self.len();
        if addr <= u64::MAX - 4 && addr + 4 <= n as u64 {
            match self.read_u32(addr as usize) {
                Ok(v) => Some(v),
                Err(_) => None,
            }
        } else {
            None
        }
    }

    /// Reads eight little-endian bytes at a 64-bit guest address.
    pub fn load_u64(&self, addr: u64) -> (r: Option<u64>)
        ensures
            match r {
                Some(v) => {
                    &&& addr + 8 <= self@.len()
                    &&& v == spec_u64_from_le_bytes(self@.subrange(addr as int, addr + 8))
                },
                None => addr + 8 > self@.len(),
            },
    {
        let n = self.len();
        if addr <= u64::MAX - 8 && addr + 8 <= n as u64 {
            match self.read_u64(addr as usize) {
                Ok(v) => Some(v),
                Err(_) => None,
            }
        } else {
            None
        }
    }
}

/// Round trip for byte writes: a byte written in bounds is read back.
pub proof fn lemma_write_read_u8(m: Seq<u8>, off: int, v: u8)
    requires
        0 <= off,
        off + 1 <= m.len(),
    ensures
        spec_write_bytes(m, off, seq![v])[off] == v,
{
}

/// Round trip for 16-bit little-endian writes at any alignment.
pub proof fn lemma_write_read_u16(m: Seq<u8>, off: int, v: u16)
    requires
        0 <= off,
        off + 2 <= m.len(),
    ensures
        spec_u16_from_le_bytes(
            spec_write_bytes(m, off, spec_u16_to_le_bytes(v)).subrange(off, off + 2),
        ) == v,
{
    vstd::bytes::lemma_auto_spec_u16_to_from_le_bytes();
    assert(spec_write_bytes(m, off, spec_u16_to_le_bytes(v)).subrange(off, off + 2)
        =~= spec_u16_to_le_bytes(v));
}

/// Round trip for 32-bit little-endian writes at any alignment.
pub proof fn lemma_write_read_u32(m: Seq<u8>, off: int, v: u32)
    requires
        0 <= off,
        off + 4 <= m.len(),
    ensures
        spec_u32_from_le_bytes(
            spec_write_bytes(m, off, spec_u32_to_le_bytes(v)).subrange(off, off + 4),
        ) == v,
{
    vstd::bytes::lemma_auto_spec_u32_to_from_le_bytes();
    assert(spec_write_bytes(m, off, spec_u32_to_le_bytes(v)).subrange(off, off + 4)
        =~= spec_u32_to_le_bytes(v));
}

/// Round trip for 64-bit little-endian writes at any alignment.
pub proof fn lemma_write_read_u64(m: Seq<u8>, off: int, v: u64)
    requires
        0 <= off,
        off + 8 <= m.len(),
    ensures
        spec_u64_from_le_bytes(
            spec_write_bytes(m, off, spec_u64_to_le_bytes(v)).subrange(off, off + 8),
        ) == v,
{
    vstd::bytes::lemma_auto_spec_u64_to_from_le_bytes();
    assert(spec_write_bytes(m, off, spec_u64_to_le_bytes(v)).subrange(off, off + 8)
        =~= spec_u64_to_le_bytes(v));
}

/// A write leaves every byte outside the written range unchanged.
pub proof fn lemma_write_frame(m: Seq<u8>, off: int, data: Seq<u8>, i: int)
    requires
        0 <= i < m.len(),
        !(off <= i < off + data.len()),
    ensures
        spec_write_bytes(m, off, data)[i] == m[i],
{
}

} // verus!
