//! Typed little-endian field access over a byte source.
//!
//! The on-disk format stores multi-byte integers little-endian, and splits
//! some 64-bit quantities into a low and a high 32-bit half at independent
//! offsets.  `le16_at` and `le32_at` are the mathematical meaning of such
//! fields; `Reader` reads them from a `ReadSource`.

use vstd::prelude::*;

use crate::error::Error;
use crate::source::ReadSource;

verus! {

/// The 16-bit little-endian integer stored at byte `i` of `s`.
pub open spec fn le16_at(s: Seq<u8>, i: int) -> int {
    s[i] + 0x100 * s[i + 1]
}

/// The 32-bit little-endian integer stored at byte `i` of `s`.
pub open spec fn le32_at(s: Seq<u8>, i: int) -> int {
    le16_at(s, i) + 0x10000 * le16_at(s, i + 2)
}

/// The 64-bit value split into a low 32-bit half at byte `lo` and a high
/// 32-bit half at byte `hi` of `s`.
pub open spec fn lohi_at(s: Seq<u8>, lo: int, hi: int) -> int {
    le32_at(s, lo) + 0x1_0000_0000 * le32_at(s, hi)
}

/// Decode the 16-bit little-endian integer at `off` within a byte slice.
pub fn le16(bytes: &[u8], off: usize) -> (r: u16)
    requires
        off + 2 <= bytes@.len(),
    ensures
        r == le16_at(bytes@, off as int),
{
    bytes[off] as u16 + (bytes[off + 1] as u16) * 0x100
}

/// Decode the 32-bit little-endian integer at `off` within a byte slice.
pub fn le32(bytes: &[u8], off: usize) -> (r: u32)
    requires
        off + 4 <= bytes@.len(),
    ensures
        r == le32_at(bytes@, off as int),
{
    let n = bytes.len();
    le16(bytes, off) as u32 + (le16(bytes, off + 2) as u32) * 0x10000
}

/// Positioned reads of typed fields out of a byte source.
pub struct Reader<'a, S: ReadSource> {
    src: &'a S,
}

impl<'a, S: ReadSource> Reader<'a, S> {
    /// The bytes of the wrapped source.
    pub closed spec fn contents(&self) -> Seq<u8> {
        self.src.contents()
    }

    /// Whether the wrapped source's in-bounds reads always succeed.
    pub closed spec fn infallible(&self) -> bool {
        self.src.infallible()
    }

    /// Wrap a byte source.
    pub fn new(src: &'a S) -> (r: Reader<'a, S>)
        ensures
            r.contents() == src.contents(),
            r.infallible() == src.infallible(),
    {
        Reader { src }
    }

    /// Read the byte at absolute offset `offset`.
    pub fn u8(&self, offset: u64) -> (r: Result<u8, Error>)
        ensures
            r matches Ok(b) ==> {
                &&& offset + 1 <= self.contents().len()
                &&& b == self.contents()[offset as int]
            },
            r matches Err(e) ==> e.is_io(),
            self.infallible() && offset + 1 <= self.contents().len() ==> r is Ok,
    {
        let v = self.src.read_at(offset, 1)?;
        Ok(v[0])
    }

    /// Read the 16-bit little-endian integer at absolute offset `offset`.
    pub fn u16(&self, offset: u64) -> (r: Result<u16, Error>)
        ensures
            r matches Ok(x) ==> {
                &&& offset + 2 <= self.contents().len()
                &&& x == le16_at(self.contents(), offset as int)
            },
            r matches Err(e) ==> e.is_io(),
            self.infallible() && offset + 2 <= self.contents().len() ==> r is Ok,
    {
        let v = self.src.read_at(offset, 2)?;
        Ok(le16(&v, 0))
    }

    /// Read the 32-bit little-endian integer at absolute offset `offset`.
    pub fn u32(&self, offset: u64) -> (r: Result<u32, Error>)
        ensures
            r matches Ok(x) ==> {
                &&& offset + 4 <= self.contents().len()
                &&& x == le32_at(self.contents(), offset as int)
            },
            r matches Err(e) ==> e.is_io(),
            self.infallible() && offset + 4 <= self.contents().len() ==> r is Ok,
    {
        let v = self.src.read_at(offset, 4)?;
        Ok(le32(&v, 0))
    }

    /// Read a 64-bit value whose low half sits at offset `lo` and whose
    /// high half sits at offset `hi`.
    pub fn u64_lohi(&self, lo: u64, hi: u64) -> (r: Result<u64, Error>)
        ensures
            r matches Ok(x) ==> {
                &&& lo + 4 <= self.contents().len()
                &&& hi + 4 <= self.contents().len()
                &&& x == lohi_at(self.contents(), lo as int, hi as int)
            },
            r matches Err(e) ==> e.is_io(),
            self.infallible() && lo + 4 <= self.contents().len() && hi + 4
                <= self.contents().len() ==> r is Ok,
    {
        let l = self.u32(lo)?;
        let h = self.u32(hi)?;
        Ok(l as u64 + (h as u64) * 0x1_0000_0000)
    }

    /// Read `len` raw bytes at absolute offset `offset`.
    pub fn vec(&self, offset: u64, len: usize) -> (r: Result<Vec<u8>, Error>)
        ensures
            r matches Ok(v) ==> {
                &&& offset + len <= self.contents().len()
                &&& v@ == self.contents().subrange(offset as int, offset + len)
            },
            r matches Err(e) ==> e.is_io(),
            self.infallible() ==> (r matches Err(e) ==> {
                &&& offset + len > self.contents().len()
                &&& e == (Error::Io { offset, len: len as u64 })
            }),
    {
        self.src.read_at(offset, len)
    }
}

} // verus!
