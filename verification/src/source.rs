//! The byte-source capability every component reads through.
//!
//! A source is anything that can hand out `len` bytes at an arbitrary
//! absolute offset, independently of any cursor, so reads may be issued in
//! any order.  The engine only ever reads; it never seeks, writes or
//! closes.  `MemSource` is the in-memory adapter; callers outside the
//! library may wire a file or block device to the same interface.

use vstd::prelude::*;

use crate::error::Error;

verus! {

/// Random access to an immutable sequence of bytes.
///
/// `contents()` is the mathematical value of the whole source.  A read
/// that succeeds returns exactly the bytes of `contents()` at the asked
/// offset; a read may always fail instead (a device error), but only with
/// an I/O error, and never with a partial result.
pub trait ReadSource {
    /// The bytes this source stands for.
    spec fn contents(&self) -> Seq<u8>;

    /// True of a source whose in-bounds reads always succeed (an
    /// in-memory image).  A device-backed source leaves it false: its
    /// reads may fail at any time.
    spec fn infallible(&self) -> bool;

    /// Read exactly `len` bytes at absolute byte offset `offset`.
    fn read_at(&self, offset: u64, len: usize) -> (r: Result<Vec<u8>, Error>)
        ensures
            r matches Ok(v) ==> {
                &&& offset + len <= self.contents().len()
                &&& v@ == self.contents().subrange(offset as int, offset + len)
            },
            r matches Err(e) ==> e.is_io(),
            self.infallible() ==> (r matches Err(e) ==> {
                &&& offset + len > self.contents().len()
                &&& e == (Error::Io { offset, len: len as u64 })
            }),
    ;
}

/// An in-memory byte source: the whole image held in one vector.
pub struct MemSource {
    bytes: Vec<u8>,
}

impl MemSource {
    /// Wrap an in-memory image.
    pub fn new(bytes: Vec<u8>) -> (r: MemSource)
        ensures
            r.contents() == bytes@,
    {
        MemSource { bytes }
    }
}

impl ReadSource for MemSource {
    closed spec fn contents(&self) -> Seq<u8> {
        self.bytes@
    }

    open spec fn infallible(&self) -> bool {
        true
    }

    fn read_at(&self, offset: u64, len: usize) -> (r: Result<Vec<u8>, Error>)
        ensures
            offset + len <= self.contents().len() ==> r is Ok,
    {
        let n = self.bytes.len();
        if offset > n as u64 || len as u64 > n as u64 - offset {
            return Err(Error::Io { offset, len: len as u64 });
        }
        let start = offset as usize;
        let mut v: Vec<u8> = Vec::new();
        let mut i: usize = 0;
        while i < len
            invariant
                start + len <= self.bytes.len(),
                i <= len,
                v@ == self.bytes@.subrange(start as int, start + i),
            decreases len - i,
        {
            v.push(self.bytes[start + i]);
            assert(v@ == self.bytes@.subrange(start as int, start + i + 1));
            i = i + 1;
        }
        Ok(v)
    }
}

} // verus!
