//! The failure taxonomy of the engine.
//!
//! Every error carries enough plain data (which structure, at what offset,
//! which value) to localize a fault.  A missing directory entry is not an
//! error: lookups report it as `None`.

use vstd::prelude::*;

verus! {

/// The on-disk structure a decode step was working on when it failed.
#[derive(Debug, Clone, Copy, PartialEq, Eq, Structural)]
pub enum Structure {
    Superblock,
    GroupDescriptor,
    Inode,
    ExtentHeader,
    Extent,
    DirectoryEntry,
}

/// A structurally valid value that lies outside the engine's supported
/// subset.
#[derive(Debug, Clone, Copy, PartialEq, Eq, Structural)]
pub enum UnsupportedKind {
    /// The filesystem uses the legacy 1024-byte-block layout, in which the
    /// group descriptor table is not one block after the start.
    LegacyBlockSize,
    /// The extent tree has depth greater than zero.
    ExtentDepth,
    /// The extent tree root holds a number of entries other than one.
    ExtentEntryCount,
    /// The single extent spans a number of blocks other than one.
    ExtentLength,
    /// A byte offset computed from on-disk fields does not fit in 64 bits.
    OffsetOverflow,
}

/// Why an operation failed.
#[derive(Debug, Clone, Copy, PartialEq, Eq, Structural)]
pub enum Error {
    /// The byte source could not supply `len` bytes at `offset`.
    Io { offset: u64, len: u64 },
    /// A decoded field violates the format: at byte `offset` within
    /// `structure`, the value `expected` (for a magic number) or an upper
    /// or lower bound named in the decoder's contract was required, but
    /// `found` was read.
    Format { structure: Structure, offset: u64, expected: u64, found: u64 },
    /// The data is not corrupt, merely outside the supported subset.
    Unsupported { kind: UnsupportedKind, found: u64 },
    /// Path traversal expected a directory but inode `inode` is none.
    NotDirectory { inode: u64 },
}

impl Error {
    /// True of every error a byte source itself may report.
    pub open spec fn is_io(self) -> bool {
        self is Io
    }
}

} // verus!
