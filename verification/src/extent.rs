//! Extent resolution: from an inode's block-mapping payload to the byte
//! range holding its data.
//!
//! The first 12 bytes of the payload are the extent header (magic at +0x0,
//! entry count at +0x2, tree depth at +0x6); the next 12 bytes are one
//! extent record (length in blocks at +0x4, 48-bit starting block split
//! into a 16-bit high part at +0x6 and a 32-bit low part at +0x8).  The
//! engine supports exactly the depth-0, single-entry, single-block case;
//! every other structurally valid shape is an unsupported-feature error,
//! never a silent truncation.

use vstd::prelude::*;

use crate::error::{Error, Structure, UnsupportedKind};
use crate::inode::{Inode, INODE_BLOCK_PAYLOAD_LEN};
use crate::reader::{le16, le16_at, le32, le32_at};
use crate::superblock::Superblock;

verus! {

/// The extent-tree signature.
pub const EXTENT_MAGIC: u16 = 0xF30A;

/// Byte offset of the extent record after the header.
pub const EXTENT_RECORD_OFFSET: usize = 12;

/// Header of the block-mapping payload.
#[derive(Debug, Clone, Copy, PartialEq, Eq, Structural)]
pub struct ExtentHeader {
    /// Number of entries that follow the header.
    pub entries: u64,
    /// Depth of the extent tree; zero means the entries are leaves.
    pub depth: u64,
}

/// One contiguous run of data blocks.
#[derive(Debug, Clone, Copy, PartialEq, Eq, Structural)]
pub struct Extent {
    /// Logical length in blocks.
    pub len: u64,
    /// Starting physical block, reassembled from its split halves.
    pub start: u64,
}

/// An absolute byte range `[offset, offset + len)` of the image.
#[derive(Debug, Clone, Copy, PartialEq, Eq, Structural)]
pub struct DataRange {
    pub offset: u64,
    pub len: u64,
}

impl DataRange {
    /// One past the last byte of the range.
    pub open spec fn end(self) -> int {
        self.offset + self.len
    }
}

impl ExtentHeader {
    /// What decoding the first 12 payload bytes means.  The error offset
    /// is relative to the payload.
    pub open spec fn spec_decode(payload: Seq<u8>) -> Result<ExtentHeader, Error>
        recommends
            payload.len() >= EXTENT_RECORD_OFFSET,
    {
        let magic = le16_at(payload, 0x0);
        if magic != EXTENT_MAGIC {
            Err(Error::Format {
                structure: Structure::ExtentHeader,
                offset: 0,
                expected: EXTENT_MAGIC as u64,
                found: magic as u64,
            })
        } else {
            Ok(
                ExtentHeader {
                    entries: le16_at(payload, 0x2) as u64,
                    depth: le16_at(payload, 0x6) as u64,
                },
            )
        }
    }

    /// Decode the extent header at the start of a payload.
    pub fn decode(payload: &[u8]) -> (r: Result<ExtentHeader, Error>)
        requires
            payload@.len() >= EXTENT_RECORD_OFFSET,
        ensures
            r == Self::spec_decode(payload@),
    {
        let magic = le16(payload, 0x0);
        if magic != EXTENT_MAGIC {
            return Err(Error::Format {
                structure: Structure::ExtentHeader,
                offset: 0,
                expected: EXTENT_MAGIC as u64,
                found: magic as u64,
            });
        }
        Ok(ExtentHeader { entries: le16(payload, 0x2) as u64, depth: le16(payload, 0x6) as u64 })
    }
}

impl Extent {
    /// What decoding the extent record at +12 of the payload means: the
    /// starting block is `(high << 32) | low`.
    pub open spec fn spec_decode(payload: Seq<u8>) -> Extent
        recommends
            payload.len() >= EXTENT_RECORD_OFFSET + 12,
    {
        Extent {
            len: le16_at(payload, EXTENT_RECORD_OFFSET + 0x4) as u64,
            start: (le16_at(payload, EXTENT_RECORD_OFFSET + 0x6) * 0x1_0000_0000 + le32_at(
                payload,
                EXTENT_RECORD_OFFSET + 0x8,
            )) as u64,
        }
    }

    /// Decode the single extent record after the header.
    pub fn decode(payload: &[u8]) -> (r: Extent)
        requires
            payload@.len() >= EXTENT_RECORD_OFFSET + 12,
        ensures
            r == Self::spec_decode(payload@),
    {
        let len = le16(payload, EXTENT_RECORD_OFFSET + 0x4);
        let hi = le16(payload, EXTENT_RECORD_OFFSET + 0x6);
        let lo = le32(payload, EXTENT_RECORD_OFFSET + 0x8);
        Extent { len: len as u64, start: (hi as u64) * 0x1_0000_0000 + lo as u64 }
    }
}

/// What resolving a whole block-mapping payload to a data range means:
/// header magic checked, depth 0 and exactly one entry required, the one
/// extent required to span exactly one block, and the resulting absolute
/// byte range `[start * block_size, (start + len) * block_size)` required
/// to fit in 64 bits.
pub open spec fn spec_data_range(payload: Seq<u8>, block_size: u64) -> Result<DataRange, Error>
    recommends
        payload.len() == INODE_BLOCK_PAYLOAD_LEN,
        1 <= block_size,
{
    match ExtentHeader::spec_decode(payload) {
        Err(e) => Err(e),
        Ok(header) => {
            if header.depth != 0 {
                Err(
                    Error::Unsupported {
                        kind: UnsupportedKind::ExtentDepth,
                        found: header.depth,
                    },
                )
            } else if header.entries != 1 {
                Err(
                    Error::Unsupported {
                        kind: UnsupportedKind::ExtentEntryCount,
                        found: header.entries,
                    },
                )
            } else {
                let extent = Extent::spec_decode(payload);
                if extent.len != 1 {
                    Err(
                        Error::Unsupported {
                            kind: UnsupportedKind::ExtentLength,
                            found: extent.len,
                        },
                    )
                } else if extent.start * block_size + extent.len * block_size > u64::MAX {
                    Err(
                        Error::Unsupported {
                            kind: UnsupportedKind::OffsetOverflow,
                            found: extent.start,
                        },
                    )
                } else {
                    Ok(
                        DataRange {
                            offset: (extent.start * block_size) as u64,
                            len: (extent.len * block_size) as u64,
                        },
                    )
                }
            }
        },
    }
}

/// Resolve a block-mapping payload to the absolute byte range holding the
/// inode's data.
pub fn resolve_data_range(payload: &[u8], block_size: u64) -> (r: Result<DataRange, Error>)
    requires
        payload@.len() == INODE_BLOCK_PAYLOAD_LEN,
        1 <= block_size <= 0x10000,
    ensures
        r == spec_data_range(payload@, block_size),
{
    let header = ExtentHeader::decode(payload)?;
    if header.depth != 0 {
        return Err(Error::Unsupported { kind: UnsupportedKind::ExtentDepth, found: header.depth });
    }
    if header.entries != 1 {
        return Err(
            Error::Unsupported { kind: UnsupportedKind::ExtentEntryCount, found: header.entries },
        );
    }
    let extent = Extent::decode(payload);
    if extent.len != 1 {
        return Err(Error::Unsupported { kind: UnsupportedKind::ExtentLength, found: extent.len });
    }
    let offset = match extent.start.checked_mul(block_size) {
        Some(x) => x,
        None => {
            return Err(
                Error::Unsupported { kind: UnsupportedKind::OffsetOverflow, found: extent.start },
            );
        },
    };
    let len = match extent.len.checked_mul(block_size) {
        Some(x) => x,
        None => {
            return Err(
                Error::Unsupported { kind: UnsupportedKind::OffsetOverflow, found: extent.start },
            );
        },
    };
    if offset > u64::MAX - len {
        return Err(
            Error::Unsupported { kind: UnsupportedKind::OffsetOverflow, found: extent.start },
        );
    }
    Ok(DataRange { offset, len })
}

/// A structurally valid extent tree of any shape but the depth-0,
/// single-entry one resolves to an unsupported-feature error, never to a
/// truncated range.
pub proof fn lemma_unsupported_extent_shape(payload: Seq<u8>, block_size: u64)
    requires
        payload.len() == INODE_BLOCK_PAYLOAD_LEN,
        le16_at(payload, 0x0) == EXTENT_MAGIC,
        le16_at(payload, 0x6) != 0 || le16_at(payload, 0x2) != 1,
    ensures
        spec_data_range(payload, block_size) matches Err(e) && e matches Error::Unsupported {
            ..
        },
{
}

impl Inode {
    /// The absolute byte range holding this inode's data, resolved from
    /// its block-mapping payload.
    pub fn data(&self, sb: &Superblock) -> (r: Result<DataRange, Error>)
        requires
            self.wf(),
            sb.wf(),
        ensures
            r == spec_data_range(self.block@, sb.block_size),
    {
        resolve_data_range(self.block.as_slice(), sb.block_size)
    }
}

} // verus!
