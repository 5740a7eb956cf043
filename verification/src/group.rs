//! Block groups: the fixed-size partitions of the filesystem.
//!
//! The group descriptor table begins one block after the start of the
//! image (which is why the legacy 1024-byte-block layout, where that block
//! still holds the superblock, is rejected rather than silently
//! mis-located).  Each descriptor is a 64-byte record; the engine reads
//! the inode table's starting block, split into a low 32-bit half at +0x8
//! and a high half at +0x28.

use vstd::prelude::*;

use crate::error::{Error, UnsupportedKind};
use crate::reader::{le32, lohi_at, Reader};
use crate::source::ReadSource;
use crate::superblock::Superblock;

verus! {

/// Size in bytes of one group descriptor record.
pub const GROUP_DESC_SIZE: u64 = 64;

/// Number of bytes of a descriptor the engine decodes: enough to cover
/// the high half of the inode table block at +0x28.
pub const GROUP_DESC_REGION_LEN: usize = 0x2C;

/// Per-group metadata: where the group's inode table starts.
#[derive(Debug, Clone, Copy, PartialEq, Eq, Structural)]
pub struct BlockGroupDescriptor {
    /// First block of the group's inode table.
    pub inode_table: u64,
}

impl BlockGroupDescriptor {
    /// What decoding a descriptor region means: the inode table block,
    /// low half at +0x8 and high half at +0x28.
    pub open spec fn spec_decode(region: Seq<u8>) -> BlockGroupDescriptor
        recommends
            region.len() == GROUP_DESC_REGION_LEN,
    {
        BlockGroupDescriptor { inode_table: lohi_at(region, 0x8, 0x28) as u64 }
    }

    /// Decode a descriptor region.
    pub fn decode(region: &[u8]) -> (r: BlockGroupDescriptor)
        requires
            region@.len() == GROUP_DESC_REGION_LEN,
        ensures
            r == Self::spec_decode(region@),
    {
        let lo = le32(region, 0x8);
        let hi = le32(region, 0x28);
        BlockGroupDescriptor { inode_table: lo as u64 + (hi as u64) * 0x1_0000_0000 }
    }
}

/// Index of a block group.
#[derive(Debug, Clone, Copy, PartialEq, Eq, Structural)]
pub struct BlockGroupNumber(pub u64);

impl BlockGroupNumber {
    /// The absolute byte offset of this group's descriptor: the table one
    /// block in, indexed by fixed-size records.
    pub open spec fn spec_desc_offset(self, sb: Superblock) -> int {
        sb.block_size + self.0 * GROUP_DESC_SIZE
    }

    /// What fetching this group's descriptor from an image means.
    pub open spec fn spec_desc(self, contents: Seq<u8>, sb: Superblock) -> Result<
        BlockGroupDescriptor,
        Error,
    > {
        let off = self.spec_desc_offset(sb);
        if sb.block_size == 1024 {
            Err(Error::Unsupported { kind: UnsupportedKind::LegacyBlockSize, found: 1024 })
        } else if off + GROUP_DESC_REGION_LEN > u64::MAX {
            Err(Error::Unsupported { kind: UnsupportedKind::OffsetOverflow, found: self.0 })
        } else if off + GROUP_DESC_REGION_LEN <= contents.len() {
            Ok(BlockGroupDescriptor::spec_decode(contents.subrange(off, off + GROUP_DESC_REGION_LEN)))
        } else {
            Err(Error::Io { offset: off as u64, len: GROUP_DESC_REGION_LEN as u64 })
        }
    }

    /// Locate and decode this group's descriptor.
    ///
    /// Rejects the legacy 1024-byte-block layout (the descriptor table
    /// sits elsewhere there) and a descriptor offset beyond the 64-bit
    /// address space; apart from a read failure of the source itself, the
    /// outcome is exactly `spec_desc` of the source's contents.
    pub fn desc<S: ReadSource>(self, sb: &Superblock, dev: &S) -> (r: Result<
        BlockGroupDescriptor,
        Error,
    >)
        requires
            sb.wf(),
        ensures
            r == self.spec_desc(dev.contents(), *sb) || (r matches Err(e) && e.is_io()),
            sb.block_size == 1024 ==> r == Err::<BlockGroupDescriptor, Error>(
                Error::Unsupported { kind: UnsupportedKind::LegacyBlockSize, found: 1024 },
            ),
            sb.block_size != 1024 && self.spec_desc_offset(*sb) + GROUP_DESC_REGION_LEN
                > u64::MAX ==> r == Err::<BlockGroupDescriptor, Error>(
                Error::Unsupported { kind: UnsupportedKind::OffsetOverflow, found: self.0 },
            ),
            dev.infallible() ==> r == self.spec_desc(dev.contents(), *sb),
    {
        if sb.block_size == 1024 {
            return Err(Error::Unsupported { kind: UnsupportedKind::LegacyBlockSize, found: 1024 });
        }
        let table_entry = match self.0.checked_mul(GROUP_DESC_SIZE) {
            Some(x) => x,
            None => {
                return Err(
                    Error::Unsupported { kind: UnsupportedKind::OffsetOverflow, found: self.0 },
                );
            },
        };
        let off = match sb.block_size.checked_add(table_entry) {
            Some(x) => x,
            None => {
                return Err(
                    Error::Unsupported { kind: UnsupportedKind::OffsetOverflow, found: self.0 },
                );
            },
        };
        if off > u64::MAX - GROUP_DESC_REGION_LEN as u64 {
            return Err(Error::Unsupported { kind: UnsupportedKind::OffsetOverflow, found: self.0 });
        }
        let region = Reader::new(dev).vec(off, GROUP_DESC_REGION_LEN)?;
        Ok(BlockGroupDescriptor::decode(&region))
    }
}

} // verus!
