//! Inode records: locating and decoding one file's or directory's
//! metadata.
//!
//! An inode number is 1-based and global.  Its record lives in the inode
//! table of its block group: group `(n-1) / inodes_per_group`, slot
//! `(n-1) % inodes_per_group`, each slot `inode_size` bytes.  Within the
//! record the engine reads the mode at +0x0, the 64-bit size split into a
//! low half at +0x4 and a high half at +0x6C, and the 60-byte
//! block-mapping payload at +0x28.

use vstd::prelude::*;

use crate::error::{Error, Structure, UnsupportedKind};
use crate::group::BlockGroupNumber;
use crate::reader::{le16, le16_at, le32, lohi_at, Reader};
use crate::source::ReadSource;
use crate::superblock::{Superblock, SUPERBLOCK_OFFSET};

verus! {

/// The root directory's inode number.
pub const ROOT_INODE: u64 = 2;

/// Number of bytes of an inode record the engine decodes: enough to cover
/// the high half of the size at +0x6C.
pub const INODE_REGION_LEN: usize = 0x70;

/// Length of the block-mapping payload at +0x28 of the record.
pub const INODE_BLOCK_PAYLOAD_LEN: usize = 60;

/// What a file is, derived from the top four bits of its mode.
#[derive(Debug, Clone, Copy, PartialEq, Eq, Structural)]
pub enum Filetype {
    Fifo,
    CharacterDevice,
    Directory,
    BlockDevice,
    Regular,
    SymbolicLink,
    Socket,
}

/// The filetype encoded in the top four bits of a mode, if any.
pub open spec fn spec_filetype_of_mode(mode: u16) -> Option<Filetype> {
    let m = mode & 0xF000;
    if m == 0x1000 {
        Some(Filetype::Fifo)
    } else if m == 0x2000 {
        Some(Filetype::CharacterDevice)
    } else if m == 0x4000 {
        Some(Filetype::Directory)
    } else if m == 0x6000 {
        Some(Filetype::BlockDevice)
    } else if m == 0x8000 {
        Some(Filetype::Regular)
    } else if m == 0xA000 {
        Some(Filetype::SymbolicLink)
    } else if m == 0xC000 {
        Some(Filetype::Socket)
    } else {
        None
    }
}

/// One file's or directory's decoded metadata.
#[derive(Debug, Clone, PartialEq, Eq)]
pub struct Inode {
    /// Permission and type bits.
    pub mode: u16,
    /// Size in bytes.
    pub size: u64,
    /// The 60-byte block-mapping payload.
    pub block: Vec<u8>,
}

impl Inode {
    /// The payload always holds exactly its on-disk width.
    pub open spec fn wf(self) -> bool {
        self.block@.len() == INODE_BLOCK_PAYLOAD_LEN
    }

    /// This inode is exactly what decoding `region` (one inode record)
    /// yields.
    pub open spec fn matches_region(self, region: Seq<u8>) -> bool {
        &&& self.mode == le16_at(region, 0x0)
        &&& self.size == lohi_at(region, 0x4, 0x6C)
        &&& self.block@ == region.subrange(0x28, 0x28 + INODE_BLOCK_PAYLOAD_LEN)
    }

    /// Decode one inode record.
    pub fn decode(region: &[u8]) -> (r: Inode)
        requires
            region@.len() == INODE_REGION_LEN,
        ensures
            r.matches_region(region@),
            r.wf(),
    {
        let mode = le16(region, 0x0);
        let lo = le32(region, 0x4);
        let hi = le32(region, 0x6C);
        let size = lo as u64 + (hi as u64) * 0x1_0000_0000;
        let mut block: Vec<u8> = Vec::new();
        let mut i: usize = 0;
        while i < INODE_BLOCK_PAYLOAD_LEN
            invariant
                region@.len() == INODE_REGION_LEN,
                i <= INODE_BLOCK_PAYLOAD_LEN,
                block@ == region@.subrange(0x28, 0x28 + i),
            decreases INODE_BLOCK_PAYLOAD_LEN - i,
        {
            block.push(region[0x28 + i]);
            assert(block@ == region@.subrange(0x28, 0x28 + i + 1));
            i = i + 1;
        }
        Inode { mode, size, block }
    }

    /// The filetype derived from the mode's top four bits; a format error
    /// (offset relative to the inode record, expected zero standing for
    /// the set of defined type codes) if the masked value matches none.
    pub fn filetype(&self) -> (r: Result<Filetype, Error>)
        ensures
            r matches Ok(ft) ==> spec_filetype_of_mode(self.mode) == Some(ft),
            r matches Err(e) ==> spec_filetype_of_mode(self.mode) is None && e == (Error::Format {
                structure: Structure::Inode,
                offset: 0,
                expected: 0,
                found: (self.mode & 0xF000) as u64,
            }),
    {
        let m = self.mode & 0xF000;
        if m == 0x1000 {
            Ok(Filetype::Fifo)
        } else if m == 0x2000 {
            Ok(Filetype::CharacterDevice)
        } else if m == 0x4000 {
            Ok(Filetype::Directory)
        } else if m == 0x6000 {
            Ok(Filetype::BlockDevice)
        } else if m == 0x8000 {
            Ok(Filetype::Regular)
        } else if m == 0xA000 {
            Ok(Filetype::SymbolicLink)
        } else if m == 0xC000 {
            Ok(Filetype::Socket)
        } else {
            Err(Error::Format { structure: Structure::Inode, offset: 0, expected: 0, found: m as u64 })
        }
    }
}

/// A 1-based global inode identifier.
#[derive(Debug, Clone, Copy, PartialEq, Eq, Structural)]
pub struct InodeNumber(pub u64);

impl InodeNumber {
    /// Inode numbers start at one.
    pub open spec fn wf(self) -> bool {
        1 <= self.0
    }

    /// The block group owning this inode: `(n - 1) / inodes_per_group`.
    pub fn blockgroup_number(self, sb: &Superblock) -> (r: BlockGroupNumber)
        requires
            self.wf(),
            sb.wf(),
        ensures
            r.0 == (self.0 - 1) as int / sb.inodes_per_group as int,
    {
        BlockGroupNumber((self.0 - 1) / sb.inodes_per_group)
    }

    /// This inode's slot within its group's table:
    /// `(n - 1) % inodes_per_group`.
    pub fn index_in_group(self, sb: &Superblock) -> (r: u64)
        requires
            self.wf(),
            sb.wf(),
        ensures
            r == (self.0 - 1) as int % sb.inodes_per_group as int,
    {
        (self.0 - 1) % sb.inodes_per_group
    }

    /// The absolute byte offset of this inode's record: the inode table's
    /// block times the block size, plus the slot index times the record
    /// size.
    pub open spec fn spec_offset(self, sb: Superblock, inode_table: int) -> int {
        inode_table * sb.block_size + ((self.0 - 1) as int % sb.inodes_per_group as int)
            * sb.inode_size
    }

    /// What fetching this inode's record region from an image means:
    /// resolve the group descriptor, then cut the record out of the inode
    /// table.  Requires the record to be wide enough for every field the
    /// engine reads.
    pub open spec fn spec_region(self, contents: Seq<u8>, sb: Superblock) -> Result<Seq<u8>, Error> {
        let group = BlockGroupNumber(((self.0 - 1) as int / sb.inodes_per_group as int) as u64);
        match group.spec_desc(contents, sb) {
            Err(e) => Err(e),
            Ok(desc) => {
                let off = self.spec_offset(sb, desc.inode_table as int);
                if sb.inode_size < INODE_REGION_LEN {
                    Err(Error::Format {
                        structure: Structure::Superblock,
                        offset: (SUPERBLOCK_OFFSET + 0x58) as u64,
                        expected: INODE_REGION_LEN as u64,
                        found: sb.inode_size,
                    })
                } else if off + INODE_REGION_LEN > u64::MAX {
                    Err(Error::Unsupported { kind: UnsupportedKind::OffsetOverflow, found: self.0 })
                } else if off + INODE_REGION_LEN <= contents.len() {
                    Ok(contents.subrange(off, off + INODE_REGION_LEN))
                } else {
                    Err(Error::Io { offset: off as u64, len: INODE_REGION_LEN as u64 })
                }
            },
        }
    }

    /// Fetch and decode this inode's record.
    ///
    /// Apart from a read failure of the source itself, the outcome is
    /// exactly a decode of the `spec_region` record.
    pub fn inode<S: ReadSource>(self, sb: &Superblock, dev: &S) -> (r: Result<Inode, Error>)
        requires
            self.wf(),
            sb.wf(),
        ensures
            (r matches Err(e) && e.is_io()) || inode_result_matches(
                r,
                self.spec_region(dev.contents(), *sb),
            ),
            r matches Ok(ino) ==> ino.wf(),
            sb.block_size == 1024 ==> r == Err::<Inode, Error>(
                Error::Unsupported { kind: UnsupportedKind::LegacyBlockSize, found: 1024 },
            ),
            dev.infallible() ==> inode_result_matches(r, self.spec_region(dev.contents(), *sb)),
    {
        let group = self.blockgroup_number(sb);
        let desc = match group.desc(sb, dev) {
            Ok(d) => d,
            Err(e) => {
                return Err(e);
            },
        };
        if sb.inode_size < INODE_REGION_LEN as u64 {
            return Err(Error::Format {
                structure: Structure::Superblock,
                offset: SUPERBLOCK_OFFSET + 0x58,
                expected: INODE_REGION_LEN as u64,
                found: sb.inode_size,
            });
        }
        let table_off = match desc.inode_table.checked_mul(sb.block_size) {
            Some(x) => x,
            None => {
                return Err(
                    Error::Unsupported { kind: UnsupportedKind::OffsetOverflow, found: self.0 },
                );
            },
        };
        let slot_off = match self.index_in_group(sb).checked_mul(sb.inode_size) {
            Some(x) => x,
            None => {
                return Err(
                    Error::Unsupported { kind: UnsupportedKind::OffsetOverflow, found: self.0 },
                );
            },
        };
        let off = match table_off.checked_add(slot_off) {
            Some(x) => x,
            None => {
                return Err(
                    Error::Unsupported { kind: UnsupportedKind::OffsetOverflow, found: self.0 },
                );
            },
        };
        if off > u64::MAX - INODE_REGION_LEN as u64 {
            return Err(Error::Unsupported { kind: UnsupportedKind::OffsetOverflow, found: self.0 });
        }
        let region = Reader::new(dev).vec(off, INODE_REGION_LEN)?;
        Ok(Inode::decode(&region))
    }
}

/// An inode fetch agrees with its specification: same error, or a decode
/// of the very record region the specification cuts out.
pub open spec fn inode_result_matches(r: Result<Inode, Error>, s: Result<Seq<u8>, Error>) -> bool {
    match (r, s) {
        (Ok(ino), Ok(region)) => ino.matches_region(region),
        (Err(a), Err(b)) => a == b,
        _ => false,
    }
}

} // verus!
