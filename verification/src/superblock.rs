//! The superblock: filesystem-wide geometry decoded from a fixed offset.
//!
//! The superblock region starts at absolute byte 1024.  Within it the
//! engine reads the magic signature at +0x38, the logarithmic block size
//! at +0x18, blocks per group at +0x20, inodes per group at +0x28 and the
//! inode record size at +0x58.  The block size is exactly
//! `1024 << log_block_size`; all downstream offset arithmetic depends on
//! that equation.

use vstd::arithmetic::div_mod::{lemma_breakdown, lemma_fundamental_div_mod, lemma_small_mod};
use vstd::prelude::*;

use crate::error::{Error, Structure};
use crate::reader::{le16, le16_at, le32, le32_at, Reader};
use crate::source::ReadSource;

verus! {

/// Absolute byte offset of the superblock region.
pub const SUPERBLOCK_OFFSET: u64 = 1024;

/// Number of bytes of the superblock region the engine decodes: enough to
/// cover the last field it reads, the inode size at +0x58.
pub const SUPERBLOCK_REGION_LEN: usize = 0x5A;

/// The filesystem's defined signature.
pub const SUPERBLOCK_MAGIC: u16 = 0xEF53;

/// Largest supported logarithmic block size: `1024 << 6` is a 64 KiB
/// block, the format's maximum.
pub const MAX_LOG_BLOCK_SIZE: u32 = 6;

/// Filesystem-wide geometry.
#[derive(Debug, Clone, Copy, PartialEq, Eq, Structural)]
pub struct Superblock {
    pub magic: u16,
    pub log_block_size: u32,
    pub block_size: u64,
    pub blocks_per_group: u64,
    pub inodes_per_group: u64,
    pub inode_size: u64,
}

/// The byte `k` (little-endian position, 0 is least significant) of the
/// nonnegative value `v`.
pub open spec fn byte_of(v: int, k: int) -> u8 {
    (((v / if k == 0 {
        1
    } else if k == 1 {
        0x100
    } else if k == 2 {
        0x10000
    } else {
        0x1000000
    }) % 0x100) as u8)
}

impl Superblock {
    /// Every superblock the engine hands out satisfies this: the magic
    /// matches, the block size is exactly `1024 << log_block_size` with
    /// the logarithm in the supported range, the group holds at least one
    /// inode, and each field fits the width of its on-disk encoding.
    pub open spec fn wf(self) -> bool {
        &&& self.magic == SUPERBLOCK_MAGIC
        &&& self.log_block_size <= MAX_LOG_BLOCK_SIZE
        &&& self.block_size == (1024u64 << (self.log_block_size as u64))
        &&& 1024 <= self.block_size <= 0x10000
        &&& 1 <= self.inodes_per_group <= 0xFFFF_FFFF
        &&& self.blocks_per_group <= 0xFFFF_FFFF
        &&& self.inode_size <= 0xFFFF
    }

    /// What decoding a superblock region means.  The region is the
    /// `SUPERBLOCK_REGION_LEN` bytes starting at absolute offset 1024;
    /// error offsets are absolute.
    pub open spec fn spec_decode(region: Seq<u8>) -> Result<Superblock, Error>
        recommends
            region.len() == SUPERBLOCK_REGION_LEN,
    {
        let magic = le16_at(region, 0x38);
        let log = le32_at(region, 0x18);
        let bpg = le32_at(region, 0x20);
        let ipg = le32_at(region, 0x28);
        let isz = le16_at(region, 0x58);
        if magic != SUPERBLOCK_MAGIC {
            Err(Error::Format {
                structure: Structure::Superblock,
                offset: (SUPERBLOCK_OFFSET + 0x38) as u64,
                expected: SUPERBLOCK_MAGIC as u64,
                found: magic as u64,
            })
        } else if log > MAX_LOG_BLOCK_SIZE {
            Err(Error::Format {
                structure: Structure::Superblock,
                offset: (SUPERBLOCK_OFFSET + 0x18) as u64,
                expected: MAX_LOG_BLOCK_SIZE as u64,
                found: log as u64,
            })
        } else if ipg == 0 {
            Err(Error::Format {
                structure: Structure::Superblock,
                offset: (SUPERBLOCK_OFFSET + 0x28) as u64,
                expected: 1,
                found: 0,
            })
        } else {
            Ok(
                Superblock {
                    magic: magic as u16,
                    log_block_size: log as u32,
                    block_size: (1024u64 << (log as u64)),
                    blocks_per_group: bpg as u64,
                    inodes_per_group: ipg as u64,
                    inode_size: isz as u64,
                },
            )
        }
    }

    /// Decode the fields of a superblock region.
    ///
    /// Succeeds if and only if the magic matches the signature, the
    /// logarithmic block size is supported, and the group holds at least
    /// one inode; the error names the offending absolute offset and value.
    pub fn decode(region: &[u8]) -> (r: Result<Superblock, Error>)
        requires
            region@.len() == SUPERBLOCK_REGION_LEN,
        ensures
            r == Self::spec_decode(region@),
            r matches Ok(sb) ==> sb.wf(),
    {
        let magic = le16(region, 0x38);
        let log = le32(region, 0x18);
        let bpg = le32(region, 0x20);
        let ipg = le32(region, 0x28);
        let isz = le16(region, 0x58);
        if magic != SUPERBLOCK_MAGIC {
            return Err(Error::Format {
                structure: Structure::Superblock,
                offset: SUPERBLOCK_OFFSET + 0x38,
                expected: SUPERBLOCK_MAGIC as u64,
                found: magic as u64,
            });
        }
        if log > MAX_LOG_BLOCK_SIZE {
            return Err(Error::Format {
                structure: Structure::Superblock,
                offset: SUPERBLOCK_OFFSET + 0x18,
                expected: MAX_LOG_BLOCK_SIZE as u64,
                found: log as u64,
            });
        }
        if ipg == 0 {
            return Err(Error::Format {
                structure: Structure::Superblock,
                offset: SUPERBLOCK_OFFSET + 0x28,
                expected: 1,
                found: 0,
            });
        }
        let block_size = 1024u64 << (log as u64);
        proof {
            assert(log <= 6 ==> 1024 <= (1024u64 << (log as u64)) <= 0x10000) by (bit_vector);
        }
        Ok(
            Superblock {
                magic,
                log_block_size: log,
                block_size,
                blocks_per_group: bpg as u64,
                inodes_per_group: ipg as u64,
                inode_size: isz as u64,
            },
        )
    }

    /// What fetching and decoding the superblock of a whole image means.
    pub open spec fn spec_new(contents: Seq<u8>) -> Result<Superblock, Error> {
        if SUPERBLOCK_OFFSET + SUPERBLOCK_REGION_LEN <= contents.len() {
            Self::spec_decode(
                contents.subrange(
                    SUPERBLOCK_OFFSET as int,
                    SUPERBLOCK_OFFSET + SUPERBLOCK_REGION_LEN,
                ),
            )
        } else {
            Err(Error::Io { offset: SUPERBLOCK_OFFSET as u64, len: SUPERBLOCK_REGION_LEN as u64 })
        }
    }

    /// Read the fixed-offset header of a device or image and decode it.
    ///
    /// Apart from a read failure of the source itself, the outcome is
    /// exactly `spec_new` of the source's contents; on a source whose
    /// in-bounds reads cannot fail it is exactly that.
    pub fn new<S: ReadSource>(dev: &S) -> (r: Result<Superblock, Error>)
        ensures
            r == Self::spec_new(dev.contents()) || (r matches Err(e) && e.is_io()),
            r matches Ok(sb) ==> sb.wf(),
            dev.infallible() ==> r == Self::spec_new(dev.contents()),
    {
        let region = Reader::new(dev).vec(SUPERBLOCK_OFFSET, SUPERBLOCK_REGION_LEN)?;
        Self::decode(&region)
    }

    /// The encoded superblock region of a decoded superblock: every field
    /// written back at its own offset, zero elsewhere.
    pub open spec fn spec_encode(self) -> Seq<u8> {
        Seq::new(
            SUPERBLOCK_REGION_LEN as nat,
            |i: int|
                {
                    if 0x18 <= i < 0x1C {
                        byte_of(self.log_block_size as int, i - 0x18)
                    } else if 0x20 <= i < 0x24 {
                        byte_of(self.blocks_per_group as int, i - 0x20)
                    } else if 0x28 <= i < 0x2C {
                        byte_of(self.inodes_per_group as int, i - 0x28)
                    } else if 0x38 <= i < 0x3A {
                        byte_of(self.magic as int, i - 0x38)
                    } else if 0x58 <= i < 0x5A {
                        byte_of(self.inode_size as int, i - 0x58)
                    } else {
                        0u8
                    }
                },
        )
    }

    /// The byte at position `i` of this superblock's encoded region.
    fn encode_byte(&self, i: usize) -> (r: u8)
        requires
            i < SUPERBLOCK_REGION_LEN,
        ensures
            r == self.spec_encode()[i as int],
    {
        if 0x18 <= i && i < 0x1C {
            byte_at(self.log_block_size as u64, i - 0x18)
        } else if 0x20 <= i && i < 0x24 {
            byte_at(self.blocks_per_group, i - 0x20)
        } else if 0x28 <= i && i < 0x2C {
            byte_at(self.inodes_per_group, i - 0x28)
        } else if 0x38 <= i && i < 0x3A {
            byte_at(self.magic as u64, i - 0x38)
        } else if 0x58 <= i && i < 0x5A {
            byte_at(self.inode_size, i - 0x58)
        } else {
            0u8
        }
    }

    /// Re-encode the superblock's fields as a superblock byte region.
    pub fn encode(&self) -> (r: Vec<u8>)
        ensures
            r@ == self.spec_encode(),
    {
        let mut v: Vec<u8> = Vec::new();
        let mut i: usize = 0;
        while i < SUPERBLOCK_REGION_LEN
            invariant
                i <= SUPERBLOCK_REGION_LEN,
                v@.len() == i,
                forall|j: int| 0 <= j < i ==> v@[j] == self.spec_encode()[j],
            decreases SUPERBLOCK_REGION_LEN - i,
        {
            v.push(self.encode_byte(i));
            i = i + 1;
        }
        proof {
            assert(v@ =~= self.spec_encode());
        }
        v
    }
}

/// The byte `k` (0 is least significant) of `v`.
fn byte_at(v: u64, k: usize) -> (r: u8)
    requires
        k <= 3,
    ensures
        r == byte_of(v as int, k as int),
{
    let d: u64 = if k == 0 {
        1
    } else if k == 1 {
        0x100
    } else if k == 2 {
        0x10000
    } else {
        0x1000000
    };
    ((v / d) % 0x100) as u8
}

/// A value below 2^16 is recovered from its two little-endian bytes.
proof fn lemma_le16_of_bytes(v: int)
    requires
        0 <= v < 0x10000,
    ensures
        byte_of(v, 0) + 0x100 * byte_of(v, 1) == v,
{
    lemma_fundamental_div_mod(v, 0x100);
    lemma_small_mod((v / 0x100) as nat, 0x100);
}

/// A value below 2^32 is recovered from its four little-endian bytes.
proof fn lemma_le32_of_bytes(v: int)
    requires
        0 <= v < 0x1_0000_0000,
    ensures
        byte_of(v, 0) + 0x100 * byte_of(v, 1) + 0x10000 * (byte_of(v, 2) + 0x100 * byte_of(
            v,
            3,
        )) == v,
{
    lemma_breakdown(v, 0x100, 0x100);
    assert(v % 0x10000 == 0x100 * ((v / 0x100) % 0x100) + v % 0x100);
    lemma_fundamental_div_mod(v, 0x10000);
    lemma_small_mod((v / 0x10000) as nat, 0x10000);
    lemma_le16_of_bytes(v / 0x10000);
    assert(byte_of(v, 2) == byte_of(v / 0x10000, 0));
    assert(byte_of(v, 3) == byte_of(v / 0x10000, 1));
}

/// A region that carries the signature, a supported logarithmic block
/// size and a nonzero inodes-per-group count decodes successfully, to
/// exactly the field values stored at their offsets — in particular with
/// the block size exactly `1024 << log_block_size`, for every supported
/// logarithm.
pub proof fn lemma_valid_superblock_region_decodes(region: Seq<u8>)
    requires
        region.len() == SUPERBLOCK_REGION_LEN,
        le16_at(region, 0x38) == SUPERBLOCK_MAGIC,
        le32_at(region, 0x18) <= MAX_LOG_BLOCK_SIZE,
        1 <= le32_at(region, 0x28),
    ensures
        Superblock::spec_decode(region) == Ok::<Superblock, Error>(
            Superblock {
                magic: SUPERBLOCK_MAGIC,
                log_block_size: le32_at(region, 0x18) as u32,
                block_size: (1024u64 << (le32_at(region, 0x18) as u64)),
                blocks_per_group: le32_at(region, 0x20) as u64,
                inodes_per_group: le32_at(region, 0x28) as u64,
                inode_size: le16_at(region, 0x58) as u64,
            },
        ),
        Superblock::spec_decode(region) matches Ok(sb) && sb.wf(),
{
    let l: u64 = le32_at(region, 0x18) as u64;
    assert(l <= 6 ==> 1024 <= (1024u64 << l) <= 0x10000) by (bit_vector);
}

/// Decoding a re-encoded superblock region yields the same field values:
/// no field is lost, reordered or truncated.
pub proof fn lemma_superblock_round_trip(sb: Superblock)
    requires
        sb.wf(),
    ensures
        Superblock::spec_decode(sb.spec_encode()) == Ok::<Superblock, Error>(sb),
{
    let s = sb.spec_encode();
    assert(le16_at(s, 0x38) == sb.magic) by {
        lemma_le16_of_bytes(sb.magic as int);
    }
    assert(le16_at(s, 0x58) == sb.inode_size) by {
        lemma_le16_of_bytes(sb.inode_size as int);
    }
    assert(le32_at(s, 0x18) == sb.log_block_size) by {
        lemma_le32_of_bytes(sb.log_block_size as int);
    }
    assert(le32_at(s, 0x20) == sb.blocks_per_group) by {
        lemma_le32_of_bytes(sb.blocks_per_group as int);
    }
    assert(le32_at(s, 0x28) == sb.inodes_per_group) by {
        lemma_le32_of_bytes(sb.inodes_per_group as int);
    }
}

} // verus!
