//! Field-level decoding: superblock, group descriptor, inode, extent and
//! directory entry regions built byte by byte.

use ext4_read::dir::{decode_dir_entries, find_child, DirectoryEntry};
use ext4_read::error::{Error, Structure, UnsupportedKind};
use ext4_read::extent::{resolve_data_range, DataRange};
use ext4_read::group::BlockGroupDescriptor;
use ext4_read::inode::{Filetype, Inode};
use ext4_read::superblock::Superblock;

fn put16(buf: &mut [u8], off: usize, v: u16) {
    buf[off] = (v & 0xFF) as u8;
    buf[off + 1] = (v >> 8) as u8;
}

fn put32(buf: &mut [u8], off: usize, v: u32) {
    buf[off] = (v & 0xFF) as u8;
    buf[off + 1] = ((v >> 8) & 0xFF) as u8;
    buf[off + 2] = ((v >> 16) & 0xFF) as u8;
    buf[off + 3] = ((v >> 24) & 0xFF) as u8;
}

fn sb_region(magic: u16, log: u32, bpg: u32, ipg: u32, isz: u16) -> Vec<u8> {
    let mut buf = vec![0u8; 0x5A];
    put32(&mut buf, 0x18, log);
    put32(&mut buf, 0x20, bpg);
    put32(&mut buf, 0x28, ipg);
    put16(&mut buf, 0x38, magic);
    put16(&mut buf, 0x58, isz);
    buf
}

#[test]
fn superblock_block_size_follows_log_for_all_supported_logs() {
    for log in 0u32..=6 {
        let region = sb_region(0xEF53, log, 32768, 8192, 256);
        let sb = Superblock::decode(&region).unwrap();
        assert_eq!(sb.block_size, 1024u64 << log);
        assert_eq!(sb.log_block_size, log);
    }
}

#[test]
fn superblock_fields_decode_exactly() {
    let region = sb_region(0xEF53, 2, 32768, 8192, 256);
    let sb = Superblock::decode(&region).unwrap();
    assert_eq!(sb.magic, 0xEF53);
    assert_eq!(sb.block_size, 4096);
    assert_eq!(sb.blocks_per_group, 32768);
    assert_eq!(sb.inodes_per_group, 8192);
    assert_eq!(sb.inode_size, 256);
}

#[test]
fn superblock_bad_magic_is_a_format_error() {
    let region = sb_region(0xEF54, 1, 32768, 8192, 256);
    assert_eq!(
        Superblock::decode(&region),
        Err(Error::Format {
            structure: Structure::Superblock,
            offset: 1024 + 0x38,
            expected: 0xEF53,
            found: 0xEF54,
        })
    );
}

#[test]
fn superblock_oversized_log_is_a_format_error() {
    let region = sb_region(0xEF53, 7, 32768, 8192, 256);
    match Superblock::decode(&region) {
        Err(Error::Format { structure: Structure::Superblock, offset, found, .. }) => {
            assert_eq!(offset, 1024 + 0x18);
            assert_eq!(found, 7);
        }
        other => panic!("expected a format error, got {:?}", other),
    }
}

#[test]
fn superblock_zero_inodes_per_group_is_a_format_error() {
    let region = sb_region(0xEF53, 1, 32768, 0, 256);
    match Superblock::decode(&region) {
        Err(Error::Format { structure: Structure::Superblock, offset, .. }) => {
            assert_eq!(offset, 1024 + 0x28);
        }
        other => panic!("expected a format error, got {:?}", other),
    }
}

#[test]
fn superblock_round_trips_through_encode() {
    let region = sb_region(0xEF53, 3, 4321, 1234, 128);
    let sb = Superblock::decode(&region).unwrap();
    let encoded = sb.encode();
    let again = Superblock::decode(&encoded).unwrap();
    assert_eq!(sb, again);
}

#[test]
fn group_descriptor_reassembles_split_inode_table_block() {
    let mut region = vec![0u8; 0x2C];
    put32(&mut region, 0x8, 0x11223344);
    put32(&mut region, 0x28, 0x55);
    let desc = BlockGroupDescriptor::decode(&region);
    assert_eq!(desc.inode_table, 0x55_1122_3344);
}

fn inode_region(mode: u16, size_lo: u32, size_hi: u32) -> Vec<u8> {
    let mut region = vec![0u8; 0x70];
    put16(&mut region, 0x0, mode);
    put32(&mut region, 0x4, size_lo);
    put32(&mut region, 0x6C, size_hi);
    region
}

#[test]
fn inode_decodes_mode_split_size_and_payload() {
    let mut region = inode_region(0x81A4, 0x1000, 0x2);
    for i in 0..60 {
        region[0x28 + i] = i as u8;
    }
    let ino = Inode::decode(&region);
    assert_eq!(ino.mode, 0x81A4);
    assert_eq!(ino.size, 0x2_0000_1000);
    assert_eq!(ino.block.len(), 60);
    assert_eq!(ino.block[0], 0);
    assert_eq!(ino.block[59], 59);
}

#[test]
fn filetype_maps_every_defined_code() {
    let cases = [
        (0x1000u16, Filetype::Fifo),
        (0x2000, Filetype::CharacterDevice),
        (0x4000, Filetype::Directory),
        (0x6000, Filetype::BlockDevice),
        (0x8000, Filetype::Regular),
        (0xA000, Filetype::SymbolicLink),
        (0xC000, Filetype::Socket),
    ];
    for (code, expected) in cases {
        let ino = Inode::decode(&inode_region(code | 0x1A4, 0, 0));
        assert_eq!(ino.filetype().unwrap(), expected);
    }
}

#[test]
fn filetype_of_an_undefined_code_is_a_format_error() {
    let ino = Inode::decode(&inode_region(0x3000, 0, 0));
    assert_eq!(
        ino.filetype(),
        Err(Error::Format { structure: Structure::Inode, offset: 0, expected: 0, found: 0x3000 })
    );
}

fn extent_payload(magic: u16, entries: u16, depth: u16, len: u16, hi: u16, lo: u32) -> Vec<u8> {
    let mut payload = vec![0u8; 60];
    put16(&mut payload, 0x0, magic);
    put16(&mut payload, 0x2, entries);
    put16(&mut payload, 0x6, depth);
    put16(&mut payload, 12 + 0x4, len);
    put16(&mut payload, 12 + 0x6, hi);
    put32(&mut payload, 12 + 0x8, lo);
    payload
}

#[test]
fn extent_of_length_one_at_block_100_spans_one_block_from_block_100() {
    let payload = extent_payload(0xF30A, 1, 0, 1, 0, 100);
    for bs in [1024u64, 2048, 4096, 65536] {
        let range = resolve_data_range(&payload, bs).unwrap();
        assert_eq!(range, DataRange { offset: 100 * bs, len: bs });
    }
}

#[test]
fn extent_start_uses_both_halves() {
    let payload = extent_payload(0xF30A, 1, 0, 1, 0x2, 0x10);
    let range = resolve_data_range(&payload, 1024).unwrap();
    assert_eq!(range.offset, ((0x2u64 << 32) + 0x10) * 1024);
}

#[test]
fn extent_bad_magic_is_a_format_error() {
    let payload = extent_payload(0xF30B, 1, 0, 1, 0, 100);
    assert_eq!(
        resolve_data_range(&payload, 1024),
        Err(Error::Format {
            structure: Structure::ExtentHeader,
            offset: 0,
            expected: 0xF30A,
            found: 0xF30B,
        })
    );
}

#[test]
fn extent_depth_other_than_zero_is_unsupported() {
    let payload = extent_payload(0xF30A, 1, 1, 1, 0, 100);
    assert_eq!(
        resolve_data_range(&payload, 1024),
        Err(Error::Unsupported { kind: UnsupportedKind::ExtentDepth, found: 1 })
    );
}

#[test]
fn extent_entry_count_other_than_one_is_unsupported() {
    for entries in [0u16, 2, 7] {
        let payload = extent_payload(0xF30A, entries, 0, 1, 0, 100);
        assert_eq!(
            resolve_data_range(&payload, 1024),
            Err(Error::Unsupported {
                kind: UnsupportedKind::ExtentEntryCount,
                found: entries as u64,
            })
        );
    }
}

#[test]
fn extent_length_other_than_one_block_is_unsupported() {
    let payload = extent_payload(0xF30A, 1, 0, 3, 0, 100);
    assert_eq!(
        resolve_data_range(&payload, 1024),
        Err(Error::Unsupported { kind: UnsupportedKind::ExtentLength, found: 3 })
    );
}

fn push_entry(data: &mut Vec<u8>, inode: u32, rec_len: u16, name: &[u8]) {
    let start = data.len();
    data.resize(start + rec_len as usize, 0);
    put32(&mut data[start..], 0x0, inode);
    put16(&mut data[start..], 0x4, rec_len);
    data[start + 0x6] = name.len() as u8;
    data[start + 0x8..start + 0x8 + name.len()].copy_from_slice(name);
}

fn three_names_then_sentinel() -> Vec<u8> {
    let mut data = Vec::new();
    push_entry(&mut data, 2, 12, b".");
    push_entry(&mut data, 2, 12, b"..");
    push_entry(&mut data, 11, 12, b"etc");
    push_entry(&mut data, 0, 12, b"junk");
    push_entry(&mut data, 99, 16, b"after");
    data
}

#[test]
fn enumeration_stops_at_the_sentinel_and_keeps_order() {
    let data = three_names_then_sentinel();
    let entries = decode_dir_entries(&data).unwrap();
    assert_eq!(entries.len(), 3);
    assert_eq!(entries[0].name, b".".to_vec());
    assert_eq!(entries[1].name, b"..".to_vec());
    assert_eq!(entries[2].name, b"etc".to_vec());
    assert_eq!(entries[2].inode, 11);
}

#[test]
fn enumeration_of_an_exhausted_region_stops_cleanly() {
    let mut data = Vec::new();
    push_entry(&mut data, 7, 16, b"only");
    let entries = decode_dir_entries(&data).unwrap();
    assert_eq!(entries.len(), 1);
    assert_eq!(entries[0].inode, 7);
    assert_eq!(entries[0].name, b"only".to_vec());
}

#[test]
fn entry_name_running_past_the_region_is_a_format_error() {
    let mut data = Vec::new();
    push_entry(&mut data, 7, 16, b"name");
    data.truncate(10);
    match decode_dir_entries(&data) {
        Err(Error::Format { structure: Structure::DirectoryEntry, offset: 0, .. }) => {}
        other => panic!("expected a format error, got {:?}", other),
    }
}

#[test]
fn entry_record_too_short_for_its_name_is_a_format_error() {
    let mut data = vec![0u8; 24];
    put32(&mut data, 0x0, 7);
    put16(&mut data, 0x4, 9);
    data[0x6] = 4;
    data[0x8..0xC].copy_from_slice(b"name");
    match decode_dir_entries(&data) {
        Err(Error::Format { structure: Structure::DirectoryEntry, offset: 0, expected, found }) => {
            assert_eq!(expected, 12);
            assert_eq!(found, 9);
        }
        other => panic!("expected a format error, got {:?}", other),
    }
}

fn entry(inode: u64, name: &[u8]) -> DirectoryEntry {
    DirectoryEntry { inode, rec_len: 8 + name.len() as u64, name: name.to_vec() }
}

#[test]
fn lookup_finds_first_and_last_names_and_misses_absent_ones() {
    let entries = vec![entry(2, b"."), entry(5, b"alpha"), entry(9, b"omega")];
    assert_eq!(find_child(&entries, b".").map(|n| n.0), Some(2));
    assert_eq!(find_child(&entries, b"alpha").map(|n| n.0), Some(5));
    assert_eq!(find_child(&entries, b"omega").map(|n| n.0), Some(9));
    assert_eq!(find_child(&entries, b"missing"), None);
    assert_eq!(find_child(&entries, b"alph"), None);
}

#[test]
fn lookup_returns_the_first_of_duplicate_names() {
    let entries = vec![entry(3, b"twin"), entry(4, b"twin")];
    assert_eq!(find_child(&entries, b"twin").map(|n| n.0), Some(3));
}
