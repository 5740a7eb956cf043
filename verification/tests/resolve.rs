//! End-to-end traversal over a synthetic minimal image.

use ext4_read::dir::resolve_path;
use ext4_read::error::{Error, UnsupportedKind};
use ext4_read::extent::DataRange;
use ext4_read::inode::{Filetype, InodeNumber};
use ext4_read::source::MemSource;
use ext4_read::superblock::Superblock;

fn put16(buf: &mut [u8], off: usize, v: u16) {
    buf[off] = (v & 0xFF) as u8;
    buf[off + 1] = (v >> 8) as u8;
}

fn put32(buf: &mut [u8], off: usize, v: u32) {
    buf[off] = (v & 0xFF) as u8;
    buf[off + 1] = ((v >> 8) & 0xFF) as u8;
    buf[off + 2] = ((v >> 16) & 0xFF) as u8;
    buf[off + 3] = ((v >> 24) & 0xFF) as u8;
}

fn put_entry(buf: &mut [u8], off: usize, inode: u32, rec_len: u16, name: &[u8]) {
    put32(buf, off, inode);
    put16(buf, off + 0x4, rec_len);
    buf[off + 0x6] = name.len() as u8;
    buf[off + 0x8..off + 0x8 + name.len()].copy_from_slice(name);
}

const BLOCK: usize = 2048;
const INODE_SIZE: usize = 256;
const INODES_PER_GROUP: u32 = 8;

/// A minimal image: a superblock (2 KiB blocks), two block groups whose
/// inode tables sit at blocks 5 and 6, a root directory (inode 2) with
/// entries ".", ".." and "etc", and a regular file (inode 11, in the
/// second group) whose one extent sits at block 100.
fn minimal_image() -> Vec<u8> {
    let mut img = vec![0u8; 21 * BLOCK + BLOCK];
    // Superblock at byte 1024.
    put16(&mut img, 1024 + 0x38, 0xEF53);
    put32(&mut img, 1024 + 0x18, 1);
    put32(&mut img, 1024 + 0x20, 32768);
    put32(&mut img, 1024 + 0x28, INODES_PER_GROUP);
    put16(&mut img, 1024 + 0x58, INODE_SIZE as u16);
    // Group descriptor table one block in; 64-byte records.
    let gdt = BLOCK;
    put32(&mut img, gdt + 0x8, 5); // group 0: inode table at block 5
    put32(&mut img, gdt + 64 + 0x8, 6); // group 1: inode table at block 6
    // Root directory, inode 2: group 0, slot 1.
    let root = 5 * BLOCK + 1 * INODE_SIZE;
    put16(&mut img, root + 0x0, 0x41ED);
    put32(&mut img, root + 0x4, BLOCK as u32);
    let payload = root + 0x28;
    put16(&mut img, payload + 0x0, 0xF30A);
    put16(&mut img, payload + 0x2, 1);
    put16(&mut img, payload + 0x6, 0);
    put16(&mut img, payload + 12 + 0x4, 1);
    put16(&mut img, payload + 12 + 0x6, 0);
    put32(&mut img, payload + 12 + 0x8, 20); // root data at block 20
    // The file, inode 11: group (11-1)/8 = 1, slot (11-1)%8 = 2.
    let file = 6 * BLOCK + 2 * INODE_SIZE;
    put16(&mut img, file + 0x0, 0x81A4);
    put32(&mut img, file + 0x4, 13);
    let fpayload = file + 0x28;
    put16(&mut img, fpayload + 0x0, 0xF30A);
    put16(&mut img, fpayload + 0x2, 1);
    put16(&mut img, fpayload + 0x6, 0);
    put16(&mut img, fpayload + 12 + 0x4, 1);
    put16(&mut img, fpayload + 12 + 0x6, 0);
    put32(&mut img, fpayload + 12 + 0x8, 100); // file data at block 100
    // Root directory data at block 20.
    let data = 20 * BLOCK;
    put_entry(&mut img, data, 2, 12, b".");
    put_entry(&mut img, data + 12, 2, 12, b"..");
    put_entry(&mut img, data + 24, 11, 12, b"etc");
    put_entry(&mut img, data + 36, 0, 12, b"");
    img
}

#[test]
fn resolving_a_present_component_yields_its_inode_number() {
    let src = MemSource::new(minimal_image());
    let sb = Superblock::new(&src).unwrap();
    let found = resolve_path(&src, &sb, &[b"etc".to_vec()]).unwrap();
    assert_eq!(found, Some(InodeNumber(11)));
}

#[test]
fn resolving_an_absent_component_is_not_found_not_an_error() {
    let src = MemSource::new(minimal_image());
    let sb = Superblock::new(&src).unwrap();
    let found = resolve_path(&src, &sb, &[b"missing".to_vec()]).unwrap();
    assert_eq!(found, None);
}

#[test]
fn resolving_the_empty_path_yields_the_root_inode() {
    let src = MemSource::new(minimal_image());
    let sb = Superblock::new(&src).unwrap();
    let found = resolve_path(&src, &sb, &[]).unwrap();
    assert_eq!(found, Some(InodeNumber(2)));
}

#[test]
fn resolving_through_a_file_is_a_type_mismatch_error() {
    let src = MemSource::new(minimal_image());
    let sb = Superblock::new(&src).unwrap();
    let r = resolve_path(&src, &sb, &[b"etc".to_vec(), b"hosts".to_vec()]);
    assert_eq!(r, Err(Error::NotDirectory { inode: 11 }));
}

#[test]
fn file_inode_data_spans_exactly_its_extent_block() {
    let src = MemSource::new(minimal_image());
    let sb = Superblock::new(&src).unwrap();
    let ino = InodeNumber(11).inode(&sb, &src).unwrap();
    assert_eq!(ino.filetype().unwrap(), Filetype::Regular);
    assert_eq!(ino.size, 13);
    let range = ino.data(&sb).unwrap();
    assert_eq!(range, DataRange { offset: 100 * BLOCK as u64, len: BLOCK as u64 });
}

#[test]
fn root_directory_lists_its_three_entries() {
    let src = MemSource::new(minimal_image());
    let sb = Superblock::new(&src).unwrap();
    let root = InodeNumber(2).inode(&sb, &src).unwrap();
    assert_eq!(root.filetype().unwrap(), Filetype::Directory);
    let entries = root.dir_entries(&sb, &src).unwrap();
    let names: Vec<&[u8]> = entries.iter().map(|e| e.name.as_slice()).collect();
    assert_eq!(names, vec![b".".as_slice(), b"..".as_slice(), b"etc".as_slice()]);
    assert_eq!(root.child(b"etc", &sb, &src).unwrap(), Some(InodeNumber(11)));
    assert_eq!(root.child(b"usr", &sb, &src).unwrap(), None);
}

#[test]
fn legacy_1024_byte_block_layout_is_rejected_not_mislocated() {
    let mut img = minimal_image();
    put32(&mut img, 1024 + 0x18, 0); // log 0: 1024-byte blocks
    let src = MemSource::new(img);
    let sb = Superblock::new(&src).unwrap();
    assert_eq!(sb.block_size, 1024);
    let r = InodeNumber(2).inode(&sb, &src);
    assert_eq!(
        r,
        Err(Error::Unsupported { kind: UnsupportedKind::LegacyBlockSize, found: 1024 })
    );
}

#[test]
fn reading_the_superblock_of_a_short_image_is_an_io_error() {
    let src = MemSource::new(vec![0u8; 512]);
    match Superblock::new(&src) {
        Err(Error::Io { offset: 1024, .. }) => {}
        other => panic!("expected an I/O error, got {:?}", other),
    }
}
