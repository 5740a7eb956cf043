//! Typed little-endian reads at arbitrary offsets.

use ext4_read::error::Error;
use ext4_read::reader::Reader;
use ext4_read::source::MemSource;

fn sample() -> MemSource {
    MemSource::new(vec![0x11, 0x22, 0x33, 0x44, 0x55, 0x66, 0x77, 0x88, 0x99, 0xAA])
}

#[test]
fn reads_are_little_endian_at_the_asked_offset() {
    let src = sample();
    let r = Reader::new(&src);
    assert_eq!(r.u8(0).unwrap(), 0x11);
    assert_eq!(r.u8(9).unwrap(), 0xAA);
    assert_eq!(r.u16(1).unwrap(), 0x3322);
    assert_eq!(r.u32(2).unwrap(), 0x66554433);
    assert_eq!(r.vec(3, 4).unwrap(), vec![0x44, 0x55, 0x66, 0x77]);
}

#[test]
fn split_64_bit_reads_assemble_low_then_high() {
    let src = sample();
    let r = Reader::new(&src);
    assert_eq!(r.u64_lohi(0, 4).unwrap(), 0x8877665544332211);
    assert_eq!(r.u64_lohi(4, 0).unwrap(), 0x4433221188776655);
}

#[test]
fn a_read_past_the_end_is_an_io_error_with_its_offset() {
    let src = sample();
    let r = Reader::new(&src);
    assert_eq!(r.u32(7), Err(Error::Io { offset: 7, len: 4 }));
    assert_eq!(r.u8(10), Err(Error::Io { offset: 10, len: 1 }));
    assert!(r.vec(0, 11).is_err());
    assert_eq!(r.vec(0, 10).unwrap().len(), 10);
}
