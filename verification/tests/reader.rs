use unwinding::encoding::{
    DW_EH_PE_ABSPTR, DW_EH_PE_SDATA2, DW_EH_PE_SDATA4, DW_EH_PE_SDATA8, DW_EH_PE_SLEB128,
    DW_EH_PE_UDATA2, DW_EH_PE_UDATA4, DW_EH_PE_UDATA8, DW_EH_PE_ULEB128,
};
use unwinding::error::UnwindError;
use unwinding::reader::{ByteOrder, Reader};

fn at(bytes: &[u8], order: ByteOrder) -> Reader<'_> {
    Reader { bytes, addr: 0x1000, order }
}

/// Reads a number, and checks that the reader has moved `len` bytes on.
fn number(bytes: &[u8], order: ByteOrder, format: u8, len: usize) -> u64 {
    let (v, rest) = at(bytes, order).read_number(format).unwrap();
    assert_eq!(rest.bytes, &bytes[len..]);
    assert_eq!(rest.addr, 0x1000 + len);
    assert_eq!(rest.order, order);
    v
}

const BYTES: [u8; 9] = [0x01, 0x82, 0x03, 0x84, 0x05, 0x86, 0x07, 0x88, 0xee];

#[test]
fn a_byte_is_read() {
    let (v, rest) = at(&[7, 8], ByteOrder::Little).read_u8().unwrap();
    assert_eq!(v, 7);
    assert_eq!(rest.bytes, &[8]);
    assert_eq!(rest.addr, 0x1001);
    assert_eq!(at(&[], ByteOrder::Little).read_u8().err(), Some(UnwindError::Malformed));
}

#[test]
fn unsigned_numbers_are_read_in_little_endian() {
    let o = ByteOrder::Little;
    assert_eq!(number(&BYTES, o, DW_EH_PE_UDATA2, 2), 0x8201);
    assert_eq!(number(&BYTES, o, DW_EH_PE_UDATA4, 4), 0x8403_8201);
    assert_eq!(number(&BYTES, o, DW_EH_PE_UDATA8, 8), 0x8807_8605_8403_8201);
    assert_eq!(number(&BYTES, o, DW_EH_PE_ABSPTR, 8), 0x8807_8605_8403_8201);
}

#[test]
fn unsigned_numbers_are_read_in_big_endian() {
    let o = ByteOrder::Big;
    assert_eq!(number(&BYTES, o, DW_EH_PE_UDATA2, 2), 0x0182);
    assert_eq!(number(&BYTES, o, DW_EH_PE_UDATA4, 4), 0x0182_0384);
    assert_eq!(number(&BYTES, o, DW_EH_PE_UDATA8, 8), 0x0182_0384_0586_0788);
    assert_eq!(number(&BYTES, o, DW_EH_PE_ABSPTR, 8), 0x0182_0384_0586_0788);
}

#[test]
fn signed_numbers_are_extended_to_64_bits() {
    let o = ByteOrder::Little;
    assert_eq!(number(&BYTES, o, DW_EH_PE_SDATA2, 2), 0xffff_ffff_ffff_8201);
    assert_eq!(number(&BYTES, o, DW_EH_PE_SDATA4, 4), 0xffff_ffff_8403_8201);
    assert_eq!(number(&BYTES, o, DW_EH_PE_SDATA8, 8), 0x8807_8605_8403_8201);
    let o = ByteOrder::Big;
    assert_eq!(number(&BYTES, o, DW_EH_PE_SDATA2, 2), 0x0182);
    assert_eq!(number(&BYTES, o, DW_EH_PE_SDATA4, 4), 0x0182_0384);
    assert_eq!(number(&BYTES, o, DW_EH_PE_SDATA8, 8), 0x0182_0384_0586_0788);
}

#[test]
fn a_number_that_ends_too_early_is_malformed() {
    let formats = [
        (DW_EH_PE_ABSPTR, 8),
        (DW_EH_PE_UDATA2, 2),
        (DW_EH_PE_UDATA4, 4),
        (DW_EH_PE_UDATA8, 8),
        (DW_EH_PE_SDATA2, 2),
        (DW_EH_PE_SDATA4, 4),
        (DW_EH_PE_SDATA8, 8),
    ];
    for (format, size) in formats {
        let short = at(&BYTES[..size - 1], ByteOrder::Little).read_number(format);
        assert_eq!(short.err(), Some(UnwindError::Malformed));
        assert!(at(&BYTES[..size], ByteOrder::Little).read_number(format).is_ok());
    }
}

#[test]
fn unsigned_leb128_numbers_are_read() {
    let o = ByteOrder::Little;
    assert_eq!(number(&[0x00], o, DW_EH_PE_ULEB128, 1), 0);
    assert_eq!(number(&[0x7f, 9], o, DW_EH_PE_ULEB128, 1), 127);
    assert_eq!(number(&[0x81, 0x01], o, DW_EH_PE_ULEB128, 2), 129);
    assert_eq!(number(&[0xe5, 0x8e, 0x26], o, DW_EH_PE_ULEB128, 3), 624485);
    assert_eq!(number(&[0x80, 0x00], o, DW_EH_PE_ULEB128, 2), 0);
    let (v, rest) = at(&[0x81, 0x01, 5], o).read_uleb128().unwrap();
    assert_eq!((v, rest.bytes, rest.addr), (129, &[5u8][..], 0x1002));
}

#[test]
fn the_greatest_unsigned_leb128_number_fits_in_64_bits() {
    let o = ByteOrder::Little;
    let greatest = [0xff, 0xff, 0xff, 0xff, 0xff, 0xff, 0xff, 0xff, 0xff, 0x01];
    assert_eq!(number(&greatest, o, DW_EH_PE_ULEB128, 10), u64::MAX);
    let beyond = [0xff, 0xff, 0xff, 0xff, 0xff, 0xff, 0xff, 0xff, 0xff, 0x02];
    assert_eq!(at(&beyond, o).read_uleb128().err(), Some(UnwindError::Malformed));
    assert_eq!(at(&[0x80], o).read_uleb128().err(), Some(UnwindError::Malformed));
}

#[test]
fn signed_leb128_numbers_are_read() {
    let o = ByteOrder::Little;
    let read = |bytes| at(bytes, o).read_sleb128().map(|(v, rest)| (v, rest.bytes.len()));
    assert_eq!(read(&[0x02]), Ok((2, 0)));
    assert_eq!(read(&[0x7e, 1]), Ok((-2, 1)));
    assert_eq!(read(&[0xff, 0x00]), Ok((127, 0)));
    assert_eq!(read(&[0x81, 0x7f]), Ok((-127, 0)));
    assert_eq!(read(&[0xc0, 0xbb, 0x78]), Ok((-123456, 0)));
    assert_eq!(read(&[]), Err(UnwindError::Malformed));
    assert_eq!(number(&[0x7e], o, DW_EH_PE_SLEB128, 1), 0xffff_ffff_ffff_fffe);
}

#[test]
fn the_least_signed_leb128_number_fits_in_64_bits() {
    let o = ByteOrder::Little;
    let least = [0x80, 0x80, 0x80, 0x80, 0x80, 0x80, 0x80, 0x80, 0x80, 0x7f];
    assert_eq!(at(&least, o).read_sleb128().unwrap().0, i64::MIN);
    let greatest = [0xff, 0xff, 0xff, 0xff, 0xff, 0xff, 0xff, 0xff, 0xff, 0x00];
    assert_eq!(at(&greatest, o).read_sleb128().unwrap().0, i64::MAX);
    let beyond = [0x80, 0x80, 0x80, 0x80, 0x80, 0x80, 0x80, 0x80, 0x80, 0x01];
    assert_eq!(at(&beyond, o).read_sleb128().err(), Some(UnwindError::Malformed));
}

#[test]
fn bytes_are_skipped_and_split() {
    let r = at(&[1, 2, 3], ByteOrder::Little);
    let rest = r.skip(2).unwrap();
    assert_eq!((rest.bytes, rest.addr), (&[3u8][..], 0x1002));
    assert_eq!(r.skip(3).unwrap().bytes.len(), 0);
    assert_eq!(r.skip(4).err(), Some(UnwindError::Malformed));
    let (first, second) = r.split_at(1);
    assert_eq!((first.bytes, first.addr), (&[1u8][..], 0x1000));
    assert_eq!((second.bytes, second.addr), (&[2u8, 3][..], 0x1001));
}
