use gzip_header::bytes::{read_u16_big_endian, read_u32_big_endian};
use gzip_header::decoder::{decode_header, GzipStream};
use gzip_header::header::{FormatProblem, GzipError, Section};

fn minimal(flg: u8) -> Vec<u8> {
    vec![0x1f, 0x8b, 8, flg, 0x78, 0x56, 0x34, 0x12, 2, 3]
}

#[test]
fn minimal_header_fixed_fields_round_trip() {
    let mut input = minimal(0);
    input.extend_from_slice(&[0xcd, 0xab]);
    let (h, n) = decode_header(&input).unwrap();
    assert_eq!(n, 12);
    assert!(!h.ftext && !h.fhcrc && !h.fextra && !h.fname && !h.fcomment);
    assert_eq!(h.cm, 8);
    assert_eq!(h.mtime, 0x12345678);
    assert_eq!(h.xfl, 2);
    assert_eq!(h.os, 3);
    assert_eq!(h.xhcrc, 0xabcd);
    assert_eq!(h.xlen, 0);
    assert!(h.xextra.is_empty() && h.xname.is_empty() && h.xcomment.is_empty());
}

#[test]
fn bad_magic_names_both_bytes() {
    let mut input = minimal(0);
    input[0] = 0x00;
    input[1] = 0x00;
    input.extend_from_slice(&[0, 0]);
    let r = decode_header(&input);
    assert_eq!(
        r.unwrap_err(),
        GzipError::FormatError(FormatProblem::BadMagic { id1: 0x00, id2: 0x00 })
    );
}

#[test]
fn bad_second_magic_byte() {
    let mut input = minimal(0);
    input[1] = 0x8c;
    input.extend_from_slice(&[0, 0]);
    assert_eq!(
        decode_header(&input).unwrap_err(),
        GzipError::FormatError(FormatProblem::BadMagic { id1: 0x1f, id2: 0x8c })
    );
}

#[test]
fn extra_shorter_than_announced_is_truncation() {
    let mut input = minimal(4);
    input.extend_from_slice(&[3, 0, 0x55]);
    assert_eq!(
        decode_header(&input).unwrap_err(),
        GzipError::IoError(Section::ExtraData)
    );
}

#[test]
fn extra_length_cut_short() {
    let mut input = minimal(4);
    input.push(3);
    assert_eq!(
        decode_header(&input).unwrap_err(),
        GzipError::IoError(Section::ExtraLength)
    );
}

#[test]
fn unterminated_name_is_format_error() {
    let mut input = minimal(8);
    input.extend_from_slice(b"file.txt");
    assert_eq!(
        decode_header(&input).unwrap_err(),
        GzipError::FormatError(FormatProblem::UnterminatedName)
    );
}

#[test]
fn unterminated_comment_is_format_error() {
    let mut input = minimal(16);
    input.extend_from_slice(b"a comment");
    assert_eq!(
        decode_header(&input).unwrap_err(),
        GzipError::FormatError(FormatProblem::UnterminatedComment)
    );
}

#[test]
fn sections_decode_in_wire_order() {
    let mut input = minimal(4 | 8 | 16);
    input.extend_from_slice(&[2, 0, 0xe1, 0xe2]);
    input.extend_from_slice(b"NAME\0");
    input.extend_from_slice(b"COMMENT\0");
    input.extend_from_slice(&[0x34, 0x12]);
    input.extend_from_slice(&[0x99, 0x98]);
    let (h, n) = decode_header(&input).unwrap();
    assert!(h.fextra && h.fname && h.fcomment && !h.ftext && !h.fhcrc);
    assert_eq!(h.xlen, 2);
    assert_eq!(h.xextra, vec![0xe1, 0xe2]);
    assert_eq!(h.xname, b"NAME\0".to_vec());
    assert_eq!(h.xcomment, b"COMMENT\0".to_vec());
    assert_eq!(h.xhcrc, 0x1234);
    assert_eq!(n, input.len() - 2);
}

#[test]
fn decode_twice_is_logic_error() {
    let mut input = minimal(0);
    input.extend_from_slice(&[0, 0, 0x77, 0x66]);
    let mut g = GzipStream::new(input);
    assert_eq!(g.consumed(), 0);
    let h = g.read_header().unwrap();
    assert_eq!(h.mtime, 0x12345678);
    assert_eq!(g.consumed(), 12);
    assert_eq!(g.read_header().unwrap_err(), GzipError::LogicError);
    assert_eq!(g.consumed(), 12);
}

#[test]
fn failed_decode_consumes_nothing() {
    let mut g = GzipStream::new(minimal(0));
    assert_eq!(g.read_header().unwrap_err(), GzipError::IoError(Section::Checksum));
    assert_eq!(g.consumed(), 0);
}

#[test]
fn mtime_is_little_endian() {
    assert_eq!(read_u32_big_endian(&[0x78, 0x56, 0x34, 0x12]), 0x12345678);
    assert_eq!(read_u32_big_endian(&[0xff, 0, 0, 0x80]), 0x800000ff);
}

#[test]
fn u16_is_little_endian() {
    assert_eq!(read_u16_big_endian(&[0x34, 0x12]), 0x1234);
    assert_eq!(read_u16_big_endian(&[0xff, 0xff]), 0xffff);
}

#[test]
fn empty_input_is_truncated_preamble() {
    assert_eq!(decode_header(&[]).unwrap_err(), GzipError::IoError(Section::Preamble));
    assert_eq!(
        decode_header(&[0x1f, 0x8b, 8, 0, 0, 0, 0, 0, 0]).unwrap_err(),
        GzipError::IoError(Section::Preamble)
    );
}

#[test]
fn checksum_read_even_when_flag_clear() {
    let mut input = minimal(2);
    input.push(0x01);
    assert_eq!(decode_header(&input).unwrap_err(), GzipError::IoError(Section::Checksum));
    input.push(0x02);
    let (h, n) = decode_header(&input).unwrap();
    assert!(h.fhcrc);
    assert_eq!(h.xhcrc, 0x0201);
    assert_eq!(n, 12);
}

#[test]
fn reserved_flag_bits_ignored() {
    let mut input = minimal(0xe1);
    input.extend_from_slice(&[0, 0]);
    let (h, _) = decode_header(&input).unwrap();
    assert!(h.ftext && !h.fhcrc && !h.fextra && !h.fname && !h.fcomment);
}

#[test]
fn empty_extra_and_bare_terminators() {
    let mut input = minimal(4 | 8 | 16);
    input.extend_from_slice(&[0, 0, 0, 0, 5, 6]);
    let (h, n) = decode_header(&input).unwrap();
    assert_eq!(h.xlen, 0);
    assert!(h.xextra.is_empty());
    assert_eq!(h.xname, vec![0]);
    assert_eq!(h.xcomment, vec![0]);
    assert_eq!(h.xhcrc, 0x0605);
    assert_eq!(n, 16);
}

#[test]
fn largest_extra_length() {
    let mut input = minimal(4);
    input.extend_from_slice(&[0xff, 0xff]);
    input.extend(std::iter::repeat(7u8).take(0xffff));
    input.extend_from_slice(&[1, 0]);
    let (h, n) = decode_header(&input).unwrap();
    assert_eq!(h.xlen, 0xffff);
    assert_eq!(h.xextra.len(), 0xffff);
    assert_eq!(h.xhcrc, 1);
    assert_eq!(n, input.len());
}
