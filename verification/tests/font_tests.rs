use pumpbot::font::{find_glyph, FontFileError, PbBg};
use pumpbot::rgb::RGB;
use std::io::{Cursor, Read};

use pumpbot::font::{CharMetadata, FontSize};
use pumpbot::rle::{decode, decode_vert};

#[test]
fn read_char_metadata() {
    let mut buf = [0u8; 10];
    Cursor::new(b"\xbc\x8a\x34\x12\x78\x56\xad\xde\xef\xbe").read(&mut buf).unwrap();
    let cd = CharMetadata::from(buf);
    assert_eq!(cd.vertical, true);
    assert_eq!(cd.advance, 0xabc);
    assert_eq!(cd.x, 0x1234);
    assert_eq!(cd.y, 0x5678);
    assert_eq!(cd.width, 0xdead);
    assert_eq!(cd.height, 0xbeef);
}

#[test]
fn char_metadata_horizontal_without_flag() {
    let cd = CharMetadata::from([0x05, 0x00, 0x01, 0x00, 0xff, 0xff, 0x03, 0x00, 0x04, 0x00]);
    assert!(!cd.vertical);
    assert_eq!(cd.advance, 5);
    assert_eq!(cd.x, 1);
    assert_eq!(cd.y, -1);
    assert_eq!(cd.width, 3);
    assert_eq!(cd.height, 4);
}

#[test]
fn rle_repeat_and_literal() {
    // 0x01 repeats the next byte three times; 0x81 copies the next two bytes.
    let out = decode(&[0x01, 0x07, 0x81, 0x0a, 0x0b]);
    assert_eq!(out, vec![7, 7, 7, 0x0a, 0x0b]);
}

#[test]
fn rle_stops_at_end_marker() {
    let out = decode(&[0x00, 0x09, 0xff, 0x05, 0x01]);
    assert_eq!(out, vec![9, 9]);
}

#[test]
fn rle_empty_stream() {
    assert_eq!(decode(&[]), Vec::<u8>::new());
}

#[test]
fn rle_vertical_fills_columns() {
    // Four bytes 1, 2, 3, 4 fill a 2x2 image column by column.
    let out = decode_vert(&[0x83, 1, 2, 3, 4], 2, 2);
    assert_eq!(out, vec![1, 3, 2, 4]);
}

#[test]
fn font_sizes() {
    assert_eq!(FontSize::Sz7.points(), 7);
    assert_eq!(FontSize::Sz42.points(), 42);
    assert_eq!(FontSize::Sz12.file_name(), "NC_12.cbf");
    assert_eq!(u16::from(FontSize::Sz24), 24);
}

fn cbi_file() -> Vec<u8> {
    let mut f = vec![0x63, 0x62, 0x69, 2, 1];
    f.extend_from_slice(&9u32.to_le_bytes());
    f.push(0);
    f.extend_from_slice(&240u16.to_le_bytes());
    f.extend_from_slice(&320u16.to_le_bytes());
    for i in 0..(240 * 320) {
        f.extend_from_slice(&[(i % 256) as u8, 7, 9]);
    }
    f
}

#[test]
fn background_reuse_reads_the_same_image() {
    let mut bg = PbBg::new();
    let first = bg.load_bgimg("bg.cbi", false, 0, Some(cbi_file())).unwrap();
    assert_eq!(first.len(), 240 * 320);
    assert_eq!(first[3], RGB { r: 3, g: 7, b: 9 });
    // the open file is used again and gives the same image
    let again = bg.load_bgimg("bg.cbi", false, 0, None).unwrap();
    assert_eq!(again, first);
    // a missing file that must be opened anew
    assert_eq!(bg.load_bgimg("other.cbi", false, 0, None), Err(FontFileError::FileNotFound));
    assert_eq!(bg.load_bgimg("bg.cbi", false, 1, None), Err(FontFileError::IndexOutOfBounds));
}

#[test]
fn decode_concatenates_and_stops_at_terminator() {
    let a = [0x01u8, 7];
    let b = [0x80u8, 9];
    assert_eq!(decode(&[a.as_slice(), b.as_slice()].concat()), vec![7, 7, 7, 9]);
    assert_eq!(decode(&[a.as_slice(), &[0xff, 1, 2]].concat()), decode(&a));
}

#[test]
fn decode_vert_places_bytes_column_by_column() {
    // four literal bytes into a 2 x 2 buffer: byte x * 2 + y goes to row y, column x
    assert_eq!(decode_vert(&[0x83, 1, 2, 3, 4], 2, 2), vec![1, 3, 2, 4]);
    // fewer bytes than cells: the rest stay 0
    assert_eq!(decode_vert(&[0x81, 5, 6], 2, 2), vec![5, 0, 6, 0]);
}

#[test]
fn glyph_lookup_bisects_even_an_unsorted_index() {
    let mut f = vec![0u8; 16];
    for (code, off) in [(5u16, 100u32), (1, 200), (3, 300)] {
        f.extend_from_slice(&code.to_le_bytes());
        f.extend_from_slice(&off.to_le_bytes());
    }
    assert_eq!(find_glyph(&f, 3, 1), Ok(200));
    assert_eq!(find_glyph(&f, 3, 3), Ok(300));
    // code 5 is listed, but the bisection passes it by
    assert_eq!(find_glyph(&f, 3, 5), Err(FontFileError::InvalidChar(5)));
    assert!(find_glyph(&f, 4, 1).is_err());
}
