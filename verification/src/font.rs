//! Reading CBF font files: the header, the glyph index and the glyph records.
//!
//! A CBF file starts with ten magic bytes, then the font size (u16, little endian) and the
//! number of glyphs (u32). From byte 16 on stands the glyph index, six bytes per glyph: the
//! character code (u16) and the offset of the glyph record (u32), sorted by code. A glyph
//! record is ten bytes of metadata followed by the run-length encoded pixel data.
use vstd::prelude::*;
use crate::rgb::RGB;
use crate::rle::{rle_decoded, rle_well_formed, vert_fill, vert_fits, decode, decode_vert, lemma_vert_fill_len, well_formed, vert_fits_check};
use vstd::arithmetic::div_mod::lemma_fundamental_div_mod_converse;

verus! {

/// The font sizes for which the board carries a font file.
#[derive(Debug, Clone, Copy, PartialEq, Eq, Structural)]
pub enum FontSize {
    Sz7,
    Sz12,
    Sz14,
    Sz18,
    Sz24,
    Sz42,
}

pub open spec fn spec_font_points(sz: FontSize) -> u16 {
    match sz {
        FontSize::Sz7 => 7,
        FontSize::Sz12 => 12,
        FontSize::Sz14 => 14,
        FontSize::Sz18 => 18,
        FontSize::Sz24 => 24,
        FontSize::Sz42 => 42,
    }
}

impl FontSize {
    /// The point size of the font.
    pub fn points(self) -> (p: u16)
        ensures
            p == spec_font_points(self),
    {
        match self {
            FontSize::Sz7 => 7,
            FontSize::Sz12 => 12,
            FontSize::Sz14 => 14,
            FontSize::Sz18 => 18,
            FontSize::Sz24 => 24,
            FontSize::Sz42 => 42,
        }
    }

    /// The name of the CBF file that holds the font at this size.
    pub fn file_name(self) -> (name: &'static str)
        ensures
            name@ == spec_font_file_name(self)@,
    {
        match self {
            FontSize::Sz7 => "NC_7.cbf",
            FontSize::Sz12 => "NC_12.cbf",
            FontSize::Sz14 => "NC_14.cbf",
            FontSize::Sz18 => "NC_18.cbf",
            FontSize::Sz24 => "NC_24.cbf",
            FontSize::Sz42 => "NC_42.cbf",
        }
    }
}

pub open spec fn spec_font_file_name(sz: FontSize) -> &'static str {
    match sz {
        FontSize::Sz7 => "NC_7.cbf",
        FontSize::Sz12 => "NC_12.cbf",
        FontSize::Sz14 => "NC_14.cbf",
        FontSize::Sz18 => "NC_18.cbf",
        FontSize::Sz24 => "NC_24.cbf",
        FontSize::Sz42 => "NC_42.cbf",
    }
}

impl From<FontSize> for u16 {
    fn from(val: FontSize) -> (p: u16) {
        val.points()
    }
}

impl vstd::std_specs::convert::FromSpecImpl<FontSize> for u16 {
    open spec fn obeys_from_spec() -> bool {
        true
    }

    open spec fn from_spec(v: FontSize) -> u16 {
        spec_font_points(v)
    }
}

/// The header of a CBF font file.
#[derive(Debug, Clone, Copy, PartialEq, Eq, Structural)]
pub struct FontMetadata {
    pub font_size: u16,
    pub num_glyphs: u32,
}

/// The metadata stored for one character of a CBF font file.
#[derive(Debug, Clone, Copy, PartialEq, Eq, Structural)]
pub struct CharMetadata {
    pub vertical: bool,
    pub advance: u16,
    pub x: i16,
    pub y: i16,
    pub width: u16,
    pub height: u16,
}

/// The kinds of failed reads that the font engine reports.
#[derive(Debug, Clone, Copy, PartialEq, Eq, Structural)]
pub enum IoErrorKind {
    NotFound,
    UnexpectedEof,
    Other,
}

/// An IO error met while opening or reading a file.
#[derive(Debug, Clone, Copy, PartialEq, Eq, Structural)]
pub struct IOErrorInfo {
    pub kind: IoErrorKind,
}

/// The errors that can occur when reading CBF and CBI files.
#[derive(Debug, Clone, Copy, PartialEq, Eq, Structural)]
pub enum FontFileError {
    FileNotFound,
    BadFormat,
    BadSize,
    BadChar(u16, u16, u16),
    InvalidChar(u16),
    IndexOutOfBounds,
    IOError(IOErrorInfo),
    FileNotOpen,
    BadVersion,
}

/// The error that a read past the end of a file gives.
pub open spec fn eof_error() -> FontFileError {
    FontFileError::IOError(IOErrorInfo { kind: IoErrorKind::UnexpectedEof })
}

/// Little-endian u16 at position `i`.
pub open spec fn le16(d: Seq<u8>, i: int) -> int {
    d[i] + 256 * d[i + 1]
}

/// Little-endian u32 at position `i`.
pub open spec fn le32(d: Seq<u8>, i: int) -> int {
    d[i] + 256 * d[i + 1] + 65536 * d[i + 2] + 16777216 * d[i + 3]
}

fn read_le16(d: &[u8], i: usize) -> (v: u16)
    requires
        i + 2 <= d@.len(),
    ensures
        v == le16(d@, i as int),
{
    d[i] as u16 + 256 * (d[i + 1] as u16)
}

fn read_le32(d: &[u8], i: usize) -> (v: u32)
    requires
        i + 4 <= d@.len(),
    ensures
        v == le32(d@, i as int),
{
    d[i] as u32 + 256 * (d[i + 1] as u32) + 65536 * (d[i + 2] as u32) + 16777216 * (d[i + 3] as u32)
}

/// The metadata that ten bytes describe: the advance field's top bit flags a vertically
/// encoded glyph and the advance keeps the bits of `0x4fff`; then x, y, width and height.
pub open spec fn spec_char_metadata(b: Seq<u8>) -> CharMetadata {
    let adv = le16(b, 0) as u16;
    CharMetadata {
        vertical: adv & 0x8000 == 0x8000,
        advance: adv & 0x4fff,
        x: le16(b, 2) as i16,
        y: le16(b, 4) as i16,
        width: le16(b, 6) as u16,
        height: le16(b, 8) as u16,
    }
}

impl CharMetadata {
    /// Decodes ten bytes of glyph metadata.
    pub fn from_bytes(val: [u8; 10]) -> (cm: CharMetadata)
        ensures
            cm == spec_char_metadata(val@),
    {
        let b: &[u8] = &val;
        let adv = read_le16(b, 0);
        let xu = read_le16(b, 2);
        let yu = read_le16(b, 4);
        CharMetadata {
            vertical: (adv & 0x8000) == 0x8000,
            advance: adv & 0x4fff,
            x: xu as i16,
            y: yu as i16,
            width: read_le16(b, 6),
            height: read_le16(b, 8),
        }
    }
}

impl From<[u8; 10]> for CharMetadata {
    fn from(val: [u8; 10]) -> (cm: CharMetadata) {
        CharMetadata::from_bytes(val)
    }
}

impl vstd::std_specs::convert::FromSpecImpl<[u8; 10]> for CharMetadata {
    open spec fn obeys_from_spec() -> bool {
        true
    }

    open spec fn from_spec(v: [u8; 10]) -> CharMetadata {
        spec_char_metadata(v@)
    }
}

/// The magic bytes that open every CBF file.
pub open spec fn cbf_magic() -> Seq<u8> {
    seq![0x63u8, 0x62, 0x66, 0xe5, 0x9c, 0xa7, 0xe5, 0xad, 0x97, 0x02]
}

/// What checking the magic bytes of a file gives.
pub open spec fn spec_verify_font_file(d: Seq<u8>) -> Result<(), FontFileError> {
    if d.len() < 10 {
        Err(eof_error())
    } else if d.subrange(0, 10) != cbf_magic() {
        Err(FontFileError::BadFormat)
    } else {
        Ok(())
    }
}

/// What reading the header of a file gives.
pub open spec fn spec_read_header(d: Seq<u8>) -> Result<FontMetadata, FontFileError> {
    if d.len() < 16 {
        Err(FontFileError::BadFormat)
    } else {
        Ok(FontMetadata { font_size: le16(d, 10) as u16, num_glyphs: le32(d, 12) as u32 })
    }
}

/// Character code of the `j`-th entry of the glyph index.
pub open spec fn glyph_code(d: Seq<u8>, j: int) -> int {
    le16(d, 16 + 6 * j)
}

/// Record offset of the `j`-th entry of the glyph index.
pub open spec fn glyph_offset(d: Seq<u8>, j: int) -> int {
    le32(d, 18 + 6 * j)
}

/// The glyph index of `n` entries lies inside the file.
pub open spec fn index_fits(d: Seq<u8>, n: int) -> bool {
    16 + 6 * n <= d.len()
}

/// The glyph index is sorted by strictly increasing character code.
pub open spec fn index_sorted(d: Seq<u8>, n: int) -> bool {
    forall|i: int, j: int| 0 <= i < j < n ==> glyph_code(d, i) < glyph_code(d, j)
}

/// Some entry of the glyph index has character code `k` and record offset `o`.
pub open spec fn index_has(d: Seq<u8>, n: int, k: int, o: int) -> bool {
    exists|j: int| 0 <= j < n && glyph_code(d, j) == k && glyph_offset(d, j) == o
}

/// Some entry of the glyph index has character code `k`.
pub open spec fn index_has_code(d: Seq<u8>, n: int, k: int) -> bool {
    exists|j: int| 0 <= j < n && #[trigger] glyph_code(d, j) == k
}

/// The cell of the pixel buffer that the `p`-th decoded pixel of a glyph goes to: pixels come
/// column by column, `height / 3` of them per column.
pub open spec fn glyph_cell(p: int, width: int, height: int) -> int {
    let bh = height / 3;
    if bh == 0 { p * width } else { (p % bh) * width + p / bh }
}

/// Every one of the `chunks` decoded pixels lands inside the buffer of `width * height / 3`.
pub open spec fn glyph_cells_fit(chunks: int, width: int, height: int) -> bool {
    forall|p: int| 0 <= p < chunks ==> #[trigger] glyph_cell(p, width, height) < (width * height)
        / 3
}

/// The pixel buffer of a glyph: black, with each complete triple of decoded bytes written as
/// one colour at its cell, in order.
pub open spec fn glyph_fill(dec: Seq<u8>, c: int, width: int, height: int) -> Seq<RGB>
    decreases c,
{
    if c <= 0 {
        Seq::new(((width * height) / 3) as nat, |k: int| RGB { r: 0, g: 0, b: 0 })
    } else {
        glyph_fill(dec, c - 1, width, height).update(
            glyph_cell(c - 1, width, height),
            RGB { r: dec[3 * (c - 1)], g: dec[3 * (c - 1) + 1], b: dec[3 * (c - 1) + 2] },
        )
    }
}

/// The buffer keeps its `width * height / 3` cells however many pixels were written into it.
pub proof fn lemma_glyph_fill_len(dec: Seq<u8>, c: int, width: int, height: int)
    requires
        0 <= width,
        0 <= height,
        glyph_cells_fit(c, width, height),
    ensures
        glyph_fill(dec, c, width, height).len() == (width * height) / 3,
    decreases c,
{
    assert(0 <= (width * height) / 3) by (nonlinear_arith)
        requires
            0 <= width,
            0 <= height,
    ;
    if c > 0 {
        lemma_glyph_fill_len(dec, c - 1, width, height);
        lemma_glyph_cell_nonneg(c - 1, width, height);
        assert(glyph_cell(c - 1, width, height) < (width * height) / 3);
    }
}

proof fn lemma_glyph_cell_nonneg(p: int, width: int, height: int)
    requires
        0 <= p,
        0 <= width,
        0 <= height,
    ensures
        0 <= glyph_cell(p, width, height),
{
    let bh = height / 3;
    if bh == 0 {
        assert(0 <= p * width) by (nonlinear_arith)
            requires
                0 <= p,
                0 <= width,
        ;
    } else {
        assert(0 <= (p % bh) * width + p / bh) by (nonlinear_arith)
            requires
                0 <= p,
                0 < bh,
                0 <= width,
        ;
    }
}

/// Once the first `c` decoded pixels are placed, the cell of pixel `p` that no later pixel
/// overwrites holds that pixel's triple as red, green and blue, in that order.
pub proof fn lemma_glyph_fill_pixel(dec: Seq<u8>, c: int, width: int, height: int, p: int)
    requires
        0 <= width,
        0 <= height,
        0 <= p < c,
        3 * c <= dec.len(),
        glyph_cells_fit(c, width, height),
        forall|q: int| p < q < c ==> #[trigger] glyph_cell(q, width, height) != glyph_cell(p, width, height),
    ensures
        glyph_fill(dec, c, width, height)[glyph_cell(p, width, height)]
            == (RGB { r: dec[3 * p], g: dec[3 * p + 1], b: dec[3 * p + 2] }),
    decreases c,
{
    lemma_glyph_fill_len(dec, c - 1, width, height);
    lemma_glyph_cell_nonneg(p, width, height);
    lemma_glyph_cell_nonneg(c - 1, width, height);
    assert(glyph_cell(c - 1, width, height) < (width * height) / 3);
    assert(glyph_cell(p, width, height) < (width * height) / 3);
    if p < c - 1 {
        assert(glyph_cell(c - 1, width, height) != glyph_cell(p, width, height));
        lemma_glyph_fill_pixel(dec, c - 1, width, height, p);
    }
}

/// A cell that none of the first `c` decoded pixels goes to stays black.
pub proof fn lemma_glyph_fill_untouched(dec: Seq<u8>, c: int, width: int, height: int, k: int)
    requires
        0 <= width,
        0 <= height,
        0 <= k < (width * height) / 3,
        glyph_cells_fit(c, width, height),
        forall|q: int| 0 <= q < c ==> #[trigger] glyph_cell(q, width, height) != k,
    ensures
        glyph_fill(dec, c, width, height)[k] == (RGB { r: 0, g: 0, b: 0 }),
    decreases c,
{
    lemma_glyph_fill_len(dec, c - 1, width, height);
    if c > 0 {
        lemma_glyph_cell_nonneg(c - 1, width, height);
        assert(glyph_cell(c - 1, width, height) < (width * height) / 3);
        assert(glyph_cell(c - 1, width, height) != k);
        lemma_glyph_fill_untouched(dec, c - 1, width, height, k);
    }
}

/// Two different pixels among the first `width * (height / 3)` go to different cells.
pub proof fn lemma_glyph_cell_distinct(p: int, q: int, width: int, height: int)
    requires
        0 < height / 3,
        0 <= p < q < width * (height / 3),
    ensures
        glyph_cell(p, width, height) != glyph_cell(q, width, height),
{
    let bh = height / 3;
    assert(p / bh < width && q / bh < width && 0 <= p / bh && 0 <= q / bh) by (nonlinear_arith)
        requires
            0 < bh,
            0 <= p < q < width * bh,
    {
        vstd::arithmetic::div_mod::lemma_div_is_ordered(q, width * bh - 1, bh);
        vstd::arithmetic::div_mod::lemma_div_is_ordered(p, q, bh);
        vstd::arithmetic::div_mod::lemma_fundamental_div_mod_converse(width * bh - 1, bh, width - 1, bh - 1);
    }
    if glyph_cell(p, width, height) == glyph_cell(q, width, height) {
        let a = glyph_cell(p, width, height);
        lemma_fundamental_div_mod_converse(a, width, p % bh, p / bh);
        lemma_fundamental_div_mod_converse(a, width, q % bh, q / bh);
        assert(p == (p / bh) * bh + p % bh) by {
            vstd::arithmetic::div_mod::lemma_fundamental_div_mod(p, bh);
            vstd::arithmetic::mul::lemma_mul_is_commutative(bh, p / bh);
        }
        assert(q == (q / bh) * bh + q % bh) by {
            vstd::arithmetic::div_mod::lemma_fundamental_div_mod(q, bh);
            vstd::arithmetic::mul::lemma_mul_is_commutative(bh, q / bh);
        }
    }
}

/// When a glyph has no more decoded pixels than its `width * (height / 3)` cells, each cell
/// that pixel `p` goes to holds that pixel's triple as red, green and blue, in that order.
pub proof fn lemma_glyph_fill_all(dec: Seq<u8>, c: int, width: int, height: int)
    requires
        0 <= width,
        0 < height / 3,
        0 <= c <= width * (height / 3),
        3 * c <= dec.len(),
    ensures
        glyph_cells_fit(c, width, height),
        forall|p: int| 0 <= p < c ==> #[trigger] glyph_fill(dec, c, width, height)[glyph_cell(p, width, height)]
            == (RGB { r: dec[3 * p], g: dec[3 * p + 1], b: dec[3 * p + 2] }),
{
    let bh = height / 3;
    assert forall|p: int| 0 <= p < c implies #[trigger] glyph_cell(p, width, height) < (width * height) / 3 by {
        assert((p % bh) * width + p / bh < width * (height / 3)) by (nonlinear_arith)
            requires
                0 < bh,
                bh == height / 3,
                0 <= p < width * bh,
                0 <= width,
        {
            vstd::arithmetic::div_mod::lemma_fundamental_div_mod(p, bh);
            assert(0 <= p % bh < bh);
            assert(p / bh < width) by {
                vstd::arithmetic::div_mod::lemma_div_is_ordered(p, width * bh - 1, bh);
                vstd::arithmetic::div_mod::lemma_fundamental_div_mod_converse(width * bh - 1, bh, width - 1, bh - 1);
            }
            assert((p % bh) * width <= (bh - 1) * width);
        }
        assert(width * (height / 3) <= (width * height) / 3) by (nonlinear_arith)
            requires
                0 <= width,
                0 < height / 3,
        {
            vstd::arithmetic::div_mod::lemma_fundamental_div_mod(height, 3);
            assert(width * height == width * (3 * (height / 3)) + width * (height % 3));
            vstd::arithmetic::div_mod::lemma_fundamental_div_mod_converse(
                width * height, 3, width * (height / 3) + (width * (height % 3)) / 3, (width * (height % 3)) % 3);
        }
    }
    assert forall|p: int| 0 <= p < c implies #[trigger] glyph_fill(dec, c, width, height)[glyph_cell(p, width, height)]
        == (RGB { r: dec[3 * p], g: dec[3 * p + 1], b: dec[3 * p + 2] }) by {
        assert forall|q: int| p < q < c implies #[trigger] glyph_cell(q, width, height) != glyph_cell(p, width, height) by {
            lemma_glyph_cell_distinct(p, q, width, height);
        }
        lemma_glyph_fill_pixel(dec, c, width, height, p);
    }
}

/// The decoded bytes of a glyph's pixel data.
pub open spec fn glyph_decoded(cm: CharMetadata, data: Seq<u8>) -> Seq<u8> {
    if !cm.vertical {
        rle_decoded(data)
    } else {
        vert_fill(rle_decoded(data), cm.height as int, cm.width as int)
    }
}

/// The glyph at record offset `o` can be loaded without overflow or an out-of-bounds access.
pub open spec fn glyph_loadable(d: Seq<u8>, o: int, k: int) -> bool {
    (o + 10 <= d.len() && k != 0x20) ==> {
        let cm = spec_char_metadata(d.subrange(o, o + 10));
        let n = cm.width * cm.height;
        &&& n + 2 <= 0xffff
        &&& (o + 12 + n <= d.len() && cm.width != 0 && cm.height != 0) ==> {
            let data = d.subrange(o + 10, o + 12 + n);
            &&& rle_well_formed(data)
            &&& cm.vertical ==> vert_fits(rle_decoded(data), cm.height as int, cm.width as int)
            &&& glyph_cells_fit((glyph_decoded(cm, data).len() / 3) as int, cm.width as int, cm.height as int)
        }
    }
}

/// Every glyph that the index lists for character `k` can be loaded.
pub open spec fn char_loadable(d: Seq<u8>, n: int, k: int) -> bool {
    forall|j: int| 0 <= j < n && #[trigger] glyph_code(d, j) == k ==> glyph_loadable(d, glyph_offset(d, j), k)
}

/// Checks the magic bytes at the start of a font file.
pub fn verify_font_file(font: &[u8]) -> (res: Result<(), FontFileError>)
    ensures
        res == spec_verify_font_file(font@),
{
    if font.len() < 10 {
        return Err(FontFileError::IOError(IOErrorInfo { kind: IoErrorKind::UnexpectedEof }));
    }
    let magic: [u8; 10] = [0x63, 0x62, 0x66, 0xe5, 0x9c, 0xa7, 0xe5, 0xad, 0x97, 0x02];
    let mut i: usize = 0;
    while i < 10
        invariant
            font@.len() >= 10,
            magic@ == cbf_magic(),
            i <= 10,
            forall|j: int| 0 <= j < i ==> font@[j] == magic@[j],
        decreases 10 - i,
    {
        if font[i] != magic[i] {
            assert(font@.subrange(0, 10)[i as int] != cbf_magic()[i as int]);
            return Err(FontFileError::BadFormat);
        }
        i = i + 1;
    }
    assert(font@.subrange(0, 10) =~= cbf_magic());
    Ok(())
}

/// Reads the header (font size and glyph count) of a font file.
pub fn read_header(font: &[u8]) -> (res: Result<FontMetadata, FontFileError>)
    ensures
        res == spec_read_header(font@),
{
    if font.len() < 16 {
        Err(FontFileError::BadFormat)
    } else {
        Ok(FontMetadata { font_size: read_le16(font, 10), num_glyphs: read_le32(font, 12) })
    }
}

/// The entry that bisecting the glyph index entries `lo..hi` for code `k` lands on: the middle
/// entry when it has code `k`, else the upper half when its code is below `k` and the lower
/// half when it is above; none when the range runs empty. On an index sorted by code this is
/// an entry with code `k` exactly when the index lists `k`.
pub open spec fn spec_bisect(d: Seq<u8>, k: int, lo: int, hi: int) -> Option<int>
    decreases hi - lo,
{
    if lo >= hi {
        None
    } else {
        let mid = lo + (hi - lo) / 2;
        let c = glyph_code(d, mid);
        if c == k {
            Some(mid)
        } else if c < k {
            spec_bisect(d, k, mid + 1, hi)
        } else {
            spec_bisect(d, k, lo, mid)
        }
    }
}

/// What looking up code `k` in an index of `n` entries that lies inside the file gives: the
/// record offset of the entry that the bisection lands on, or `InvalidChar`.
pub open spec fn spec_find_glyph(d: Seq<u8>, n: int, k: u16) -> Result<u32, FontFileError> {
    match spec_bisect(d, k as int, 0, n) {
        Some(j) => Ok(glyph_offset(d, j) as u32),
        None => Err(FontFileError::InvalidChar(k)),
    }
}

/// Looks up character `k` in the glyph index of `n` entries by bisection and returns its record
/// offset (see [`spec_find_glyph`]). On an index sorted by code the search finds `k` exactly when
/// the index lists it.
pub fn find_glyph(font: &[u8], n: u32, k: u16) -> (res: Result<u32, FontFileError>)
    ensures
        !index_fits(font@, n as int) ==> res == Err::<u32, FontFileError>(eof_error()),
        index_fits(font@, n as int) ==> res == spec_find_glyph(font@, n as int, k),
        index_fits(font@, n as int) ==> match res {
            Ok(o) => index_has(font@, n as int, k as int, o as int),
            Err(e) => e == FontFileError::InvalidChar(k) && (index_sorted(font@, n as int)
                ==> !index_has_code(font@, n as int, k as int)),
        },
{
    let len = font.len();
    if len < 16 || (len - 16) / 6 < n as usize {
        proof {
            if len >= 16 {
                assert(16 + 6 * n > len) by (nonlinear_arith)
                    requires
                        (len - 16) / 6 < n,
                        len >= 16,
                ;
            }
        }
        return Err(FontFileError::IOError(IOErrorInfo { kind: IoErrorKind::UnexpectedEof }));
    }
    assert(16 + 6 * n <= len) by (nonlinear_arith)
        requires
            (len - 16) / 6 >= n,
            len >= 16,
    ;
    let mut lo: usize = 0;
    let mut hi: usize = n as usize;
    while lo < hi
        invariant
            len == font@.len(),
            index_fits(font@, n as int),
            lo <= hi <= n,
            spec_bisect(font@, k as int, lo as int, hi as int) == spec_bisect(font@, k as int, 0, n as int),
            index_sorted(font@, n as int) ==> forall|j: int|
                0 <= j < n && (j < lo || j >= hi) ==> #[trigger] glyph_code(font@, j) != k,
        decreases hi - lo,
    {
        let mid = lo + (hi - lo) / 2;
        let c = read_le16(font, 16 + 6 * mid);
        if c == k {
            let o = read_le32(font, 18 + 6 * mid);
            assert(glyph_code(font@, mid as int) == k && glyph_offset(font@, mid as int) == o);
            return Ok(o);
        } else if c < k {
            proof {
                if index_sorted(font@, n as int) {
                    assert forall|j: int| 0 <= j < n && (j < mid + 1 || j >= hi) implies #[trigger] glyph_code(font@, j) != k by {
                        if j < mid {
                            assert(glyph_code(font@, j) < glyph_code(font@, mid as int));
                        }
                    }
                }
            }
            lo = mid + 1;
        } else {
            proof {
                if index_sorted(font@, n as int) {
                    assert forall|j: int| 0 <= j < n && (j < lo || j >= mid) implies #[trigger] glyph_code(font@, j) != k by {
                        if j > mid {
                            assert(glyph_code(font@, mid as int) < glyph_code(font@, j));
                        }
                    }
                }
            }
            hi = mid;
        }
    }
    Err(FontFileError::InvalidChar(k))
}


/// Places the complete triples of `dec` as colours into a `width * height / 3` buffer,
/// column by column with `height / 3` colours per column.
fn glyph_pixels(dec: &Vec<u8>, width: u16, height: u16) -> (out: Vec<RGB>)
    requires
        width * height <= 0xffff,
        glyph_cells_fit((dec@.len() / 3) as int, width as int, height as int),
    ensures
        out@ == glyph_fill(dec@, (dec@.len() / 3) as int, width as int, height as int),
{
    let ghost w = width as int;
    let ghost h = height as int;
    let cells: usize = (width as usize * height as usize) / 3;
    let mut out: Vec<RGB> = Vec::new();
    let mut z: usize = 0;
    while z < cells
        invariant
            z <= cells,
            cells == (w * h) / 3,
            out@ == glyph_fill(dec@, 0, w, h).take(z as int),
            glyph_fill(dec@, 0, w, h).len() == cells,
        decreases cells - z,
    {
        out.push(RGB { r: 0, g: 0, b: 0 });
        assert(glyph_fill(dec@, 0, w, h).take(z + 1) =~= glyph_fill(dec@, 0, w, h).take(z as int).push(RGB { r: 0, g: 0, b: 0 }));
        z = z + 1;
    }
    assert(out@ =~= glyph_fill(dec@, 0, w, h));
    let dlen: usize = dec.len();
    let chunks: usize = dlen / 3;
    let bw: usize = width as usize;
    let bh: usize = (height / 3) as usize;
    let mut x: usize = 0;
    let mut y: usize = 0;
    let mut p: usize = 0;
    while p < chunks
        invariant
            dlen == dec@.len(),
            chunks == dlen / 3,
            bw == w,
            bh == h / 3,
            w * h <= 0xffff,
            cells == (w * h) / 3,
            glyph_cells_fit(chunks as int, w, h),
            p <= chunks,
            out@ == glyph_fill(dec@, p as int, w, h),
            out@.len() == cells,
            bh == 0 ==> y == p && x == 0,
            bh > 0 ==> p == x * bh + y && y < bh,
        decreases chunks - p,
    {
        proof {
            assert(glyph_cell(p as int, w, h) < cells);
            if bh > 0 {
                lemma_fundamental_div_mod_converse(p as int, bh as int, x as int, y as int);
            }
            assert(glyph_cell(p as int, w, h) == y * bw + x);
        }
        let idx = y * bw + x;
        assert(3 * p + 2 < dlen);
        let c = RGB { r: dec[3 * p], g: dec[3 * p + 1], b: dec[3 * p + 2] };
        out.set(idx, c);
        y = y + 1;
        if y == bh {
            proof {
                assert(p + 1 == (x + 1) * bh) by (nonlinear_arith)
                    requires
                        p == x * bh + (y - 1),
                        y == bh,
                ;
            }
            y = 0;
            x = x + 1;
        }
        p = p + 1;
    }
    out
}

/// What loading the glyph whose record starts at offset `o` gives for character `k`.
pub open spec fn spec_glyph(d: Seq<u8>, o: int, k: int) -> Result<(CharMetadata, Seq<RGB>), FontFileError> {
    if o + 10 > d.len() {
        Err(eof_error())
    } else {
        let cm = spec_char_metadata(d.subrange(o, o + 10));
        let n = cm.width * cm.height;
        if k == 0x20 {
            Ok((CharMetadata { advance: cm.advance, x: 0, y: 0, width: 0, height: 0, vertical: false }, Seq::empty()))
        } else if o + 12 + n > d.len() {
            Err(eof_error())
        } else if cm.width == 0 || cm.height == 0 {
            Err(FontFileError::BadChar(k as u16, cm.width, cm.height))
        } else {
            let dec = glyph_decoded(cm, d.subrange(o + 10, o + 12 + n));
            Ok((cm, glyph_fill(dec, (dec.len() / 3) as int, cm.width as int, cm.height as int)))
        }
    }
}

/// A glyph as returned matches a glyph as specified.
pub open spec fn glyph_matches(res: Result<(CharMetadata, Vec<RGB>), FontFileError>, s: Result<(CharMetadata, Seq<RGB>), FontFileError>) -> bool {
    match (res, s) {
        (Ok((a, v)), Ok((b, w))) => a == b && v@ == w,
        (Err(e1), Err(e2)) => e1 == e2,
        _ => false,
    }
}

/// Loads the glyph record at offset `o` for character `k`.
fn load_glyph(d: &[u8], o: u32, k: u16) -> (res: Result<(CharMetadata, Vec<RGB>), FontFileError>)
    requires
        glyph_loadable(d@, o as int, k as int),
    ensures
        glyph_matches(res, spec_glyph(d@, o as int, k as int)),
{
    let len = d.len();
    let o = o as usize;
    if o > len || len - o < 10 {
        return Err(FontFileError::IOError(IOErrorInfo { kind: IoErrorKind::UnexpectedEof }));
    }
    let buf: [u8; 10] = [d[o], d[o + 1], d[o + 2], d[o + 3], d[o + 4], d[o + 5], d[o + 6], d[o + 7], d[o + 8], d[o + 9]];
    assert(buf@ =~= d@.subrange(o as int, o + 10));
    let cm = CharMetadata::from_bytes(buf);
    if k == 0x20 {
        return Ok((CharMetadata { advance: cm.advance, x: 0, y: 0, width: 0, height: 0, vertical: false }, Vec::new()));
    }
    let data_len: usize = (cm.width * cm.height + 2) as usize;
    if len - o - 10 < data_len {
        return Err(FontFileError::IOError(IOErrorInfo { kind: IoErrorKind::UnexpectedEof }));
    }
    let mut data: Vec<u8> = Vec::new();
    let mut i: usize = 0;
    while i < data_len
        invariant
            len == d@.len(),
            o + 10 + data_len <= len,
            i <= data_len,
            data@ == d@.subrange(o + 10, o + 10 + i),
        decreases data_len - i,
    {
        data.push(d[o + 10 + i]);
        assert(d@.subrange(o + 10, o + 10 + i + 1) =~= d@.subrange(o + 10, o + 10 + i).push(d@[o + 10 + i]));
        i = i + 1;
    }
    if cm.width == 0 || cm.height == 0 {
        return Err(FontFileError::BadChar(k, cm.width, cm.height));
    }
    let decompressed = if !cm.vertical {
        decode(&data)
    } else {
        decode_vert(&data, cm.height, cm.width)
    };
    let rgb = glyph_pixels(&decompressed, cm.width, cm.height);
    Ok((cm, rgb))
}

/// Whether each of the first `chunks` decoded pixels of a `width` by `height` glyph lands inside
/// its pixel buffer.
fn glyph_cells_check(chunks: usize, width: u16, height: u16) -> (ok: bool)
    ensures
        ok == glyph_cells_fit(chunks as int, width as int, height as int),
{
    assert(width as int * height as int <= 0xffff * 0xffff) by (nonlinear_arith)
        requires
            width <= 0xffff,
            height <= 0xffff,
    ;
    let limit: u128 = (width as u128 * height as u128) / 3;
    let bh: u128 = height as u128 / 3;
    let w: u128 = width as u128;
    let mut p: usize = 0;
    while p < chunks
        invariant
            p <= chunks,
            limit == (width * height) / 3,
            bh == height / 3,
            w == width,
            forall|q: int| 0 <= q < p ==> #[trigger] glyph_cell(q, width as int, height as int) < (width * height) / 3,
        decreases chunks - p,
    {
        let pp: u128 = p as u128;
        let cell: u128 = if bh == 0 {
            assert(pp * w <= 0xffff_ffff_ffff_ffff * 0xffff) by (nonlinear_arith)
                requires
                    pp <= 0xffff_ffff_ffff_ffff,
                    w <= 0xffff,
            ;
            pp * w
        } else {
            let r: u128 = pp % bh;
            assert(r * w <= 0xffff * 0xffff) by (nonlinear_arith)
                requires
                    r < bh,
                    bh <= 0xffff,
                    w <= 0xffff,
            ;
            r * w + pp / bh
        };
        assert(cell == glyph_cell(p as int, width as int, height as int));
        if cell >= limit {
            return false;
        }
        p = p + 1;
    }
    true
}

/// Whether the glyph record at offset `o` can be loaded for character `k` (see
/// [`glyph_loadable`]).
fn glyph_check(d: &[u8], o: u32, k: u16) -> (ok: bool)
    ensures
        ok == glyph_loadable(d@, o as int, k as int),
{
    let len = d.len();
    let o = o as usize;
    if o > len || len - o < 10 || k == 0x20 {
        return true;
    }
    let buf: [u8; 10] = [d[o], d[o + 1], d[o + 2], d[o + 3], d[o + 4], d[o + 5], d[o + 6], d[o + 7], d[o + 8], d[o + 9]];
    assert(buf@ =~= d@.subrange(o as int, o + 10));
    let cm = CharMetadata::from_bytes(buf);
    assert(cm.width as int * cm.height as int <= 0xffff * 0xffff) by (nonlinear_arith)
        requires
            cm.width <= 0xffff,
            cm.height <= 0xffff,
    ;
    let n: u64 = cm.width as u64 * cm.height as u64;
    if n + 2 > 0xffff {
        return false;
    }
    let data_len: usize = (n + 2) as usize;
    if len - o - 10 < data_len || cm.width == 0 || cm.height == 0 {
        return true;
    }
    let mut data: Vec<u8> = Vec::new();
    let mut i: usize = 0;
    while i < data_len
        invariant
            len == d@.len(),
            o + 10 + data_len <= len,
            i <= data_len,
            data@ == d@.subrange(o + 10, o + 10 + i),
        decreases data_len - i,
    {
        data.push(d[o + 10 + i]);
        assert(d@.subrange(o + 10, o + 10 + i + 1) =~= d@.subrange(o + 10, o + 10 + i).push(d@[o + 10 + i]));
        i = i + 1;
    }
    if !well_formed(&data) {
        return false;
    }
    assert(data@ == d@.subrange(o + 10, o + 12 + cm.width * cm.height));
    let dec = decode(&data);
    let chunks: usize = if cm.vertical {
        if !vert_fits_check(&dec, cm.height, cm.width) {
            return false;
        }
        proof {
            lemma_vert_fill_len(dec@, cm.height as int, cm.width as int);
            assert(cm.height as int * cm.width as int == n) by (nonlinear_arith)
                requires
                    n == cm.width as int * cm.height as int,
            ;
            assert(glyph_decoded(cm, data@).len() == n);
        }
        (n / 3) as usize
    } else {
        dec.len() / 3
    };
    assert(glyph_decoded(cm, data@).len() / 3 == chunks);
    glyph_cells_check(chunks, cm.width, cm.height)
}

/// An instance of the CBF decoding engine, holding the contents of the open font file.
pub struct PbFont {
    font_file: Option<Vec<u8>>,
    font_metadata: FontMetadata,
}

impl PbFont {
    /// The contents of the open font file, if any.
    pub closed spec fn file(&self) -> Option<Seq<u8>> {
        match self.font_file {
            Some(v) => Some(v@),
            None => None,
        }
    }

    /// The header read from the last font file that passed its checks.
    pub closed spec fn metadata(&self) -> FontMetadata {
        self.font_metadata
    }

    /// An engine with no font file open.
    pub fn new() -> (f: PbFont)
        ensures
            f.file() is None,
            f.metadata() == (FontMetadata { font_size: 0, num_glyphs: 0 }),
    {
        PbFont { font_file: None, font_metadata: FontMetadata { font_size: 0, num_glyphs: 0 } }
    }

    /// Switches to the font file for size `sz`, whose contents the caller read (`None` when the
    /// file could not be opened). The file must carry the magic bytes, a header and the size `sz`.
    pub fn set_size(&mut self, sz: FontSize, file: Option<Vec<u8>>) -> (res: Result<(), FontFileError>)
        ensures
            match file {
                None => res == Err::<(), FontFileError>(FontFileError::FileNotFound)
                    && final(self).file() == old(self).file()
                    && final(self).metadata() == old(self).metadata(),
                Some(d) => match (spec_verify_font_file(d@), spec_read_header(d@)) {
                    (Err(e), _) => res == Err::<(), FontFileError>(e)
                        && final(self).file() == old(self).file()
                        && final(self).metadata() == old(self).metadata(),
                    (Ok(_), Err(e)) => res == Err::<(), FontFileError>(e)
                        && final(self).file() == old(self).file()
                        && final(self).metadata() == old(self).metadata(),
                    (Ok(_), Ok(m)) => final(self).metadata() == m && if m.font_size == spec_font_points(sz) {
                        res == Ok::<(), FontFileError>(()) && final(self).file() == Some(d@)
                    } else {
                        res == Err::<(), FontFileError>(FontFileError::FileNotFound)
                            && final(self).file() == old(self).file()
                    },
                },
            },
    {
        match file {
            None => Err(FontFileError::FileNotFound),
            Some(d) => {
                match verify_font_file(d.as_slice()) {
                    Err(e) => { return Err(e); },
                    Ok(_) => {},
                }
                match read_header(d.as_slice()) {
                    Err(e) => Err(e),
                    Ok(m) => {
                        self.font_metadata = m;
                        if m.font_size != sz.points() {
                            return Err(FontFileError::FileNotFound);
                        }
                        self.font_file = Some(d);
                        Ok(())
                    },
                }
            },
        }
    }

    /// Looks up character `k` in the glyph index of the open file.
    fn binary_search(&self, k: u16) -> (res: Result<u32, FontFileError>)
        ensures
            self.file() is None ==> res == Err::<u32, FontFileError>(FontFileError::FileNotOpen),
            self.file() matches Some(d) ==> {
                let n = self.metadata().num_glyphs as int;
                &&& !index_fits(d, n) ==> res == Err::<u32, FontFileError>(eof_error())
                &&& index_fits(d, n) ==> res == spec_find_glyph(d, n, k)
                &&& index_fits(d, n) ==> match res {
                    Ok(o) => index_has(d, n, k as int, o as int),
                    Err(e) => e == FontFileError::InvalidChar(k) && (index_sorted(d, n)
                        ==> !index_has_code(d, n, k as int)),
                }
            },
    {
        match &self.font_file {
            None => Err(FontFileError::FileNotOpen),
            Some(d) => find_glyph(d.as_slice(), self.font_metadata.num_glyphs, k),
        }
    }

    /// Whether [`Self::load_char`] may be asked for `curchar`: false only when the glyph index of
    /// the open file lies inside it and lists `curchar` at a record whose data would be read out
    /// of bounds or overflow while decoding.
    pub fn can_load_char(&self, curchar: u16) -> (ok: bool)
        ensures
            ok == (self.file() matches Some(d) ==> (index_fits(d, self.metadata().num_glyphs as int) ==> char_loadable(
                d,
                self.metadata().num_glyphs as int,
                curchar as int,
            ))),
    {
        match &self.font_file {
            None => true,
            Some(d) => {
                let n = self.font_metadata.num_glyphs;
                let len = d.len();
                if len < 16 || (len - 16) / 6 < n as usize {
                    proof {
                        if len >= 16 {
                            assert(16 + 6 * n > len) by (nonlinear_arith)
                                requires
                                    (len - 16) / 6 < n,
                                    len >= 16,
                            ;
                        }
                    }
                    return true;
                }
                assert(16 + 6 * n <= len) by (nonlinear_arith)
                    requires
                        (len - 16) / 6 >= n,
                        len >= 16,
                ;
                let mut j: usize = 0;
                while j < n as usize
                    invariant
                        self.file() == Some(d@),
                        n == self.metadata().num_glyphs,
                        len == d@.len(),
                        16 + 6 * n <= len,
                        j <= n,
                        forall|q: int| 0 <= q < j && #[trigger] glyph_code(d@, q) == curchar ==> glyph_loadable(
                            d@,
                            glyph_offset(d@, q),
                            curchar as int,
                        ),
                    decreases n - j,
                {
                    let c = read_le16(d.as_slice(), 16 + 6 * j);
                    if c == curchar {
                        let o = read_le32(d.as_slice(), 18 + 6 * j);
                        if !glyph_check(d.as_slice(), o, curchar) {
                            assert(glyph_code(d@, j as int) == curchar);
                            assert(o == glyph_offset(d@, j as int));
                            assert(!glyph_loadable(d@, glyph_offset(d@, j as int), curchar as int));
                            assert(index_fits(d@, n as int));
                            assert(!char_loadable(d@, n as int, curchar as int));
                            return false;
                        }
                    }
                    j = j + 1;
                }
                true
            },
        }
    }

    /// Loads character `curchar`: its metadata and its pixels, column by column. On a file
    /// whose index is sorted by code the glyph is the one the index lists for `curchar`.
    pub fn load_char(&self, curchar: u16) -> (res: Result<(CharMetadata, Vec<RGB>), FontFileError>)
        requires
            self.file() matches Some(d) ==> (index_fits(d, self.metadata().num_glyphs as int) ==> char_loadable(
                d,
                self.metadata().num_glyphs as int,
                curchar as int,
            )),
        ensures
            self.file() is None ==> (res matches Err(e) && e == FontFileError::FileNotOpen),
            self.file() matches Some(d) ==> {
                let n = self.metadata().num_glyphs as int;
                &&& !index_fits(d, n) ==> (res matches Err(e) && e == eof_error())
                &&& index_fits(d, n) ==> match spec_bisect(d, curchar as int, 0, n) {
                    None => res matches Err(e) && e == FontFileError::InvalidChar(curchar),
                    Some(j) => glyph_matches(res, spec_glyph(d, glyph_offset(d, j), curchar as int)),
                }
                &&& index_fits(d, n) ==> {
                    ||| (res matches Err(e) && e == FontFileError::InvalidChar(curchar)
                        && (index_sorted(d, n) ==> !index_has_code(d, n, curchar as int)))
                    ||| exists|o: int| index_has(d, n, curchar as int, o)
                        && glyph_matches(res, spec_glyph(d, o, curchar as int))
                }
            },
    {
        let o = match self.binary_search(curchar) {
            Err(e) => { return Err(e); },
            Ok(o) => o,
        };
        match &self.font_file {
            None => Err(FontFileError::FileNotOpen),
            Some(d) => {
                let ghost n = self.metadata().num_glyphs as int;
                proof {
                    let j = choose|j: int| 0 <= j < n && glyph_code(d@, j) == curchar && glyph_offset(d@, j) == o;
                    assert(glyph_code(d@, j) == curchar);
                }
                let res = load_glyph(d.as_slice(), o, curchar);
                assert(index_has(d@, n, curchar as int, o as int));
                res
            },
        }
    }
}


/// A file opened for reading: its contents and the read position.
pub struct BgFile {
    pub data: Vec<u8>,
    pub pos: usize,
}

/// The number of pixels of a background image (240 by 320).
pub open spec fn bg_pixels() -> int {
    76800
}

/// A foreground colour blended over a background colour at opacity `alpha / 255`.
pub open spec fn spec_blend(alpha: u8, fg: RGB, bg: RGB) -> RGB {
    RGB {
        r: ((alpha * fg.r + (255 - alpha) * bg.r) / 255) as u8,
        g: ((alpha * fg.g + (255 - alpha) * bg.g) / 255) as u8,
        b: ((alpha * fg.b + (255 - alpha) * bg.b) / 255) as u8,
    }
}

/// What reading background image `index` from file contents `d`, at read position `pos`, gives
/// (the image or an error) and where it leaves the read position.
pub open spec fn spec_bg_read(d: Seq<u8>, pos: int, index: int, fg: RGB, bg: RGB) -> (Result<Seq<RGB>, FontFileError>, int) {
    let len = d.len() as int;
    if pos + 3 > len {
        (Err(FontFileError::FileNotFound), len)
    } else if d.subrange(pos, pos + 3) != seq![0x63u8, 0x62, 0x69] {
        (Err(FontFileError::BadFormat), pos + 3)
    } else if pos + 4 > len {
        (Err(FontFileError::FileNotFound), len)
    } else if d[pos + 3] != 2 {
        (Err(FontFileError::BadVersion), pos + 4)
    } else if pos + 5 > len {
        (Err(FontFileError::FileNotFound), len)
    } else if index >= d[pos + 4] {
        (Err(FontFileError::IndexOutOfBounds), pos + 5)
    } else if 5 + 4 * index + 4 > len {
        (Err(eof_error()), len)
    } else {
        let off = le32(d, 5 + 4 * index);
        if off + 5 > len {
            (Err(eof_error()), len)
        } else if le16(d, off + 1) != 240 || le16(d, off + 3) != 320 {
            (Err(FontFileError::BadSize), off + 5)
        } else {
            let alpha = d[off] & 1 != 0;
            let n = if alpha { bg_pixels() } else { 3 * bg_pixels() };
            if off + 5 + n > len {
                (Err(eof_error()), len)
            } else {
                let comp = d.subrange(off + 5, off + 5 + n);
                if alpha {
                    let dec = rle_decoded(comp);
                    (Ok(Seq::new(bg_pixels() as nat, |i: int| spec_blend(dec[i], fg, bg))), off + 5 + n)
                } else {
                    (Ok(Seq::new(bg_pixels() as nat, |i: int| RGB { r: comp[3 * i], g: comp[3 * i + 1], b: comp[3 * i + 2] })), off + 5 + n)
                }
            }
        }
    }
}

/// Reading the image can go on without a fault: a negative index never reaches the seek to
/// its offset, and alpha-encoded data decodes to at least one byte per pixel.
pub open spec fn bg_readable(d: Seq<u8>, pos: int, index: int) -> bool {
    let len = d.len() as int;
    let header_ok = pos + 5 <= len && d.subrange(pos, pos + 3) == seq![0x63u8, 0x62, 0x69]
        && d[pos + 3] == 2 && index < d[pos + 4];
    &&& header_ok ==> index >= 0
    &&& (header_ok && 5 + 4 * index + 4 <= len) ==> {
        let off = le32(d, 5 + 4 * index);
        (off + 5 + bg_pixels() <= len && le16(d, off + 1) == 240 && le16(d, off + 3) == 320
            && d[off] & 1 != 0) ==> {
            let comp = d.subrange(off + 5, off + 5 + bg_pixels());
            rle_well_formed(comp) && rle_decoded(comp).len() >= bg_pixels()
        }
    }
}

/// Copies `n` bytes of `d` from position `at`.
fn copy_bytes(d: &Vec<u8>, at: usize, n: usize) -> (out: Vec<u8>)
    requires
        at + n <= d@.len(),
    ensures
        out@ == d@.subrange(at as int, at + n),
{
    let dl = d.len();
    let mut out: Vec<u8> = Vec::new();
    let mut i: usize = 0;
    while i < n
        invariant
            dl == d@.len(),
            at + n <= d@.len(),
            i <= n,
            out@ == d@.subrange(at as int, at + i),
        decreases n - i,
    {
        out.push(d[at + i]);
        assert(d@.subrange(at as int, at + i + 1) =~= d@.subrange(at as int, at + i).push(d@[at + i]));
        i = i + 1;
    }
    out
}

fn blend_channel(alpha: u8, f: u8, b: u8) -> (c: u8)
    ensures
        c == ((alpha * f + (255 - alpha) * b) / 255) as u8,
{
    let a = alpha as u32;
    let inv = 255 - a;
    assert(a * (f as u32) <= 255 * 255 && inv * (b as u32) <= 255 * 255) by (nonlinear_arith)
        requires
            a <= 255,
            inv <= 255,
            f <= 255,
            b <= 255,
    ;
    ((a * f as u32 + inv * b as u32) / 255) as u8
}

impl BgFile {
    /// Reads background image `index`, with `fg` and `bg` the colours that alpha-encoded images
    /// blend, and moves the read position as the reads did.
    fn read_image(&mut self, index: i32, fg: RGB, bg: RGB) -> (res: Result<Vec<RGB>, FontFileError>)
        requires
            old(self).pos <= old(self).data@.len(),
            bg_readable(old(self).data@, old(self).pos as int, index as int),
        ensures
            final(self).data@ == old(self).data@,
            final(self).pos <= final(self).data@.len(),
            ({
                let (r, p) = spec_bg_read(old(self).data@, old(self).pos as int, index as int, fg, bg);
                &&& final(self).pos == p
                &&& match (res, r) {
                    (Ok(v), Ok(w)) => v@ == w,
                    (Err(e1), Err(e2)) => e1 == e2,
                    _ => false,
                }
            }),
    {
        let len = self.data.len();
        let pos = self.pos;
        if len - pos < 3 {
            self.pos = len;
            return Err(FontFileError::FileNotFound);
        }
        if !(self.data[pos] == 0x63 && self.data[pos + 1] == 0x62 && self.data[pos + 2] == 0x69) {
            self.pos = pos + 3;
            proof {
                if self.data@.subrange(pos as int, pos + 3) == seq![0x63u8, 0x62, 0x69] {
                    assert(self.data@.subrange(pos as int, pos + 3)[0] == 0x63u8);
                    assert(self.data@.subrange(pos as int, pos + 3)[1] == 0x62u8);
                    assert(self.data@.subrange(pos as int, pos + 3)[2] == 0x69u8);
                }
            }
            return Err(FontFileError::BadFormat);
        }
        assert(self.data@.subrange(pos as int, pos + 3) =~= seq![0x63u8, 0x62, 0x69]);
        if len - pos < 4 {
            self.pos = len;
            return Err(FontFileError::FileNotFound);
        }
        if self.data[pos + 3] != 2 {
            self.pos = pos + 4;
            return Err(FontFileError::BadVersion);
        }
        if len - pos < 5 {
            self.pos = len;
            return Err(FontFileError::FileNotFound);
        }
        let num_bgs = self.data[pos + 4];
        if index >= num_bgs as i32 {
            self.pos = pos + 5;
            return Err(FontFileError::IndexOutOfBounds);
        }
        let at: usize = 5 + 4 * (index as usize);
        if len < 4 || at > len - 4 {
            self.pos = len;
            return Err(FontFileError::IOError(IOErrorInfo { kind: IoErrorKind::UnexpectedEof }));
        }
        let off = read_le32(self.data.as_slice(), at) as usize;
        if off > len || len - off < 5 {
            self.pos = len;
            return Err(FontFileError::IOError(IOErrorInfo { kind: IoErrorKind::UnexpectedEof }));
        }
        let flags = self.data[off];
        let width = read_le16(self.data.as_slice(), off + 1);
        let height = read_le16(self.data.as_slice(), off + 3);
        if width != 240 || height != 320 {
            self.pos = off + 5;
            return Err(FontFileError::BadSize);
        }
        let alpha = flags & 1 != 0;
        let n: usize = if alpha { 76800 } else { 230400 };
        if len - off - 5 < n {
            self.pos = len;
            return Err(FontFileError::IOError(IOErrorInfo { kind: IoErrorKind::UnexpectedEof }));
        }
        let compressed = copy_bytes(&self.data, off + 5, n);
        self.pos = off + 5 + n;
        let mut buf: Vec<RGB> = Vec::new();
        if alpha {
            let decompressed = decode(compressed.as_slice());
            let mut i: usize = 0;
            while i < 76800
                invariant
                    decompressed@.len() >= 76800,
                    i <= 76800,
                    buf@ == Seq::new(i as nat, |j: int| spec_blend(decompressed@[j], fg, bg)),
                decreases 76800 - i,
            {
                let a = decompressed[i];
                buf.push(RGB { r: blend_channel(a, fg.r, bg.r), g: blend_channel(a, fg.g, bg.g), b: blend_channel(a, fg.b, bg.b) });
                assert(buf@ =~= Seq::new((i + 1) as nat, |j: int| spec_blend(decompressed@[j], fg, bg)));
                i = i + 1;
            }
        } else {
            let mut i: usize = 0;
            while i < 76800
                invariant
                    compressed@.len() == 230400,
                    i <= 76800,
                    buf@ == Seq::new(i as nat, |j: int| RGB { r: compressed@[3 * j], g: compressed@[3 * j + 1], b: compressed@[3 * j + 2] }),
                decreases 76800 - i,
            {
                buf.push(RGB { r: compressed[i * 3], g: compressed[i * 3 + 1], b: compressed[i * 3 + 2] });
                assert(buf@ =~= Seq::new((i + 1) as nat, |j: int| RGB { r: compressed@[3 * j], g: compressed@[3 * j + 1], b: compressed@[3 * j + 2] }));
                i = i + 1;
            }
        }
        Ok(buf)
    }
}

/// Whether two byte strings are equal.
fn bytes_equal(a: &[u8], b: &[u8]) -> (eq: bool)
    ensures
        eq == (a@ == b@),
{
    if a.len() != b.len() {
        return false;
    }
    let mut i: usize = 0;
    while i < a.len()
        invariant
            a@.len() == b@.len(),
            i <= a@.len(),
            forall|j: int| 0 <= j < i ==> a@[j] == b@[j],
        decreases a@.len() - i,
    {
        if a[i] != b[i] {
            return false;
        }
        i = i + 1;
    }
    assert(a@ =~= b@);
    true
}

/// An instance of the CBI decoding engine: the open background file, its name, and the
/// colours that alpha-encoded images blend.
pub struct PbBg {
    bg_file: Option<BgFile>,
    bg_filename: Option<String>,
    foreground_color: RGB,
    background_color: RGB,
}

impl PbBg {
    /// The contents and read position of the open file, if any.
    pub closed spec fn file(&self) -> Option<(Seq<u8>, int)> {
        match self.bg_file {
            Some(f) => Some((f.data@, f.pos as int)),
            None => None,
        }
    }

    /// The name of the file whose last image read succeeded, if any.
    pub closed spec fn filename(&self) -> Option<Seq<char>> {
        match self.bg_filename {
            Some(s) => Some(s@),
            None => None,
        }
    }

    pub closed spec fn foreground(&self) -> RGB {
        self.foreground_color
    }

    pub closed spec fn background(&self) -> RGB {
        self.background_color
    }

    /// The engine keeps its read position inside the open file.
    pub closed spec fn wf(&self) -> bool {
        self.bg_file matches Some(f) ==> f.pos <= f.data@.len()
    }

    /// An engine with no file open and black colours.
    pub fn new() -> (e: PbBg)
        ensures
            e.wf(),
            e.file() is None,
            e.filename() is None,
            e.foreground() == (RGB { r: 0, g: 0, b: 0 }),
            e.background() == (RGB { r: 0, g: 0, b: 0 }),
    {
        PbBg {
            bg_file: None,
            bg_filename: None,
            foreground_color: RGB { r: 0, g: 0, b: 0 },
            background_color: RGB { r: 0, g: 0, b: 0 },
        }
    }

    /// Whether loading an image from file `name` opens the file anew: when forced, or when
    /// the last image read did not come from `name`.
    pub fn needs_open(&self, name: &str, force_load: bool) -> (open: bool)
        ensures
            open == (force_load || self.filename() != Some(name@)),
    {
        if force_load {
            return true;
        }
        match &self.bg_filename {
            None => true,
            Some(f) => {
                let same = bytes_equal(f.as_str().as_bytes(), name.as_bytes());
                proof {
                    vstd::utf8::encode_utf8_decode_utf8(f@);
                    vstd::utf8::encode_utf8_decode_utf8(name@);
                }
                !same
            },
        }
    }

    /// Decodes background image `index` of file `name`. When the file has to be opened anew
    /// (see [`PbBg::needs_open`]) `opened` holds its contents, or `None` when opening failed;
    /// otherwise the file already open is used again. Either way the image is read from the
    /// start of the file, so reusing the open file gives what opening it anew would.
    pub fn load_bgimg(&mut self, name: &str, force_load: bool, index: i32, opened: Option<Vec<u8>>) -> (res: Result<Vec<RGB>, FontFileError>)
        requires
            old(self).wf(),
            ({
                let reopen = force_load || old(self).filename() != Some(name@);
                let f = if reopen {
                    match opened {
                        Some(d) => Some((d@, 0int)),
                        None => None,
                    }
                } else {
                    old(self).file()
                };
                f matches Some((d, p)) ==> bg_readable(d, 0, index as int)
            }),
        ensures
            final(self).wf(),
            final(self).foreground() == old(self).foreground(),
            final(self).background() == old(self).background(),
            ({
                let reopen = force_load || old(self).filename() != Some(name@);
                if reopen && opened is None {
                    &&& res == Err::<Vec<RGB>, FontFileError>(FontFileError::FileNotFound)
                    &&& final(self).file() == old(self).file()
                    &&& final(self).filename() == old(self).filename()
                } else {
                    let f = if reopen { Some((opened->0@, 0int)) } else { old(self).file() };
                    match f {
                        None => {
                            &&& res == Err::<Vec<RGB>, FontFileError>(FontFileError::FileNotFound)
                            &&& final(self).file() is None
                            &&& final(self).filename() == old(self).filename()
                        },
                        Some((d, p)) => {
                            let (r, np) = spec_bg_read(d, 0, index as int, old(self).foreground(), old(self).background());
                            &&& final(self).file() == Some((d, np))
                            &&& match (res, r) {
                                (Ok(v), Ok(w)) => v@ == w && final(self).filename() == Some(name@),
                                (Err(e1), Err(e2)) => e1 == e2 && final(self).filename() == old(self).filename(),
                                _ => false,
                            }
                        },
                    }
                }
            }),
    {
        if self.needs_open(name, force_load) {
            match opened {
                None => { return Err(FontFileError::FileNotFound); },
                Some(d) => { self.bg_file = Some(BgFile { data: d, pos: 0 }); },
            }
        }
        let fg = self.foreground_color;
        let bg = self.background_color;
        match &mut self.bg_file {
            None => Err(FontFileError::FileNotFound),
            Some(file) => {
                file.pos = 0;
                let res = file.read_image(index, fg, bg);
                match res {
                    Ok(buf) => {
                        self.bg_filename = Some(name.to_owned());
                        Ok(buf)
                    },
                    Err(e) => Err(e),
                }
            },
        }
    }

    /// Sets the colours that alpha-encoded images blend: `foreground` at full opacity.
    pub fn init_colors(&mut self, foreground: RGB, background: RGB)
        requires
            old(self).wf(),
        ensures
            final(self).wf(),
            final(self).foreground() == foreground,
            final(self).background() == background,
            final(self).file() == old(self).file(),
            final(self).filename() == old(self).filename(),
    {
        self.foreground_color = foreground;
        self.background_color = background;
    }
}

} // verus!
