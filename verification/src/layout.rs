//! Laying text out on the screen from the metadata of its glyphs: where each glyph goes, where
//! the next text starts, the box a string covers, and the errors of the display driver.
use vstd::prelude::*;
use crate::font::{CharMetadata, FontFileError, IoErrorKind};
use crate::rgb::ColorConversionError;
use crate::text::{concat_str, decimal_string, spec_decimal, ascii_chars};

verus! {

/// Why the display interface failed.
#[derive(Debug, Clone, Copy, PartialEq, Eq, Structural)]
pub enum DisplayErrorKind {
    InvalidFormatError,
    BusWriteError,
    DCError,
    CSError,
    DataFormatNotImplemented,
    RSError,
    OutOfBoundsError,
    /// A kind that the driver does not name.
    Other,
}

/// What can go wrong while drawing.
#[derive(Debug, Clone)]
pub enum ILIError {
    Disp(DisplayErrorKind),
    Conv(ColorConversionError),
    FF(FontFileError),
    /// A glyph would start or end off the screen (at this column and row).
    WritingOffScreen(u16, u16),
    /// The SPI bus could not be configured (with the configuration error's text).
    SpiConfigError(String),
}

/// The message of an IO error kind.
pub open spec fn io_kind_text(k: IoErrorKind) -> Seq<char> {
    match k {
        IoErrorKind::NotFound => "entity not found"@,
        IoErrorKind::UnexpectedEof => "unexpected end of file"@,
        IoErrorKind::Other => "other error"@,
    }
}

/// The decimal text of `v`.
pub open spec fn dec(v: nat) -> Seq<char> {
    ascii_chars(spec_decimal(v))
}

/// The message of a font file error.
pub open spec fn font_error_text(e: FontFileError) -> Seq<char> {
    match e {
        FontFileError::FileNotFound => "FF: FileNotFound"@,
        FontFileError::BadFormat => "FF: BadFormat"@,
        FontFileError::BadSize => "FF: BadSize"@,
        FontFileError::BadChar(a, b, c) => "FF: BadChar = char: "@ + dec(a as nat) + ", wxh "@ + dec(b as nat) + "x"@ + dec(c as nat),
        FontFileError::InvalidChar(x) => "FF: InvalidChar = "@ + dec(x as nat),
        FontFileError::IndexOutOfBounds => "FF: IndexOutOfBounds"@,
        FontFileError::IOError(i) => "FF: IOError "@ + io_kind_text(i.kind),
        FontFileError::FileNotOpen => "FF: FileNotOpen"@,
        FontFileError::BadVersion => "FF: Background file is the wrong version!"@,
    }
}

/// The message of an IO error kind.
pub fn io_kind_message(k: IoErrorKind) -> (s: String)
    ensures
        s@ == io_kind_text(k),
{
    match k {
        IoErrorKind::NotFound => "entity not found".to_owned(),
        IoErrorKind::UnexpectedEof => "unexpected end of file".to_owned(),
        IoErrorKind::Other => "other error".to_owned(),
    }
}

/// The message of a font file error.
pub fn font_error_message(e: FontFileError) -> (s: String)
    ensures
        s@ == font_error_text(e),
{
    match e {
        FontFileError::FileNotFound => "FF: FileNotFound".to_owned(),
        FontFileError::BadFormat => "FF: BadFormat".to_owned(),
        FontFileError::BadSize => "FF: BadSize".to_owned(),
        FontFileError::BadChar(a, b, c) => {
            let s1 = concat_str("FF: BadChar = char: ", decimal_string(a as u32).as_str());
            let s2 = concat_str(s1.as_str(), ", wxh ");
            let s3 = concat_str(s2.as_str(), decimal_string(b as u32).as_str());
            let s4 = concat_str(s3.as_str(), "x");
            concat_str(s4.as_str(), decimal_string(c as u32).as_str())
        },
        FontFileError::InvalidChar(x) => concat_str("FF: InvalidChar = ", decimal_string(x as u32).as_str()),
        FontFileError::IndexOutOfBounds => "FF: IndexOutOfBounds".to_owned(),
        FontFileError::IOError(i) => concat_str("FF: IOError ", io_kind_message(i.kind).as_str()),
        FontFileError::FileNotOpen => "FF: FileNotOpen".to_owned(),
        FontFileError::BadVersion => "FF: Background file is the wrong version!".to_owned(),
    }
}

/// The message of a display error.
pub open spec fn ili_error_text(e: ILIError) -> Seq<char> {
    match e {
        ILIError::Disp(d) => match d {
            DisplayErrorKind::InvalidFormatError => "ILIERROR: Invalid Formatting Error"@,
            DisplayErrorKind::BusWriteError => "ILIERROR: Bus Write Error"@,
            DisplayErrorKind::DCError => "ILIERROR: DC Error"@,
            DisplayErrorKind::CSError => "ILIERROR: CS Error"@,
            DisplayErrorKind::DataFormatNotImplemented => "ILIERROR: Data Format not implemented!"@,
            DisplayErrorKind::RSError => "ILIERROR: RS Error"@,
            DisplayErrorKind::OutOfBoundsError => "ILIERROR: Out Of Bounds Error"@,
            DisplayErrorKind::Other => "ILIERROR: unhandled error type!"@,
        },
        ILIError::Conv(c) => match c {
            ColorConversionError::NonHomogeneousIterator => "ILIERROR: color iterator has mixed color formats!"@,
            ColorConversionError::TooMuchColorData => "ILIERROR: too much color data sent to write function!"@,
        },
        ILIError::SpiConfigError(c) => "Spi Configuration error! "@ + c@,
        ILIError::FF(ff) => font_error_text(ff),
        ILIError::WritingOffScreen(x, y) => "Error: writing off screen at ("@ + dec(x as nat) + ", "@ + dec(y as nat) + ")!"@,
    }
}

impl ILIError {
    /// The message that describes the error.
    pub fn message(&self) -> (s: String)
        ensures
            s@ == ili_error_text(*self),
    {
        match self {
            ILIError::Disp(d) => match d {
                DisplayErrorKind::InvalidFormatError => "ILIERROR: Invalid Formatting Error".to_owned(),
                DisplayErrorKind::BusWriteError => "ILIERROR: Bus Write Error".to_owned(),
                DisplayErrorKind::DCError => "ILIERROR: DC Error".to_owned(),
                DisplayErrorKind::CSError => "ILIERROR: CS Error".to_owned(),
                DisplayErrorKind::DataFormatNotImplemented => "ILIERROR: Data Format not implemented!".to_owned(),
                DisplayErrorKind::RSError => "ILIERROR: RS Error".to_owned(),
                DisplayErrorKind::OutOfBoundsError => "ILIERROR: Out Of Bounds Error".to_owned(),
                DisplayErrorKind::Other => "ILIERROR: unhandled error type!".to_owned(),
            },
            ILIError::Conv(c) => match c {
                ColorConversionError::NonHomogeneousIterator => "ILIERROR: color iterator has mixed color formats!".to_owned(),
                ColorConversionError::TooMuchColorData => "ILIERROR: too much color data sent to write function!".to_owned(),
            },
            ILIError::SpiConfigError(c) => concat_str("Spi Configuration error! ", c.as_str()),
            ILIError::FF(ff) => font_error_message(*ff),
            ILIError::WritingOffScreen(x, y) => {
                let s1 = concat_str("Error: writing off screen at (", decimal_string(*x as u32).as_str());
                let s2 = concat_str(s1.as_str(), ", ");
                let s3 = concat_str(s2.as_str(), decimal_string(*y as u32).as_str());
                concat_str(s3.as_str(), ")!")
            },
        }
    }
}

// ----------------------------------------------------------------------------------------------
// Drawing a string glyph by glyph

/// Where the next glyph of a string goes.
#[derive(Debug, Clone, Copy, PartialEq, Eq, Structural)]
pub struct TextCursor {
    pub x: u16,
    pub y: u16,
}

/// Where a glyph is drawn: its window from row `y0`, column `x0` to row `y1`, column `x1`.
#[derive(Debug, Clone, Copy, PartialEq, Eq, Structural)]
pub struct GlyphWindow {
    pub y0: u16,
    pub x0: u16,
    pub y1: u16,
    pub x1: u16,
}

/// What the driver does with one glyph of a string.
#[derive(Debug, Clone, Copy, PartialEq, Eq, Structural)]
pub enum GlyphStep {
    /// Draw the glyph in the window (none for a glyph without pixels); the next glyph goes to
    /// the cursor.
    Draw(Option<GlyphWindow>, TextCursor),
    /// The glyph would pass the right edge: go down a line, back to the first column, and
    /// leave this glyph out.
    NewLine(TextCursor),
}

/// The glyph can be placed without overflowing 16 bits.
pub open spec fn place_ok(cur: TextCursor, m: CharMetadata) -> bool {
    &&& cur.x + m.advance <= u16::MAX
    &&& m.width != 0 ==> {
        let sx = cur.x - m.x;
        let sy = cur.y - m.y;
        (0 <= sx <= u16::MAX && 0 <= sy <= u16::MAX) ==> (sx + m.width <= u16::MAX
            && sy + m.height / 3 <= u16::MAX && sy + m.height / 3 >= 1)
    }
}

/// What the driver does with a glyph of metadata `m` at the cursor `cur`, on a display
/// `display_width` wide, for a string that starts at column `x0` and moves `newline_offset`
/// rows up for a new line (none when not positive).
pub open spec fn spec_place(cur: TextCursor, m: CharMetadata, x0: u16, newline_offset: i16, display_width: usize) -> Result<GlyphStep, ILIError> {
    let next = TextCursor { x: (cur.x + m.advance) as u16, y: cur.y };
    if m.width == 0 {
        Ok(GlyphStep::Draw(None, next))
    } else {
        let sx = cur.x - m.x;
        let sy = cur.y - m.y;
        if !(0 <= sx <= u16::MAX) || !(0 <= sy <= u16::MAX) {
            Err(ILIError::WritingOffScreen(cur.x, cur.y))
        } else if sx + m.width - 1 > display_width {
            if newline_offset > 0 {
                let ny = cur.y - newline_offset;
                if 0 <= ny {
                    Ok(GlyphStep::NewLine(TextCursor { x: x0, y: ny as u16 }))
                } else {
                    Err(ILIError::WritingOffScreen(cur.x, cur.y))
                }
            } else {
                Err(ILIError::WritingOffScreen(sx as u16, sy as u16))
            }
        } else {
            Ok(GlyphStep::Draw(Some(GlyphWindow {
                y0: sy as u16,
                x0: sx as u16,
                y1: (sy + m.height / 3 - 1) as u16,
                x1: (sx + m.width - 1) as u16,
            }), next))
        }
    }
}

/// `a - b` if it is a `u16`.
fn checked_sub_signed(a: u16, b: i16) -> (r: Option<u16>)
    ensures
        r matches Some(v) ==> v == a - b,
        r is None <==> !(0 <= a - b <= u16::MAX),
{
    let d: i32 = a as i32 - b as i32;
    if d < 0 || d > 65535 { None } else { Some(d as u16) }
}

/// Places one glyph of a string: its window, from its offsets against the cursor, and where
/// the next glyph goes. A glyph that starts off the screen is an error; one that passes the
/// right edge starts a new line when the string has a line offset, and is an error otherwise.
pub fn place_glyph(cur: TextCursor, m: CharMetadata, x0: u16, newline_offset: i16, display_width: usize) -> (r: Result<GlyphStep, ILIError>)
    requires
        place_ok(cur, m),
    ensures
        r == spec_place(cur, m, x0, newline_offset, display_width),
{
    let next = TextCursor { x: cur.x + m.advance, y: cur.y };
    if m.width == 0 {
        return Ok(GlyphStep::Draw(None, next));
    }
    let sx = match checked_sub_signed(cur.x, m.x) {
        Some(v) => v,
        None => { return Err(ILIError::WritingOffScreen(cur.x, cur.y)); },
    };
    let sy = match checked_sub_signed(cur.y, m.y) {
        Some(v) => v,
        None => { return Err(ILIError::WritingOffScreen(cur.x, cur.y)); },
    };
    let right: u16 = sx + m.width - 1;
    if right as usize > display_width {
        if newline_offset > 0 {
            match checked_sub_signed(cur.y, newline_offset) {
                Some(ny) => Ok(GlyphStep::NewLine(TextCursor { x: x0, y: ny })),
                None => Err(ILIError::WritingOffScreen(cur.x, cur.y)),
            }
        } else {
            Err(ILIError::WritingOffScreen(sx, sy))
        }
    } else {
        Ok(GlyphStep::Draw(Some(GlyphWindow { y0: sy, x0: sx, y1: sy + m.height / 3 - 1, x1: right }), next))
    }
}

// ----------------------------------------------------------------------------------------------
// Measuring a string

/// A point on the screen.
#[derive(Debug, Clone, Copy, PartialEq, Eq, Structural)]
pub struct Point {
    pub x: i32,
    pub y: i32,
}

/// The box a string covers (its corners) and where the text after it starts.
#[derive(Debug, Clone, Copy, PartialEq, Eq, Structural)]
pub struct TextMetrics {
    pub top_left: Point,
    pub bottom_right: Point,
    pub next_position: Point,
}

/// The metrics of the glyphs `ms` set from `pos`: each glyph's box runs from the pen minus its
/// rise to its width and a third of its height further; the box of the string grows to hold
/// each glyph's box, and the pen moves by each glyph's advance.
pub open spec fn spec_measure(ms: Seq<CharMetadata>, pos: Point) -> TextMetrics
    decreases ms.len(),
{
    if ms.len() == 0 {
        TextMetrics { top_left: pos, bottom_right: pos, next_position: pos }
    } else {
        let prev = spec_measure(ms.drop_last(), pos);
        let m = ms.last();
        let p = prev.next_position;
        let tlx = p.x;
        let tly = p.y - m.y;
        let brx = tlx + m.width;
        let bry = tly + m.height / 3;
        TextMetrics {
            top_left: Point {
                x: if tlx < prev.top_left.x { tlx as i32 } else { prev.top_left.x },
                y: if tly < prev.top_left.y { tly as i32 } else { prev.top_left.y },
            },
            bottom_right: Point {
                x: if brx > prev.bottom_right.x { brx as i32 } else { prev.bottom_right.x },
                y: if bry > prev.bottom_right.y { bry as i32 } else { prev.bottom_right.y },
            },
            next_position: Point { x: (p.x + m.advance) as i32, y: p.y },
        }
    }
}

/// The sum of the advances of the glyphs.
pub open spec fn total_advance(ms: Seq<CharMetadata>) -> int
    decreases ms.len(),
{
    if ms.len() == 0 { 0 } else { total_advance(ms.drop_last()) + ms.last().advance }
}

/// A string of glyphs can be measured from `pos` within 32 bits.
pub open spec fn measure_ok(ms: Seq<CharMetadata>, pos: Point) -> bool {
    &&& pos.x + total_advance(ms) + 65535 <= i32::MAX
    &&& pos.y - 32768 >= i32::MIN
    &&& pos.y + 32768 + 65535 <= i32::MAX
}

proof fn lemma_total_advance_prefix(ms: Seq<CharMetadata>, i: int)
    requires
        0 <= i <= ms.len(),
    ensures
        0 <= total_advance(ms.take(i)) <= total_advance(ms),
    decreases ms.len() - i,
{
    if i < ms.len() {
        lemma_total_advance_prefix(ms, i + 1);
        assert(ms.take(i + 1).drop_last() =~= ms.take(i));
    } else {
        assert(ms.take(i) =~= ms);
    }
    lemma_total_advance_nonneg(ms.take(i));
}

proof fn lemma_total_advance_nonneg(ms: Seq<CharMetadata>)
    ensures
        total_advance(ms) >= 0,
    decreases ms.len(),
{
    if ms.len() > 0 {
        lemma_total_advance_nonneg(ms.drop_last());
    }
}

proof fn lemma_measure_pen(ms: Seq<CharMetadata>, pos: Point)
    requires
        measure_ok(ms, pos),
    ensures
        spec_measure(ms, pos).next_position == (Point { x: (pos.x + total_advance(ms)) as i32, y: pos.y }),
    decreases ms.len(),
{
    if ms.len() > 0 {
        lemma_total_advance_prefix(ms, ms.len() - 1);
        assert(ms.take(ms.len() - 1) =~= ms.drop_last());
        lemma_measure_pen(ms.drop_last(), pos);
    }
}

/// Measures a string from the metadata of its glyphs, starting at `pos`.
pub fn measure_glyphs(ms: &[CharMetadata], pos: Point) -> (t: TextMetrics)
    requires
        measure_ok(ms@, pos),
    ensures
        t == spec_measure(ms@, pos),
{
    let mut t = TextMetrics { top_left: pos, bottom_right: pos, next_position: pos };
    let mut i: usize = 0;
    while i < ms.len()
        invariant
            i <= ms@.len(),
            measure_ok(ms@, pos),
            t == spec_measure(ms@.take(i as int), pos),
        decreases ms@.len() - i,
    {
        let m = ms[i];
        proof {
            assert(ms@.take(i + 1).drop_last() =~= ms@.take(i as int));
            assert(ms@.take(i + 1).last() == m);
            lemma_total_advance_prefix(ms@, i as int);
            lemma_total_advance_prefix(ms@, i + 1);
            lemma_measure_pen(ms@.take(i as int), pos);
            lemma_measure_pen(ms@.take(i + 1), pos);
            assert(total_advance(ms@.take(i + 1)) == total_advance(ms@.take(i as int)) + m.advance);
        }
        let p = t.next_position;
        let tlx: i32 = p.x;
        let tly: i32 = p.y - m.y as i32;
        let brx: i32 = tlx + m.width as i32;
        let bry: i32 = tly + (m.height / 3) as i32;
        let top_left = Point {
            x: if tlx < t.top_left.x { tlx } else { t.top_left.x },
            y: if tly < t.top_left.y { tly } else { t.top_left.y },
        };
        let bottom_right = Point {
            x: if brx > t.bottom_right.x { brx } else { t.bottom_right.x },
            y: if bry > t.bottom_right.y { bry } else { t.bottom_right.y },
        };
        t = TextMetrics { top_left, bottom_right, next_position: Point { x: p.x + m.advance as i32, y: p.y } };
        i = i + 1;
    }
    proof {
        assert(ms@.take(ms@.len() as int) =~= ms@);
    }
    t
}

/// The width of a space, taken as at most `i32::MAX`.
pub open spec fn sat_width(width: u32) -> int {
    if width > i32::MAX { i32::MAX as int } else { width as int }
}

/// Where the pen is after a space `width` pixels wide (a width past `i32::MAX` counts as
/// `i32::MAX`).
pub fn draw_whitespace(width: u32, pos: Point) -> (p: Point)
    requires
        pos.x + sat_width(width) <= i32::MAX,
    ensures
        p == (Point { x: (pos.x + sat_width(width)) as i32, y: pos.y }),
{
    let w: i32 = if width > 2147483647 { 2147483647 } else { width as i32 };
    Point { x: pos.x + w, y: pos.y }
}

/// Half the height (and the width) of a menu cursor.
pub const CURSOR_WIDTH: i32 = 4;

/// The corners of a cursor pointing right whose tip is at `tip`.
pub open spec fn spec_cursor_right(tip: Point) -> [Point; 3] {
    [
        tip,
        Point { x: (tip.x - CURSOR_WIDTH) as i32, y: (tip.y - CURSOR_WIDTH) as i32 },
        Point { x: (tip.x - CURSOR_WIDTH) as i32, y: (tip.y + CURSOR_WIDTH) as i32 },
    ]
}

/// The corners of a cursor pointing left whose tip is at `tip`.
pub open spec fn spec_cursor_left(tip: Point) -> [Point; 3] {
    [
        tip,
        Point { x: (tip.x + CURSOR_WIDTH) as i32, y: (tip.y - CURSOR_WIDTH) as i32 },
        Point { x: (tip.x + CURSOR_WIDTH) as i32, y: (tip.y + CURSOR_WIDTH) as i32 },
    ]
}

/// A cursor, four pixels wide, pointing right at `rightmost_point`: the tip, then the upper and
/// lower corners of its back.
pub fn cursor_right(rightmost_point: Point) -> (t: [Point; 3])
    requires
        rightmost_point.x - CURSOR_WIDTH >= i32::MIN,
        rightmost_point.y - CURSOR_WIDTH >= i32::MIN,
        rightmost_point.y + CURSOR_WIDTH <= i32::MAX,
    ensures
        t == spec_cursor_right(rightmost_point),
{
    let p = rightmost_point;
    [p, Point { x: p.x - CURSOR_WIDTH, y: p.y - CURSOR_WIDTH }, Point { x: p.x - CURSOR_WIDTH, y: p.y + CURSOR_WIDTH }]
}

/// A cursor, four pixels wide, pointing left at `leftmost_point`: the tip, then the upper and
/// lower corners of its back.
pub fn cursor_left(leftmost_point: Point) -> (t: [Point; 3])
    requires
        leftmost_point.x + CURSOR_WIDTH <= i32::MAX,
        leftmost_point.y - CURSOR_WIDTH >= i32::MIN,
        leftmost_point.y + CURSOR_WIDTH <= i32::MAX,
    ensures
        t == spec_cursor_left(leftmost_point),
{
    let p = leftmost_point;
    [p, Point { x: p.x + CURSOR_WIDTH, y: p.y - CURSOR_WIDTH }, Point { x: p.x + CURSOR_WIDTH, y: p.y + CURSOR_WIDTH }]
}

/// The two cursors that frame a choice centred at `center`, `width` pixels to either side: one
/// pointing right at the left end, one pointing left at the right end.
pub fn two_cursors(center: Point, width: i32) -> (r: ([Point; 3], [Point; 3]))
    requires
        center.x - width - CURSOR_WIDTH >= i32::MIN,
        center.x - width <= i32::MAX,
        center.x + width + CURSOR_WIDTH <= i32::MAX,
        center.x + width >= i32::MIN,
        center.y - CURSOR_WIDTH >= i32::MIN,
        center.y + CURSOR_WIDTH <= i32::MAX,
    ensures
        r.0 == spec_cursor_right(Point { x: (center.x - width) as i32, y: center.y }),
        r.1 == spec_cursor_left(Point { x: (center.x + width) as i32, y: center.y }),
{
    let l = cursor_right(Point { x: center.x - width, y: center.y });
    let r = cursor_left(Point { x: center.x + width, y: center.y });
    (l, r)
}

} // verus!
