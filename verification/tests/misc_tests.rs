use pumpbot::layout::{cursor_left, cursor_right, two_cursors};
use pumpbot::button::{ButtonEventKind, Debounce};
use pumpbot::font::{CharMetadata, FontFileError, IOErrorInfo, IoErrorKind};
use pumpbot::lang::{next_lang, prev_lang, Lang, LanguageString};
use pumpbot::layout::{
    draw_whitespace, font_error_message, measure_glyphs, place_glyph, DisplayErrorKind, GlyphStep, GlyphWindow,
    ILIError, Point, TextCursor,
};
use pumpbot::profiler::{Profiler, SpanGuard};
use pumpbot::queue::Queue;
use pumpbot::rgb::{ColorConversionError, RGB};
use pumpbot::rotenc::{accel_multiplier, accelerated_delta};
use pumpbot::settings::{Theme, ThemedColor};
use pumpbot::text::{concat_str, decimal_u32, parse_u16, parse_u8, split_bytes, strcspn, strspn};
use pumpbot::textbox::{get_preview, TextAction, TextBoxClick, TextBoxState, TextSelectorLayer, TextSelectorState, reel};

fn meta(advance: u16, x: i16, y: i16, width: u16, height: u16) -> CharMetadata {
    CharMetadata { vertical: false, advance, x, y, width, height }
}

#[test]
fn glyph_placement() {
    let cur = TextCursor { x: 10, y: 50 };
    let step = place_glyph(cur, meta(8, 1, 12, 6, 30), 10, 0, 127).unwrap();
    assert_eq!(step, GlyphStep::Draw(Some(GlyphWindow { y0: 38, x0: 9, y1: 47, x1: 14 }), TextCursor { x: 18, y: 50 }));
    assert_eq!(place_glyph(cur, meta(5, 0, 0, 0, 0), 10, 0, 127).unwrap(), GlyphStep::Draw(None, TextCursor { x: 15, y: 50 }));
}

#[test]
fn glyph_off_screen() {
    let cur = TextCursor { x: 125, y: 50 };
    assert!(matches!(place_glyph(cur, meta(8, 0, 12, 6, 30), 3, 0, 127), Err(ILIError::WritingOffScreen(125, 38))));
    assert_eq!(place_glyph(cur, meta(8, 0, 12, 6, 30), 3, 20, 127).unwrap(), GlyphStep::NewLine(TextCursor { x: 3, y: 30 }));
    assert!(matches!(place_glyph(TextCursor { x: 0, y: 5 }, meta(1, 2, 0, 1, 3), 0, 0, 127), Err(ILIError::WritingOffScreen(0, 5))));
}

#[test]
fn measuring_a_string() {
    let ms = [meta(7, 0, 10, 6, 30), meta(5, 0, 4, 4, 12)];
    let t = measure_glyphs(&ms, Point { x: 0, y: 20 });
    assert_eq!(t.top_left, Point { x: 0, y: 10 });
    assert_eq!(t.bottom_right, Point { x: 11, y: 20 });
    assert_eq!(t.next_position, Point { x: 12, y: 20 });
    assert_eq!(draw_whitespace(u32::MAX, Point { x: 0, y: 3 }), Point { x: i32::MAX, y: 3 });
}

#[test]
fn error_messages() {
    assert_eq!(font_error_message(FontFileError::BadChar(65, 3, 4)), "FF: BadChar = char: 65, wxh 3x4");
    assert_eq!(font_error_message(FontFileError::IOError(IOErrorInfo { kind: IoErrorKind::NotFound })), "FF: IOError entity not found");
    assert_eq!(ILIError::WritingOffScreen(3, 400).message(), "Error: writing off screen at (3, 400)!");
    assert_eq!(ILIError::Disp(DisplayErrorKind::DCError).message(), "ILIERROR: DC Error");
    assert_eq!(ILIError::Conv(ColorConversionError::TooMuchColorData).message(), "ILIERROR: too much color data sent to write function!");
    assert_eq!(ILIError::FF(FontFileError::FileNotOpen).message(), "FF: FileNotOpen");
}

#[test]
fn text_box_typing() {
    let mut b = TextBoxState::new(vec![], 2);
    assert_eq!(b.click(), TextBoxClick::Opened);
    assert_eq!(b.click(), TextBoxClick::Typed('a', true));
    b.right();
    assert_eq!(b.click(), TextBoxClick::Typed('b', true));
    assert_eq!(b.click(), TextBoxClick::Typed('b', false));
    assert_eq!(b.entry, vec!['a', 'b']);
    for _ in 0..29 {
        b.right();
    }
    assert_eq!(b.selector.selection, 30);
    assert_eq!(b.click(), TextBoxClick::Erased(true));
    assert_eq!(b.entry, vec!['a']);
    b.left();
    assert_eq!(b.click(), TextBoxClick::Switched);
    assert_eq!(b.selector.layer, TextSelectorLayer::Symbol);
    assert_eq!(b.selector.selection, 29);
    for _ in 0..10 {
        b.left();
    }
    assert_eq!(b.selector.selection, 19);
    assert_eq!(b.click(), TextBoxClick::Typed('3', true));
    for _ in 0..14 {
        b.right();
    }
    assert_eq!(b.click(), TextBoxClick::Submitted);
    assert!(!b.sub_menu_open);
}

#[test]
fn reels_and_window() {
    assert_eq!(reel(TextSelectorLayer::Lowercase).len(), 31);
    assert_eq!(reel(TextSelectorLayer::Symbol)[34].action, TextAction::Backspace);
    let s = TextSelectorState { selection: 1, layer: TextSelectorLayer::Uppercase };
    assert_eq!(s.window(), vec![29, 30, 0, 1, 2, 3, 4]);
}

#[test]
fn previews() {
    assert_eq!(get_preview("", "(empty)", 4), "(empty)");
    assert_eq!(get_preview("abc", "(empty)", 4), "abc");
    assert_eq!(get_preview("abcdef", "(empty)", 4), "abcd...");
}

#[test]
fn small_text_helpers() {
    assert_eq!(parse_u8(b"+255"), Some(255));
    assert_eq!(parse_u8(b"256"), None);
    assert_eq!(parse_u16(b"65535"), Some(65535));
    assert_eq!(parse_u16(b"65536"), None);
    assert_eq!(parse_u16(b""), None);
    assert_eq!(parse_u16(b"+"), None);
    assert_eq!(decimal_u32(4000000000), b"4000000000".to_vec());
    assert_eq!(split_bytes(b"a&&b", b'&'), vec![b"a".to_vec(), vec![], b"b".to_vec()]);
    assert_eq!(concat_str("héllo", " wörld"), "héllo wörld");
}

#[test]
fn button_press_and_release() {
    let mut d = Debounce::new(4);
    let mut events = vec![];
    for t in 0..10u64 {
        if let Some(e) = d.tick(t + 1, false) {
            events.push(e.event);
        }
    }
    assert_eq!(events, vec![ButtonEventKind::Down]);
    let mut later = vec![];
    for t in 10..20u64 {
        if let Some(e) = d.tick(t + 1, true) {
            later.push(e.event);
        }
    }
    assert_eq!(later, vec![ButtonEventKind::Up]);
}

#[test]
fn profiler_spans() {
    let mut p = Profiler::new();
    let g = SpanGuard::new(&mut p, "outer", 10);
    p.enter("inner", 20);
    p.exit(25);
    g.finish(&mut p, 40);
    let rows = SpanGuard::dump(&p);
    assert_eq!(rows, vec![(1, "inner", 5), (0, "outer", 30)]);
}

#[test]
fn queue_order() {
    let mut q: Queue<u8> = Queue::new(4);
    q.send_back(1, 0).unwrap();
    q.send_back(2, 0).unwrap();
    q.send_front(3, 0).unwrap();
    assert_eq!(q.peek_front(0), Some(3));
    assert_eq!(q.recv_front(0), Some((3, true)));
    assert_eq!(q.recv_front(0), Some((1, true)));
    assert_eq!(q.recv_front(0), Some((2, true)));
    assert_eq!(q.recv_front(0), None);
}

#[test]
fn encoder_acceleration() {
    assert_eq!(accel_multiplier(50, 0), 1);
    assert_eq!(accel_multiplier(200, 10), 1);
    assert_eq!(accel_multiplier(0, 10), 100);
    assert_eq!(accel_multiplier(100, 10), 4);
    assert_eq!(accel_multiplier(60, 10), 36);
    assert_eq!(accelerated_delta(1000, 100), i16::MAX);
    assert_eq!(accelerated_delta(-3, 7), -21);
}

#[test]
fn colours_and_themes() {
    assert_eq!(RGB::grey(7), RGB { r: 7, g: 7, b: 7 });
    assert_eq!(RGB { r: 255, g: 255, b: 255 }.luminance(), 255);
    assert_eq!(Theme::Dark.fg(), RGB { r: 255, g: 255, b: 255 });
    assert_eq!(Theme::Custom(RGB { r: 250, g: 250, b: 250 }).fg(), RGB { r: 0, g: 0, b: 0 });
    assert_eq!(ThemedColor::Highlight.get(&Theme::Light), RGB { r: 255, g: 0, b: 0 });
    assert_eq!(RGB::to_byte_array(&[RGB { r: 1, g: 2, b: 3 }]), Ok(vec![1, 2, 3]));
}

#[test]
fn languages() {
    assert_eq!(next_lang(Lang::Cn), Lang::De);
    assert_eq!(prev_lang(Lang::De), Lang::Cn);
    assert_eq!(next_lang(Lang::Ru), Lang::De);
    assert_eq!(prev_lang(Lang::En), Lang::De);
    assert_eq!(u8::from(Lang::De), 8);
    assert_eq!(Lang::from(2u8), Lang::Fr);
    assert_eq!(Lang::from(200u8), Lang::En);
    let l = LanguageString::new("a", "b", "c", "d", "e", "f", "g", "h", "i");
    assert_eq!(l.const_index(Lang::Ru), "h");
}

#[test]
fn strspn_counts_accepted_prefix() {
    assert_eq!(strspn(b"129th\0", b"1234567890\0"), 3);
    assert_eq!(strspn(b"abc", b"cba"), 3);
    assert_eq!(strspn(b"abc\0abc", b"abc\0"), 3);
    assert_eq!(strspn(b"xabc", b"abc"), 0);
    assert_eq!(strspn(b"", b"abc"), 0);
    // bytes after the accept string's terminator are not part of it
    assert_eq!(strspn(b"ab", b"a\0b"), 1);
}

#[test]
fn strcspn_counts_prefix_without_rejected() {
    assert_eq!(strcspn(b"fcba73\0", b"1234567890\0"), 4);
    assert_eq!(strcspn(b"hello", b""), 5);
    assert_eq!(strcspn(b"hello\0world", b"w"), 5);
    assert_eq!(strcspn(b"hello", b"h"), 0);
    assert_eq!(strcspn(b"hello", b"\0l"), 5);
}

#[test]
fn rgb565_packs_top_bits() {
    assert_eq!(RGB { r: 255, g: 255, b: 255 }.as_rgb565(), 0xFFFF);
    assert_eq!(RGB { r: 0, g: 0, b: 0 }.as_rgb565(), 0);
    assert_eq!(RGB { r: 0xF8, g: 0, b: 0 }.as_rgb565(), 0xF800);
    assert_eq!(RGB { r: 0, g: 0xFC, b: 0 }.as_rgb565(), 0x07E0);
    assert_eq!(RGB { r: 0, g: 0, b: 0xFF }.as_rgb565(), 0x001F);
    assert_eq!(RGB { r: 7, g: 3, b: 7 }.as_rgb565(), 0);
}

#[test]
fn cursor_geometry() {
    let p = Point { x: 10, y: 20 };
    assert_eq!(cursor_right(p), [p, Point { x: 6, y: 16 }, Point { x: 6, y: 24 }]);
    assert_eq!(cursor_left(p), [p, Point { x: 14, y: 16 }, Point { x: 14, y: 24 }]);
    let (l, r) = two_cursors(Point { x: 64, y: 47 }, 34);
    assert_eq!(l[0], Point { x: 30, y: 47 });
    assert_eq!(l[1], Point { x: 26, y: 43 });
    assert_eq!(r[0], Point { x: 98, y: 47 });
    assert_eq!(r[2], Point { x: 102, y: 51 });
}

#[test]
fn language_tables() {
    assert_eq!(pumpbot::lang::text_language_name().const_index(Lang::Fr), "français");
    assert_eq!(pumpbot::lang::text_welcome().const_index(Lang::En), "Welcome to");
    assert_eq!(pumpbot::lang::text_back().const_index(Lang::De), "Zurück");
    assert_eq!(pumpbot::lang::text_ok().const_index(Lang::Zh), "好");
}

#[test]
fn acceleration_keeps_turn_direction() {
    let m = accel_multiplier(10, 200);
    assert!(m > 1);
    assert!(accelerated_delta(2, m) >= 2);
    assert!(accelerated_delta(-2, m) <= -2);
    assert_eq!(accelerated_delta(0, m), 0);
    assert_eq!(accelerated_delta(i16::MAX, m), i16::MAX);
}

#[test]
fn rgb565_bytes_two_per_pixel() {
    assert_eq!(
        RGB::to_rgb565_bytes(&[RGB { r: 255, g: 255, b: 255 }, RGB { r: 0, g: 0xFC, b: 0 }]),
        Ok(vec![0xFF, 0xFF, 0x07, 0xE0])
    );
    assert_eq!(RGB::to_rgb565_bytes(&[]), Ok(vec![]));
}
