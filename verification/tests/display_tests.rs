use pumpbot::ili9341::{Transfer, Ili9341, DisplaySize240x320, Orientation, ModeState, InitStep};
use pumpbot::lcd::{
    RGB24, Lcd, ili9341_init_cmds, init_sequence, draw_sprite, send_lines, scroll_screen, column_chunks,
    id_from_bytes, generate_bg, rgb24_slice_bytes, BUFFER_LEN,
};
use pumpbot::rgb::RGB;

fn px(r: u8, g: u8, b: u8) -> RGB24 {
    RGB24 { pixelR: r, pixelG: g, pixelB: b }
}

#[test]
fn window_is_big_endian_columns_then_pages() {
    let (d, _) = Ili9341::new(Orientation::Portrait, DisplaySize240x320);
    let ts = d.set_window(1, 2, 0x0102, 0x0304);
    assert_eq!(ts, vec![
        Transfer::Command(0x2a),
        Transfer::Data(vec![0, 1, 0x01, 0x02]),
        Transfer::Command(0x2b),
        Transfer::Data(vec![0, 2, 0x03, 0x04]),
    ]);
}

#[test]
fn landscape_swaps_width_and_height() {
    let (p, _) = Ili9341::new(Orientation::Portrait, DisplaySize240x320);
    assert_eq!((p.width(), p.height()), (240, 320));
    let (l, steps) = Ili9341::new(Orientation::Landscape, DisplaySize240x320);
    assert_eq!((l.width(), l.height()), (320, 240));
    assert!(matches!(steps[0], InitStep::ResetLow));
}

#[test]
fn raw_slice_writes_pixels_after_window() {
    let (d, _) = Ili9341::new(Orientation::Portrait, DisplaySize240x320);
    let ts = d.draw_raw_slice(0, 0, 0, 1, &[RGB { r: 0xF8, g: 0, b: 0 }, RGB { r: 0, g: 0xFC, b: 0xFF }]).unwrap();
    assert_eq!(ts[4], Transfer::Command(0x2c));
    // one rgb565 word per pixel, high byte first
    assert_eq!(ts[ts.len() - 1], Transfer::Data(vec![0xF8, 0x00, 0x07, 0xFF]));
}

#[test]
fn brightness_and_sleep_commands() {
    let (d, _) = Ili9341::new(Orientation::Portrait, DisplaySize240x320);
    assert_eq!(d.brightness(200), vec![Transfer::Command(0x51), Transfer::Data(vec![200])]);
    assert_eq!(d.sleep_mode(ModeState::On), vec![Transfer::Command(0x10), Transfer::Data(vec![])]);
    assert_eq!(d.sleep_mode(ModeState::Off), vec![Transfer::Command(0x11), Transfer::Data(vec![])]);
}

#[test]
fn init_table_runs_until_end_marker() {
    let table = ili9341_init_cmds();
    assert_eq!(table.len(), 26);
    let steps = init_sequence(&table);
    assert!(matches!(steps[0], InitStep::ResetLow));
    assert!(matches!(steps[1], InitStep::DelayMs(100)));
    assert!(matches!(steps[2], InitStep::ResetHigh));
    assert!(matches!(steps[4], InitStep::Send(Transfer::Command(0xCF))));
    // the last two entries before the marker (sleep out, display on) wait 100 ms each
    let n = steps.len();
    assert!(matches!(steps[n - 1], InitStep::DelayMs(100)));
    assert!(matches!(steps[n - 2], InitStep::Send(Transfer::Command(0x29))));
    // the marker itself is not sent
    assert!(!steps.iter().any(|s| matches!(s, InitStep::Send(Transfer::Command(0x00)))));
}

#[test]
fn sprite_past_right_edge_sends_nothing() {
    assert!(draw_sprite(300, 0, 30, 2, &[]).is_empty());
}

#[test]
fn sprite_window_swaps_rows_and_columns() {
    let ts = draw_sprite(2, 0x0101, 2, 3, &[px(9, 8, 7)]);
    assert_eq!(ts, vec![
        Transfer::Command(0x2A),
        Transfer::Data(vec![0x01, 0x01, 0x01, 0x03]),
        Transfer::Command(0x2B),
        Transfer::Data(vec![0, 2, 0, 3]),
        Transfer::Command(0x2C),
        Transfer::Data(vec![9, 8, 7]),
    ]);
}

#[test]
fn send_lines_caps_bursts_at_sixteen_columns() {
    let buf = vec![px(1, 1, 1); 240 * 20];
    let ts = send_lines(0, &buf, 20);
    assert_eq!(ts[1], Transfer::Data(vec![0, 0, 0, 15]));
    assert_eq!(ts[3], Transfer::Data(vec![0, 0, 0, 240]));
    match &ts[5] {
        Transfer::Data(d) => assert_eq!(d.len(), 16 * 240 * 3),
        _ => panic!("pixels expected"),
    }
    assert!(send_lines(0, &buf, 0).is_empty());
}

#[test]
fn scroll_screen_bytes() {
    assert_eq!(scroll_screen(0x0140), vec![
        Transfer::Command(0x33),
        Transfer::Data(vec![0, 0, 1, 0x40, 0, 0]),
        Transfer::Command(0x37),
        Transfer::Data(vec![0x01, 0x40]),
    ]);
}

#[test]
fn background_is_sent_in_twenty_bursts() {
    let c = column_chunks();
    assert_eq!(c.len(), 20);
    assert_eq!(c[0], (0, 16));
    assert_eq!(c[19], (304, 16));
}

#[test]
fn id_is_little_endian() {
    assert_eq!(id_from_bytes([0x01, 0x02, 0x03]), 0x030201);
}

#[test]
fn gradient_background() {
    let bg = generate_bg();
    assert_eq!(bg.len(), BUFFER_LEN);
    assert_eq!(bg[0], px(0, 0, 0));
    assert_eq!(bg[240 * 100 + 5], px(100, 200, 44));
    assert_eq!(bg[240 * 300], px(44, 88, 132));
}

#[test]
fn fill_then_sprite() {
    let mut lcd = Lcd::new();
    lcd.buffer_fillcolor(px(1, 1, 1));
    let sprite = [px(5, 0, 0), px(6, 0, 0), px(7, 0, 0), px(8, 0, 0)];
    lcd.buffer_sprite(2, 3, 2, 2, &sprite);
    let buf = lcd.framebuf.as_ref().unwrap();
    assert_eq!(buf.len(), BUFFER_LEN);
    assert_eq!(buf[2 * 240 + 3], px(5, 0, 0));
    assert_eq!(buf[2 * 240 + 4], px(6, 0, 0));
    assert_eq!(buf[3 * 240 + 3], px(7, 0, 0));
    assert_eq!(buf[3 * 240 + 4], px(8, 0, 0));
    assert_eq!(buf[0], px(1, 1, 1));
}

#[test]
fn tall_sprite_runs_into_next_column() {
    let mut lcd = Lcd::new();
    let sprite: Vec<RGB24> = (0..2 * 241).map(|i| px((i % 256) as u8, (i / 256) as u8, 1)).collect();
    lcd.buffer_sprite(0, 0, 2, 241, &sprite);
    let buf = lcd.framebuf.as_ref().unwrap();
    // index 240 is written by column 0 row 240 first, then by column 1 row 0
    assert_eq!(buf[240], sprite[241]);
    assert_eq!(buf[239], sprite[239]);
}

#[test]
fn scroll_buffer_without_buffer_only_resets() {
    let lcd = Lcd::new();
    assert_eq!(lcd.scroll_buffer(10, true), scroll_screen(0));
    assert!(lcd.scroll_buffer(10, false).is_empty());
}

#[test]
fn scroll_buffer_sends_columns_then_scrolls() {
    let mut lcd = Lcd::new();
    lcd.buffer_fillcolor(px(2, 2, 2));
    let ts = lcd.scroll_buffer(4, false);
    assert_eq!(ts.len(), 6 + 4);
    assert_eq!(ts[1], Transfer::Data(vec![0, 0, 0, 3]));
    assert_eq!(ts[9], Transfer::Data(vec![0x01, 0x40]));
}

#[test]
fn pixel_bytes_are_rgb() {
    assert_eq!(rgb24_slice_bytes(&[px(1, 2, 3), px(4, 5, 6)]), vec![1, 2, 3, 4, 5, 6]);
    assert_eq!(RGB24::default(), px(0, 0, 0));
}

#[test]
fn power_up_sequence() {
    let (_, steps) = Ili9341::new(Orientation::Portrait, DisplaySize240x320);
    assert_eq!(steps.len(), 62);
    assert_eq!(steps[0], InitStep::ResetLow);
    assert_eq!(steps[1], InitStep::DelayMs(1));
    assert_eq!(steps[2], InitStep::ResetHigh);
    assert_eq!(steps[3], InitStep::DelayMs(5));
    assert_eq!(steps[4], InitStep::Send(Transfer::Command(0x01)));
    assert_eq!(steps[6], InitStep::DelayMs(120));
    assert_eq!(steps[7], InitStep::Send(Transfer::Command(0x36)));
    assert_eq!(steps[9], InitStep::Send(Transfer::Command(0x3a)));
    assert_eq!(steps[10], InitStep::Send(Transfer::Data(vec![0x55])));
    assert_eq!(steps[11], InitStep::Send(Transfer::Command(0xcf)));
    assert_eq!(steps[12], InitStep::Send(Transfer::Data(vec![0x00, 0x83, 0x30])));
    assert_eq!(steps[57], InitStep::Send(Transfer::Command(0x11)));
    assert_eq!(steps[59], InitStep::DelayMs(5));
    assert_eq!(steps[60], InitStep::Send(Transfer::Command(0x29)));
    assert_eq!(steps[61], InitStep::Send(Transfer::Data(vec![])));
}

#[test]
fn clear_screen_window_is_the_screen() {
    let (d, _) = Ili9341::new(Orientation::Portrait, DisplaySize240x320);
    let ts = d.clear_screen(RGB { r: 1, g: 2, b: 3 });
    assert_eq!(ts[0], Transfer::Command(0x2a));
    assert_eq!(ts[1], Transfer::Data(vec![0, 0, 0, 239]));
    assert_eq!(ts[2], Transfer::Command(0x2b));
    assert_eq!(ts[3], Transfer::Data(vec![0, 0, 1, 63]));
    assert_eq!(ts[4], Transfer::Command(0x2c));
    match &ts[6] {
        Transfer::Data(px) => assert_eq!(px.len(), 2 * 240 * 320),
        _ => panic!("pixels expected"),
    }
}

#[test]
fn orientation_changes_on_commit_only() {
    let (mut d, _) = Ili9341::new(Orientation::Portrait, DisplaySize240x320);
    let ts = d.set_orientation(Orientation::Landscape);
    assert_eq!(ts[0], Transfer::Command(0x36));
    assert_eq!((d.width(), d.height()), (240, 320));
    d.commit_orientation(&Orientation::Landscape);
    assert_eq!((d.width(), d.height()), (320, 240));
}
