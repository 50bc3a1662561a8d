//! The ILI9341 display controller: the byte transfers that each operation sends over the
//! display interface, and the screen geometry that the driver keeps.
//!
//! Every operation returns the transfers to perform, in order: a command byte (sent with the
//! data/command line low) or a block of data bytes (line high).
use vstd::prelude::*;
use crate::rgb::{RGB, ColorConversionError, flatten_rgb, rgb_bytes, rgb565_bytes};

verus! {

/// One transfer over the display interface.
#[derive(Debug, Clone, PartialEq, Eq)]
pub enum Transfer {
    Command(u8),
    Data(Vec<u8>),
}

/// The transfers as plain values.
pub enum SpecTransfer {
    Command(u8),
    Data(Seq<u8>),
}

pub open spec fn transfer_view(t: Transfer) -> SpecTransfer {
    match t {
        Transfer::Command(c) => SpecTransfer::Command(c),
        Transfer::Data(d) => SpecTransfer::Data(d@),
    }
}

/// The transfers as plain values, in order.
pub open spec fn transfers_view(ts: Seq<Transfer>) -> Seq<SpecTransfer> {
    ts.map_values(|t: Transfer| transfer_view(t))
}

/// A command with its arguments: the command byte, then the argument bytes (possibly none).
pub open spec fn spec_command(cmd: u8, args: Seq<u8>) -> Seq<SpecTransfer> {
    seq![SpecTransfer::Command(cmd), SpecTransfer::Data(args)]
}

pub const SOFTWARE_RESET: u8 = 0x01;
pub const MEMORY_ACCESS_CONTROL: u8 = 0x36;
pub const PIXEL_FORMAT_SET: u8 = 0x3a;
pub const SLEEP_MODE_ON: u8 = 0x10;
pub const SLEEP_MODE_OFF: u8 = 0x11;
pub const INVERT_OFF: u8 = 0x20;
pub const INVERT_ON: u8 = 0x21;
pub const GAMMA_SET: u8 = 0x26;
pub const DISPLAY_OFF: u8 = 0x28;
pub const DISPLAY_ON: u8 = 0x29;
pub const COLUMN_ADDRESS_SET: u8 = 0x2a;
pub const PAGE_ADDRESS_SET: u8 = 0x2b;
pub const MEMORY_WRITE: u8 = 0x2c;
pub const VERTICAL_SCROLL_DEFINE: u8 = 0x33;
pub const VERTICAL_SCROLL_ADDR: u8 = 0x37;
pub const IDLE_MODE_OFF: u8 = 0x38;
pub const IDLE_MODE_ON: u8 = 0x39;
pub const SET_BRIGHTNESS: u8 = 0x51;
pub const CONTENT_ADAPTIVE_BRIGHTNESS: u8 = 0x55;
pub const NORMAL_MODE_FRAME_RATE: u8 = 0xb1;
pub const IDLE_MODE_FRAME_RATE: u8 = 0xb2;
pub const DISPLAY_FUNCTION_CONTROL: u8 = 0xb6;
pub const ENTRY_MODE_SET: u8 = 0xb7;
pub const POWER_CONTROL1: u8 = 0xc0;
pub const POWER_CONTROL2: u8 = 0xc1;
pub const VCOM_CONTROL1: u8 = 0xc5;
pub const VCOM_CONTROL2: u8 = 0xc7;
pub const POWER_CONTROL_A: u8 = 0xcb;
pub const POWER_CONTROL_B: u8 = 0xcf;
pub const POSITIVE_GAMMA_CORRECTION: u8 = 0xe0;
pub const NEGATIVE_GAMMA_CORRECTION: u8 = 0xe1;
pub const DRIVER_TIMING_CONTROL_A: u8 = 0xe8;
pub const DRIVER_TIMING_CONTROL_B: u8 = 0xea;
pub const POWER_ON_SEQUENCE_CONTROL: u8 = 0xed;
pub const ENABLE_3G: u8 = 0xf2;
pub const PUMP_RATIO_CONTROL: u8 = 0xf7;

/// The transfers of a command with its arguments.
pub fn command(cmd: u8, args: Vec<u8>) -> (ts: Vec<Transfer>)
    ensures
        transfers_view(ts@) == spec_command(cmd, args@),
{
    let ghost a = args@;
    let mut ts: Vec<Transfer> = Vec::new();
    ts.push(Transfer::Command(cmd));
    ts.push(Transfer::Data(args));
    assert(transfers_view(ts@) =~= spec_command(cmd, a));
    ts
}

/// Appends the transfers `more` to `ts`.
pub(crate) fn append_transfers(ts: &mut Vec<Transfer>, more: Vec<Transfer>)
    ensures
        transfers_view(final(ts)@) == transfers_view(old(ts)@) + transfers_view(more@),
{
    let ghost m = more@;
    let mut more = more;
    let mut rest: Vec<Transfer> = Vec::new();
    while more.len() > 0
        invariant
            transfers_view(more@) + transfers_view(rest@).reverse() == transfers_view(m),
        decreases more@.len(),
    {
        let ghost before_more = more@;
        let ghost before_rest = rest@;
        let t = more.pop().unwrap();
        rest.push(t);
        proof {
            assert(before_more == more@.push(t));
            assert(transfers_view(before_more) =~= transfers_view(more@).push(transfer_view(t)));
            assert(transfers_view(rest@) =~= transfers_view(before_rest).push(transfer_view(t)));
            assert(transfers_view(rest@).reverse() =~= seq![transfer_view(t)] + transfers_view(before_rest).reverse());
            assert(transfers_view(more@) + transfers_view(rest@).reverse() =~= transfers_view(before_more) + transfers_view(before_rest).reverse());
        }
    }
    assert(transfers_view(more@) =~= Seq::<SpecTransfer>::empty());
    let ghost start = ts@;
    while rest.len() > 0
        invariant
            transfers_view(ts@) + transfers_view(rest@).reverse() == transfers_view(start) + transfers_view(m),
        decreases rest@.len(),
    {
        let ghost before_rest = rest@;
        let ghost before_ts = ts@;
        let t = rest.pop().unwrap();
        ts.push(t);
        proof {
            assert(before_rest == rest@.push(t));
            assert(transfers_view(before_rest) =~= transfers_view(rest@).push(transfer_view(t)));
            assert(transfers_view(before_rest).reverse() =~= seq![transfer_view(t)] + transfers_view(rest@).reverse());
            assert(transfers_view(ts@) =~= transfers_view(before_ts).push(transfer_view(t)));
            assert(transfers_view(ts@) + transfers_view(rest@).reverse() =~= transfers_view(before_ts) + transfers_view(before_rest).reverse());
        }
    }
    assert(transfers_view(rest@).reverse() =~= Seq::<SpecTransfer>::empty());
    assert(transfers_view(ts@) =~= transfers_view(ts@) + transfers_view(rest@).reverse());
}

/// The two bytes of a 16-bit value, high byte first.
pub open spec fn be16(v: u16) -> Seq<u8> {
    seq![(v / 256) as u8, (v % 256) as u8]
}

fn be16_bytes(v: u16, out: &mut Vec<u8>)
    ensures
        final(out)@ == old(out)@ + be16(v),
{
    assert((v >> 8) as u8 == (v / 256) as u8) by (bit_vector);
    assert((v & 0xff) as u8 == (v % 256) as u8) by (bit_vector);
    out.push((v >> 8) as u8);
    out.push((v & 0xff) as u8);
    assert(final(out)@ =~= old(out)@ + be16(v)) by {
        assert(out@ =~= old(out)@ + be16(v));
    }
}

/// The high and low bytes of a value give it back.
pub proof fn lemma_be16_round_trip(v: u16)
    ensures
        be16(v)[0] * 256 + be16(v)[1] == v,
{
}

/// Whether a mode is switched on or off.
#[derive(Debug, Clone, Copy, PartialEq, Eq, Structural)]
pub enum ModeState {
    On,
    Off,
}

/// The content-adaptive brightness settings.
#[derive(Debug, Clone, Copy, PartialEq, Eq, Structural)]
pub enum AdaptiveBrightness {
    Off,
    UserInterfaceImage,
    StillPicture,
    MovingImage,
}

pub open spec fn adaptive_code(v: AdaptiveBrightness) -> u8 {
    match v {
        AdaptiveBrightness::Off => 0x00,
        AdaptiveBrightness::UserInterfaceImage => 0x01,
        AdaptiveBrightness::StillPicture => 0x02,
        AdaptiveBrightness::MovingImage => 0x03,
    }
}

impl AdaptiveBrightness {
    /// The argument byte of the setting.
    pub fn code(self) -> (c: u8)
        ensures
            c == adaptive_code(self),
    {
        match self {
            AdaptiveBrightness::Off => 0x00,
            AdaptiveBrightness::UserInterfaceImage => 0x01,
            AdaptiveBrightness::StillPicture => 0x02,
            AdaptiveBrightness::MovingImage => 0x03,
        }
    }
}

/// The frame rates of the controller, in Hz.
#[derive(Debug, Clone, Copy, PartialEq, Eq, Structural)]
pub enum FrameRate {
    FrameRate119,
    FrameRate112,
    FrameRate106,
    FrameRate100,
    FrameRate95,
    FrameRate90,
    FrameRate86,
    FrameRate83,
    FrameRate79,
    FrameRate76,
    FrameRate73,
    FrameRate70,
    FrameRate68,
    FrameRate65,
    FrameRate63,
    FrameRate61,
}

pub open spec fn frame_rate_code(f: FrameRate) -> u8 {
    match f {
        FrameRate::FrameRate119 => 0x10,
        FrameRate::FrameRate112 => 0x11,
        FrameRate::FrameRate106 => 0x12,
        FrameRate::FrameRate100 => 0x13,
        FrameRate::FrameRate95 => 0x14,
        FrameRate::FrameRate90 => 0x15,
        FrameRate::FrameRate86 => 0x16,
        FrameRate::FrameRate83 => 0x17,
        FrameRate::FrameRate79 => 0x18,
        FrameRate::FrameRate76 => 0x19,
        FrameRate::FrameRate73 => 0x1a,
        FrameRate::FrameRate70 => 0x1b,
        FrameRate::FrameRate68 => 0x1c,
        FrameRate::FrameRate65 => 0x1d,
        FrameRate::FrameRate63 => 0x1e,
        FrameRate::FrameRate61 => 0x1f,
    }
}

impl FrameRate {
    /// The argument byte of the frame rate.
    pub fn code(self) -> (c: u8)
        ensures
            c == frame_rate_code(self),
    {
        match self {
            FrameRate::FrameRate119 => 0x10,
            FrameRate::FrameRate112 => 0x11,
            FrameRate::FrameRate106 => 0x12,
            FrameRate::FrameRate100 => 0x13,
            FrameRate::FrameRate95 => 0x14,
            FrameRate::FrameRate90 => 0x15,
            FrameRate::FrameRate86 => 0x16,
            FrameRate::FrameRate83 => 0x17,
            FrameRate::FrameRate79 => 0x18,
            FrameRate::FrameRate76 => 0x19,
            FrameRate::FrameRate73 => 0x1a,
            FrameRate::FrameRate70 => 0x1b,
            FrameRate::FrameRate68 => 0x1c,
            FrameRate::FrameRate65 => 0x1d,
            FrameRate::FrameRate63 => 0x1e,
            FrameRate::FrameRate61 => 0x1f,
        }
    }
}

/// The division of the oscillator clock for the frame rate.
#[derive(Debug, Clone, Copy, PartialEq, Eq, Structural)]
pub enum FrameRateClockDivision {
    Fosc,
    FoscDiv2,
    FoscDiv4,
    FoscDiv8,
}

pub open spec fn clock_division_code(c: FrameRateClockDivision) -> u8 {
    match c {
        FrameRateClockDivision::Fosc => 0x00,
        FrameRateClockDivision::FoscDiv2 => 0x01,
        FrameRateClockDivision::FoscDiv4 => 0x02,
        FrameRateClockDivision::FoscDiv8 => 0x03,
    }
}

impl FrameRateClockDivision {
    /// The argument byte of the clock division.
    pub fn code(self) -> (c: u8)
        ensures
            c == clock_division_code(self),
    {
        match self {
            FrameRateClockDivision::Fosc => 0x00,
            FrameRateClockDivision::FoscDiv2 => 0x01,
            FrameRateClockDivision::FoscDiv4 => 0x02,
            FrameRateClockDivision::FoscDiv8 => 0x03,
        }
    }
}

/// The size of a display panel in pixels.
pub trait DisplaySize {
    spec fn spec_width() -> usize;

    spec fn spec_height() -> usize;

    fn width() -> (w: usize)
        ensures
            w == Self::spec_width(),
    ;

    fn height() -> (h: usize)
        ensures
            h == Self::spec_height(),
    ;
}

/// A panel of 240 by 320 pixels.
pub struct DisplaySize240x320;

impl DisplaySize for DisplaySize240x320 {
    open spec fn spec_width() -> usize {
        240
    }

    open spec fn spec_height() -> usize {
        320
    }

    fn width() -> (w: usize) {
        240
    }

    fn height() -> (h: usize) {
        320
    }
}

/// A panel of 320 by 480 pixels.
pub struct DisplaySize320x480;

impl DisplaySize for DisplaySize320x480 {
    open spec fn spec_width() -> usize {
        320
    }

    open spec fn spec_height() -> usize {
        480
    }

    fn width() -> (w: usize) {
        320
    }

    fn height() -> (h: usize) {
        480
    }
}

/// The memory access control byte of an orientation, and whether it is landscape.
pub trait PictureMode {
    spec fn spec_mode(&self) -> u8;

    spec fn spec_is_landscape(&self) -> bool;

    fn mode(&self) -> (m: u8)
        ensures
            m == self.spec_mode(),
    ;

    fn is_landscape(&self) -> (l: bool)
        ensures
            l == self.spec_is_landscape(),
    ;
}

/// The orientations that most boards use.
#[derive(Debug, Clone, Copy, PartialEq, Eq, Structural)]
pub enum Orientation {
    Portrait,
    PortraitFlipped,
    Landscape,
    LandscapeFlipped,
}

impl PictureMode for Orientation {
    open spec fn spec_mode(&self) -> u8 {
        match self {
            Orientation::Portrait => 0x48,
            Orientation::Landscape => 0x28,
            Orientation::PortraitFlipped => 0x88,
            Orientation::LandscapeFlipped => 0xe8,
        }
    }

    open spec fn spec_is_landscape(&self) -> bool {
        match self {
            Orientation::Landscape | Orientation::LandscapeFlipped => true,
            Orientation::Portrait | Orientation::PortraitFlipped => false,
        }
    }

    fn mode(&self) -> (m: u8) {
        match self {
            Orientation::Portrait => 0x48,
            Orientation::Landscape => 0x28,
            Orientation::PortraitFlipped => 0x88,
            Orientation::LandscapeFlipped => 0xe8,
        }
    }

    fn is_landscape(&self) -> (l: bool) {
        match self {
            Orientation::Landscape | Orientation::LandscapeFlipped => true,
            Orientation::Portrait | Orientation::PortraitFlipped => false,
        }
    }
}

/// The state of a vertical scroll: the first scrolling line shown, and the fixed areas.
#[derive(Debug, Clone, Copy, PartialEq, Eq, Structural)]
pub struct Scroller {
    pub top_offset: u16,
    pub fixed_bottom_lines: u16,
    pub fixed_top_lines: u16,
    pub height: u16,
}

impl Scroller {




    /// The scroll offset lies inside the scrolling area.
    pub open spec fn in_area(&self) -> bool {
        self.fixed_top_lines <= self.top_offset && self.top_offset + self.fixed_bottom_lines <= self.height
    }

    /// A scroller at the top of the scrolling area.
    pub fn new(fixed_top_lines: u16, fixed_bottom_lines: u16, height: u16) -> (s: Scroller)
        ensures
            s.top_offset == fixed_top_lines,
            s.fixed_top_lines == fixed_top_lines,
            s.fixed_bottom_lines == fixed_bottom_lines,
            s.height == height,
    {
        Scroller { top_offset: fixed_top_lines, fixed_top_lines, fixed_bottom_lines, height }
    }

    /// The top offset.
    pub fn top_offset(&self) -> (t: u16)
        ensures
            t == self.top_offset,
    {
        self.top_offset
    }
}

/// The scroller after scrolling `n` lines: past the bottom of the area it wraps to the top.
pub open spec fn spec_scrolled(s: Scroller, n: u16) -> Scroller {
    let t = s.top_offset + n;
    if t > s.height - s.fixed_bottom_lines {
        Scroller { top_offset: (s.fixed_top_lines + (t + s.fixed_bottom_lines - s.height)) as u16, ..s }
    } else {
        Scroller { top_offset: t as u16, ..s }
    }
}

/// Scrolling by at most the height of the scrolling area keeps the offset inside the area.
pub proof fn lemma_scroll_stays_in_area(s: Scroller, n: u16)
    requires
        s.in_area(),
        n <= s.height - s.fixed_top_lines - s.fixed_bottom_lines,
    ensures
        spec_scrolled(s, n).in_area(),
{
}

/// The state of the driver: the screen size in the current orientation.
#[derive(Debug, Clone, Copy, PartialEq, Eq, Structural)]
pub struct Ili9341 {
    pub width: usize,
    pub height: usize,
    pub landscape: bool,
}

/// A step of the power-up sequence.
#[derive(Debug, Clone, PartialEq, Eq)]
pub enum InitStep {
    ResetLow,
    ResetHigh,
    DelayMs(u32),
    Send(Transfer),
}

/// The last coordinate of a side `v` pixels long (0 for an empty side).
pub open spec fn last_index(v: u16) -> u16 {
    if v == 0 { 0 } else { (v - 1) as u16 }
}

/// A step of the power-up sequence as a plain value.
pub enum SpecInitStep {
    ResetLow,
    ResetHigh,
    DelayMs(u32),
    Send(SpecTransfer),
}

pub open spec fn step_view(s: InitStep) -> SpecInitStep {
    match s {
        InitStep::ResetLow => SpecInitStep::ResetLow,
        InitStep::ResetHigh => SpecInitStep::ResetHigh,
        InitStep::DelayMs(ms) => SpecInitStep::DelayMs(ms),
        InitStep::Send(t) => SpecInitStep::Send(transfer_view(t)),
    }
}

/// The steps as plain values, in order.
pub open spec fn steps_view(ss: Seq<InitStep>) -> Seq<SpecInitStep> {
    ss.map_values(|s: InitStep| step_view(s))
}

/// One step per transfer, sending it.
pub open spec fn sends(ts: Seq<SpecTransfer>) -> Seq<SpecInitStep> {
    ts.map_values(|t: SpecTransfer| SpecInitStep::Send(t))
}

/// The power-up sequence in orientation `madctl`: a hardware reset, a software reset, the
/// orientation, the 16-bit (rgb565) colour mode, the initialisation commands, leaving sleep mode, and
/// switching the display on, with the delays the controller needs.
pub open spec fn spec_init_steps(madctl: u8) -> Seq<SpecInitStep> {
    seq![SpecInitStep::ResetLow, SpecInitStep::DelayMs(1), SpecInitStep::ResetHigh, SpecInitStep::DelayMs(5)]
        + sends(spec_command(SOFTWARE_RESET, Seq::empty()))
        + seq![SpecInitStep::DelayMs(120)]
        + sends(spec_command(MEMORY_ACCESS_CONTROL, seq![madctl]))
        + sends(spec_command(PIXEL_FORMAT_SET, seq![0x55u8]))
        + sends(spec_init_commands())
        + sends(spec_command(SLEEP_MODE_OFF, Seq::empty()))
        + seq![SpecInitStep::DelayMs(5)]
        + sends(spec_command(DISPLAY_ON, Seq::empty()))
}

/// The transfers that set the drawing window to the rectangle from `(x0, y0)` to `(x1, y1)`.
pub open spec fn spec_window(x0: u16, y0: u16, x1: u16, y1: u16) -> Seq<SpecTransfer> {
    spec_command(COLUMN_ADDRESS_SET, be16(x0) + be16(x1)) + spec_command(PAGE_ADDRESS_SET, be16(y0) + be16(y1))
}

/// The transfers that draw pixels into the drawing window: the pixels in rgb565, one 16-bit
/// word per pixel, high byte first.
pub open spec fn spec_memory_write(px: Seq<RGB>) -> Seq<SpecTransfer> {
    spec_command(MEMORY_WRITE, Seq::empty()) + seq![SpecTransfer::Data(rgb565_bytes(px))]
}

impl Ili9341 {



    /// A driver for a panel of `SIZE`, before any orientation is set (portrait).
    pub fn with_size<SIZE: DisplaySize>() -> (d: Ili9341)
        ensures
            d.width == SIZE::spec_width(),
            d.height == SIZE::spec_height(),
            !d.landscape,
    {
        Ili9341 { width: SIZE::width(), height: SIZE::height(), landscape: false }
    }

    /// The power-up sequence for a panel of `SIZE` in orientation `mode`: hardware reset,
    /// software reset, orientation, pixel format, the initialisation commands, sleep off,
    /// display on. Returns the driver in that orientation and the steps to perform.
    pub fn new<SIZE: DisplaySize, MODE: PictureMode>(mode: MODE, _display_size: SIZE) -> (r: (Ili9341, Vec<InitStep>))
        ensures
            r.0.landscape == mode.spec_is_landscape(),
            r.0.landscape ==> r.0.width == SIZE::spec_height() && r.0.height == SIZE::spec_width(),
            !r.0.landscape ==> r.0.width == SIZE::spec_width() && r.0.height == SIZE::spec_height(),
            steps_view(r.1@) == spec_init_steps(mode.spec_mode()),
    {
        let mut d = Ili9341::with_size::<SIZE>();
        let mut steps: Vec<InitStep> = Vec::new();
        steps.push(InitStep::ResetLow);
        steps.push(InitStep::DelayMs(1));
        steps.push(InitStep::ResetHigh);
        steps.push(InitStep::DelayMs(5));
        steps.push(InitStep::Send(Transfer::Command(SOFTWARE_RESET)));
        steps.push(InitStep::Send(Transfer::Data(Vec::new())));
        steps.push(InitStep::DelayMs(120));
        let ghost mut acc: Seq<SpecInitStep> = seq![SpecInitStep::ResetLow, SpecInitStep::DelayMs(1), SpecInitStep::ResetHigh, SpecInitStep::DelayMs(5)]
            + sends(spec_command(SOFTWARE_RESET, Seq::empty())) + seq![SpecInitStep::DelayMs(120)];
        assert(steps_view(steps@) =~= acc);
        d.commit_orientation(&mode);
        let ts = d.set_orientation(mode);
        push_steps(&mut steps, ts);
        proof { acc = acc + sends(spec_command(MEMORY_ACCESS_CONTROL, seq![mode.spec_mode()])); }
        assert(steps_view(steps@) =~= acc);
        push_steps(&mut steps, d.set_colormode());
        proof { acc = acc + sends(spec_command(PIXEL_FORMAT_SET, seq![0x55u8])); }
        assert(steps_view(steps@) =~= acc);
        push_steps(&mut steps, init_commands());
        proof { acc = acc + sends(spec_init_commands()); }
        assert(steps_view(steps@) =~= acc);
        push_steps(&mut steps, d.sleep_mode(ModeState::Off));
        proof { acc = acc + sends(spec_command(SLEEP_MODE_OFF, Seq::empty())); }
        assert(steps_view(steps@) =~= acc);
        steps.push(InitStep::DelayMs(5));
        proof { acc = acc + seq![SpecInitStep::DelayMs(5)]; }
        assert(steps_view(steps@) =~= acc);
        push_steps(&mut steps, d.display_mode(ModeState::On));
        proof { acc = acc + sends(spec_command(DISPLAY_ON, Seq::empty())); }
        assert(steps_view(steps@) =~= acc);
        assert(acc =~= spec_init_steps(mode.spec_mode()));
        (d, steps)
    }

    /// The current screen width (it depends on the orientation).
    pub fn width(&self) -> (w: usize)
        ensures
            w == self.width,
    {
        self.width
    }

    /// The current screen height (it depends on the orientation).
    pub fn height(&self) -> (h: usize)
        ensures
            h == self.height,
    {
        self.height
    }

    /// Sets the drawing window to the rectangle from `(x0, y0)` to `(x1, y1)`, borders included.
    pub fn set_window(&self, x0: u16, y0: u16, x1: u16, y1: u16) -> (ts: Vec<Transfer>)
        ensures
            transfers_view(ts@) == spec_window(x0, y0, x1, y1),
    {
        let mut cols: Vec<u8> = Vec::new();
        be16_bytes(x0, &mut cols);
        be16_bytes(x1, &mut cols);
        let mut rows: Vec<u8> = Vec::new();
        be16_bytes(y0, &mut rows);
        be16_bytes(y1, &mut rows);
        let mut ts = command(COLUMN_ADDRESS_SET, cols);
        append_transfers(&mut ts, command(PAGE_ADDRESS_SET, rows));
        assert(Seq::<u8>::empty() + be16(x0) + be16(x1) =~= be16(x0) + be16(x1));
        assert(Seq::<u8>::empty() + be16(y0) + be16(y1) =~= be16(y0) + be16(y1));
        ts
    }

    /// Configures hardware vertical scrolling with fixed areas of `fixed_top_lines` and
    /// `fixed_bottom_lines` lines; the rest of the screen's height scrolls.
    pub fn configure_vertical_scroll(&self, fixed_top_lines: u16, fixed_bottom_lines: u16) -> (r: (Scroller, Vec<Transfer>))
        requires
            fixed_top_lines + fixed_bottom_lines <= (if self.landscape { self.width } else { self.height }) as u16,
        ensures
            ({
                let height = (if self.landscape { self.width } else { self.height }) as u16;
                let scroll_lines = (height - fixed_top_lines - fixed_bottom_lines) as u16;
                &&& r.0 == (Scroller { top_offset: fixed_top_lines, fixed_top_lines, fixed_bottom_lines, height })
                &&& transfers_view(r.1@) == spec_command(VERTICAL_SCROLL_DEFINE, be16(fixed_top_lines) + be16(scroll_lines) + be16(fixed_bottom_lines))
            }),
    {
        let height = (if self.landscape { self.width } else { self.height }) as u16;
        let scroll_lines = height - fixed_top_lines - fixed_bottom_lines;
        let mut args: Vec<u8> = Vec::new();
        be16_bytes(fixed_top_lines, &mut args);
        be16_bytes(scroll_lines, &mut args);
        be16_bytes(fixed_bottom_lines, &mut args);
        assert(args@ =~= be16(fixed_top_lines) + be16(scroll_lines) + be16(fixed_bottom_lines));
        (Scroller::new(fixed_top_lines, fixed_bottom_lines, height), command(VERTICAL_SCROLL_DEFINE, args))
    }

    /// Scrolls `num_lines` further down the scrolling area; past its bottom the offset wraps.
    pub fn scroll_vertically(&self, scroller: &mut Scroller, num_lines: u16) -> (ts: Vec<Transfer>)
        requires
            old(scroller).fixed_bottom_lines <= old(scroller).height,
            old(scroller).top_offset + num_lines <= u16::MAX,
            old(scroller).top_offset + num_lines > old(scroller).height - old(scroller).fixed_bottom_lines ==> {
                &&& old(scroller).top_offset + num_lines + old(scroller).fixed_bottom_lines <= u16::MAX
                &&& old(scroller).fixed_top_lines + old(scroller).top_offset + num_lines + old(scroller).fixed_bottom_lines - old(scroller).height <= u16::MAX
            },
        ensures
            *final(scroller) == spec_scrolled(*old(scroller), num_lines),
            transfers_view(ts@) == spec_command(VERTICAL_SCROLL_ADDR, be16(final(scroller).top_offset)),
    {
        scroller.top_offset = scroller.top_offset + num_lines;
        if scroller.top_offset > scroller.height - scroller.fixed_bottom_lines {
            scroller.top_offset = scroller.fixed_top_lines + (scroller.top_offset + scroller.fixed_bottom_lines - scroller.height);
        }
        let mut args: Vec<u8> = Vec::new();
        be16_bytes(scroller.top_offset, &mut args);
        assert(args@ =~= be16(scroller.top_offset));
        command(VERTICAL_SCROLL_ADDR, args)
    }

    /// Draws the pixels `data`, row by row, into the rectangle from `(x0, y0)` to `(x1, y1)`
    /// (borders included), each pixel sent as an rgb565 word.
    pub fn draw_raw_iter(&self, x0: u16, y0: u16, x1: u16, y1: u16, data: &[RGB]) -> (ts: Vec<Transfer>)
        requires
            2 * data@.len() <= usize::MAX,
        ensures
            transfers_view(ts@) == spec_window(x0, y0, x1, y1) + spec_memory_write(data@),
    {
        let mut ts = self.set_window(x0, y0, x1, y1);
        let bytes = match RGB::to_rgb565_bytes(data) {
            Ok(b) => b,
            Err(_) => Vec::new(),
        };
        append_transfers(&mut ts, command(MEMORY_WRITE, Vec::new()));
        let mut last: Vec<Transfer> = Vec::new();
        last.push(Transfer::Data(bytes));
        append_transfers(&mut ts, last);
        assert(transfers_view(ts@) =~= spec_window(x0, y0, x1, y1) + spec_memory_write(data@));
        ts
    }

    /// Draws the pixels `data` into the rectangle from `(x0, y0)` to `(x1, y1)`, each pixel
    /// sent as an rgb565 word; fails when the byte count of the pixels overflows.
    pub fn draw_raw_slice(&self, x0: u16, y0: u16, x1: u16, y1: u16, data: &[RGB]) -> (r: Result<Vec<Transfer>, ColorConversionError>)
        ensures
            2 * data@.len() <= usize::MAX ==> (r matches Ok(ts) && transfers_view(ts@) == spec_window(x0, y0, x1, y1) + spec_memory_write(data@)),
            2 * data@.len() > usize::MAX ==> r == Err::<Vec<Transfer>, ColorConversionError>(ColorConversionError::TooMuchColorData),
    {
        match RGB::to_rgb565_bytes(data) {
            Err(e) => Err(e),
            Ok(_) => Ok(self.draw_raw_iter(x0, y0, x1, y1, data)),
        }
    }

    /// Sets the pixel format to 16 bits per pixel (rgb565, two bytes per pixel).
    pub fn set_colormode(&self) -> (ts: Vec<Transfer>)
        ensures
            transfers_view(ts@) == spec_command(PIXEL_FORMAT_SET, seq![0x55u8]),
    {
        let mut args: Vec<u8> = Vec::new();
        args.push(0x55);
        assert(args@ =~= seq![0x55u8]);
        command(PIXEL_FORMAT_SET, args)
    }

    /// The transfers that change the orientation (the memory access control command). The
    /// driver's own record of the orientation changes only with [`Self::commit_orientation`],
    /// which the caller makes once the transfers went through.
    pub fn set_orientation<MODE: PictureMode>(&self, mode: MODE) -> (ts: Vec<Transfer>)
        ensures
            transfers_view(ts@) == spec_command(MEMORY_ACCESS_CONTROL, seq![mode.spec_mode()]),
    {
        let mut args: Vec<u8> = Vec::new();
        args.push(mode.mode());
        assert(args@ =~= seq![mode.spec_mode()]);
        command(MEMORY_ACCESS_CONTROL, args)
    }

    /// Records that the display is now in orientation `mode`: the width and height swap when
    /// going between portrait and landscape.
    pub fn commit_orientation<MODE: PictureMode>(&mut self, mode: &MODE)
        ensures
            final(self).landscape == mode.spec_is_landscape(),
            old(self).landscape != mode.spec_is_landscape() ==> final(self).width == old(self).height && final(self).height == old(self).width,
            old(self).landscape == mode.spec_is_landscape() ==> final(self).width == old(self).width && final(self).height == old(self).height,
    {
        let l = mode.is_landscape();
        if self.landscape != l {
            let w = self.width;
            self.width = self.height;
            self.height = w;
        }
        self.landscape = l;
    }

    /// Fills the whole screen with `color`: the window's ends are inclusive, so it runs from
    /// `(0, 0)` to `(width - 1, height - 1)`, and `width * height` pixels fill it.
    pub fn clear_screen(&self, color: RGB) -> (ts: Vec<Transfer>)
        requires
            2 * (self.width * self.height) <= usize::MAX,
        ensures
            transfers_view(ts@) == spec_window(0, 0, last_index(self.width as u16), last_index(self.height as u16))
                + spec_memory_write(Seq::new((self.width * self.height) as nat, |i: int| color)),
    {
        assert(self.width * self.height <= usize::MAX);
        let n: usize = self.width * self.height;
        let mut px: Vec<RGB> = Vec::new();
        let mut i: usize = 0;
        while i < n
            invariant
                i <= n,
                px@ == Seq::new(i as nat, |k: int| color),
            decreases n - i,
        {
            px.push(color);
            assert(px@ =~= Seq::new((i + 1) as nat, |k: int| color));
            i = i + 1;
        }
        let w = self.width as u16;
        let h = self.height as u16;
        let x1: u16 = if w == 0 { 0 } else { w - 1 };
        let y1: u16 = if h == 0 { 0 } else { h - 1 };
        self.draw_raw_iter(0, 0, x1, y1, px.as_slice())
    }

    /// Switches sleep mode on or off.
    pub fn sleep_mode(&self, mode: ModeState) -> (ts: Vec<Transfer>)
        ensures
            transfers_view(ts@) == spec_command(if mode == ModeState::On { SLEEP_MODE_ON } else { SLEEP_MODE_OFF }, Seq::empty()),
    {
        match mode {
            ModeState::On => command(SLEEP_MODE_ON, Vec::new()),
            ModeState::Off => command(SLEEP_MODE_OFF, Vec::new()),
        }
    }

    /// Switches the display on or off.
    pub fn display_mode(&self, mode: ModeState) -> (ts: Vec<Transfer>)
        ensures
            transfers_view(ts@) == spec_command(if mode == ModeState::On { DISPLAY_ON } else { DISPLAY_OFF }, Seq::empty()),
    {
        match mode {
            ModeState::On => command(DISPLAY_ON, Vec::new()),
            ModeState::Off => command(DISPLAY_OFF, Vec::new()),
        }
    }

    /// Switches colour inversion on or off.
    pub fn invert_mode(&self, mode: ModeState) -> (ts: Vec<Transfer>)
        ensures
            transfers_view(ts@) == spec_command(if mode == ModeState::On { INVERT_ON } else { INVERT_OFF }, Seq::empty()),
    {
        match mode {
            ModeState::On => command(INVERT_ON, Vec::new()),
            ModeState::Off => command(INVERT_OFF, Vec::new()),
        }
    }

    /// Switches idle mode (eight colours) on or off.
    pub fn idle_mode(&self, mode: ModeState) -> (ts: Vec<Transfer>)
        ensures
            transfers_view(ts@) == spec_command(if mode == ModeState::On { IDLE_MODE_ON } else { IDLE_MODE_OFF }, Seq::empty()),
    {
        match mode {
            ModeState::On => command(IDLE_MODE_ON, Vec::new()),
            ModeState::Off => command(IDLE_MODE_OFF, Vec::new()),
        }
    }

    /// Sets the display brightness.
    pub fn brightness(&self, brightness: u8) -> (ts: Vec<Transfer>)
        ensures
            transfers_view(ts@) == spec_command(SET_BRIGHTNESS, seq![brightness]),
    {
        let mut args: Vec<u8> = Vec::new();
        args.push(brightness);
        assert(args@ =~= seq![brightness]);
        command(SET_BRIGHTNESS, args)
    }

    /// Sets the content-adaptive brightness.
    pub fn content_adaptive_brightness(&self, value: AdaptiveBrightness) -> (ts: Vec<Transfer>)
        ensures
            transfers_view(ts@) == spec_command(CONTENT_ADAPTIVE_BRIGHTNESS, seq![adaptive_code(value)]),
    {
        let mut args: Vec<u8> = Vec::new();
        args.push(value.code());
        assert(args@ =~= seq![adaptive_code(value)]);
        command(CONTENT_ADAPTIVE_BRIGHTNESS, args)
    }

    /// Sets the clock division and frame rate of normal mode.
    pub fn normal_mode_frame_rate(&self, clk_div: FrameRateClockDivision, frame_rate: FrameRate) -> (ts: Vec<Transfer>)
        ensures
            transfers_view(ts@) == spec_command(NORMAL_MODE_FRAME_RATE, seq![clock_division_code(clk_div), frame_rate_code(frame_rate)]),
    {
        let mut args: Vec<u8> = Vec::new();
        args.push(clk_div.code());
        args.push(frame_rate.code());
        assert(args@ =~= seq![clock_division_code(clk_div), frame_rate_code(frame_rate)]);
        command(NORMAL_MODE_FRAME_RATE, args)
    }

    /// Sets the clock division and frame rate of idle mode.
    pub fn idle_mode_frame_rate(&self, clk_div: FrameRateClockDivision, frame_rate: FrameRate) -> (ts: Vec<Transfer>)
        ensures
            transfers_view(ts@) == spec_command(IDLE_MODE_FRAME_RATE, seq![clock_division_code(clk_div), frame_rate_code(frame_rate)]),
    {
        let mut args: Vec<u8> = Vec::new();
        args.push(clk_div.code());
        args.push(frame_rate.code());
        assert(args@ =~= seq![clock_division_code(clk_div), frame_rate_code(frame_rate)]);
        command(IDLE_MODE_FRAME_RATE, args)
    }
}

/// Going to the other orientation and back gives back the screen size.
pub proof fn lemma_orientation_round_trip(d: Ili9341, mid: Ili9341, end: Ili9341, m1: bool, m2: bool)
    requires
        m1 != d.landscape,
        m2 == d.landscape,
        mid.landscape == m1,
        mid.width == d.height && mid.height == d.width,
        end.landscape == m2,
        end.width == mid.height && end.height == mid.width,
    ensures
        end == d,
{
}

fn push_steps(steps: &mut Vec<InitStep>, ts: Vec<Transfer>)
    ensures
        steps_view(final(steps)@) == steps_view(old(steps)@) + sends(transfers_view(ts@)),
{
    let ghost start = steps@;
    let ghost m = ts@;
    let mut ts = ts;
    while ts.len() > 0
        invariant
            steps_view(steps@) + sends(transfers_view(ts@)) == steps_view(start) + sends(transfers_view(m)),
        decreases ts@.len(),
    {
        let ghost before_ts = ts@;
        let ghost before_steps = steps@;
        let t = ts.remove(0);
        steps.push(InitStep::Send(t));
        proof {
            assert(before_ts =~= seq![t] + ts@);
            assert(transfers_view(before_ts) =~= seq![transfer_view(t)] + transfers_view(ts@));
            assert(sends(transfers_view(before_ts)) =~= seq![SpecInitStep::Send(transfer_view(t))] + sends(transfers_view(ts@)));
            assert(steps_view(steps@) =~= steps_view(before_steps).push(SpecInitStep::Send(transfer_view(t))));
            assert(steps_view(steps@) + sends(transfers_view(ts@)) =~= steps_view(before_steps) + sends(transfers_view(before_ts)));
        }
    }
    assert(sends(transfers_view(ts@)) =~= Seq::<SpecInitStep>::empty());
    assert(steps_view(steps@) =~= steps_view(steps@) + sends(transfers_view(ts@)));
}

fn bytes_of(a: &[u8]) -> (v: Vec<u8>)
    ensures
        v@ == a@,
{
    let mut v: Vec<u8> = Vec::new();
    let n = a.len();
    let mut i: usize = 0;
    while i < n
        invariant
            n == a@.len(),
            i <= n,
            v@ == a@.take(i as int),
        decreases n - i,
    {
        v.push(a[i]);
        assert(a@.take(i + 1) =~= a@.take(i as int).push(a@[i as int]));
        i = i + 1;
    }
    assert(a@.take(n as int) =~= a@);
    v
}

/// The initialisation commands of the controller with their arguments, as plain values.
pub open spec fn spec_init_commands() -> Seq<SpecTransfer> {
    spec_command(POWER_CONTROL_B, seq![0x00u8, 0x83, 0x30])
        + spec_command(POWER_ON_SEQUENCE_CONTROL, seq![0x64u8, 0x03, 0x12, 0x81])
        + spec_command(DRIVER_TIMING_CONTROL_A, seq![0x85u8, 0x01, 0x79])
        + spec_command(POWER_CONTROL_A, seq![0x39u8, 0x2c, 0x00, 0x34, 0x02])
        + spec_command(PUMP_RATIO_CONTROL, seq![0x20u8])
        + spec_command(DRIVER_TIMING_CONTROL_B, seq![0x00u8, 0x00])
        + spec_command(POWER_CONTROL1, seq![0x26u8])
        + spec_command(POWER_CONTROL2, seq![0x11u8])
        + spec_command(VCOM_CONTROL1, seq![0x35u8, 0x3e])
        + spec_command(VCOM_CONTROL2, seq![0xbeu8])
        + spec_command(MEMORY_ACCESS_CONTROL, seq![0x18u8])
        + spec_command(PIXEL_FORMAT_SET, seq![0x55u8])
        + spec_command(NORMAL_MODE_FRAME_RATE, seq![0x00u8, 0x10])
        + spec_command(ENABLE_3G, seq![0x08u8])
        + spec_command(GAMMA_SET, seq![0x01u8])
        + spec_command(VERTICAL_SCROLL_DEFINE, seq![0x00u8, 0x00, 0x01, 0x40, 0x00, 0x00])
        + spec_command(POSITIVE_GAMMA_CORRECTION, seq![0x1fu8, 0x1a, 0x18, 0x0a, 0x0f, 0x06, 0x45, 0x87, 0x32, 0x0a, 0x07, 0x02, 0x07, 0x05, 0x00])
        + spec_command(NEGATIVE_GAMMA_CORRECTION, seq![0x00u8, 0x25, 0x27, 0x05, 0x10, 0x09, 0x3a, 0x78, 0x4d, 0x05, 0x18, 0x0d, 0x38, 0x3a, 0x1f])
        + spec_command(COLUMN_ADDRESS_SET, seq![0x00u8, 0x00, 0x00, 0xef])
        + spec_command(PAGE_ADDRESS_SET, seq![0x00u8, 0x00, 0x01, 0x3f])
        + spec_command(MEMORY_WRITE, seq![0x00u8])
        + spec_command(ENTRY_MODE_SET, seq![0x07u8])
        + spec_command(DISPLAY_FUNCTION_CONTROL, seq![0x0au8, 0x82, 0x27, 0x00])
}

/// The initialisation commands of the controller, with their arguments.
pub fn init_commands() -> (ts: Vec<Transfer>)
    ensures
        transfers_view(ts@) == spec_init_commands(),
{
    let mut ts: Vec<Transfer> = Vec::new();
    let ghost mut acc: Seq<SpecTransfer> = Seq::empty();
    let args = bytes_of(&[0x00, 0x83, 0x30]);
    assert(args@ =~= seq![0x00u8, 0x83, 0x30]);
    append_transfers(&mut ts, command(POWER_CONTROL_B, args));
    proof { acc = acc + spec_command(POWER_CONTROL_B, seq![0x00u8, 0x83, 0x30]); }
    assert(transfers_view(ts@) =~= acc);
    let args = bytes_of(&[0x64, 0x03, 0x12, 0x81]);
    assert(args@ =~= seq![0x64u8, 0x03, 0x12, 0x81]);
    append_transfers(&mut ts, command(POWER_ON_SEQUENCE_CONTROL, args));
    proof { acc = acc + spec_command(POWER_ON_SEQUENCE_CONTROL, seq![0x64u8, 0x03, 0x12, 0x81]); }
    assert(transfers_view(ts@) =~= acc);
    let args = bytes_of(&[0x85, 0x01, 0x79]);
    assert(args@ =~= seq![0x85u8, 0x01, 0x79]);
    append_transfers(&mut ts, command(DRIVER_TIMING_CONTROL_A, args));
    proof { acc = acc + spec_command(DRIVER_TIMING_CONTROL_A, seq![0x85u8, 0x01, 0x79]); }
    assert(transfers_view(ts@) =~= acc);
    let args = bytes_of(&[0x39, 0x2c, 0x00, 0x34, 0x02]);
    assert(args@ =~= seq![0x39u8, 0x2c, 0x00, 0x34, 0x02]);
    append_transfers(&mut ts, command(POWER_CONTROL_A, args));
    proof { acc = acc + spec_command(POWER_CONTROL_A, seq![0x39u8, 0x2c, 0x00, 0x34, 0x02]); }
    assert(transfers_view(ts@) =~= acc);
    let args = bytes_of(&[0x20]);
    assert(args@ =~= seq![0x20u8]);
    append_transfers(&mut ts, command(PUMP_RATIO_CONTROL, args));
    proof { acc = acc + spec_command(PUMP_RATIO_CONTROL, seq![0x20u8]); }
    assert(transfers_view(ts@) =~= acc);
    let args = bytes_of(&[0x00, 0x00]);
    assert(args@ =~= seq![0x00u8, 0x00]);
    append_transfers(&mut ts, command(DRIVER_TIMING_CONTROL_B, args));
    proof { acc = acc + spec_command(DRIVER_TIMING_CONTROL_B, seq![0x00u8, 0x00]); }
    assert(transfers_view(ts@) =~= acc);
    let args = bytes_of(&[0x26]);
    assert(args@ =~= seq![0x26u8]);
    append_transfers(&mut ts, command(POWER_CONTROL1, args));
    proof { acc = acc + spec_command(POWER_CONTROL1, seq![0x26u8]); }
    assert(transfers_view(ts@) =~= acc);
    let args = bytes_of(&[0x11]);
    assert(args@ =~= seq![0x11u8]);
    append_transfers(&mut ts, command(POWER_CONTROL2, args));
    proof { acc = acc + spec_command(POWER_CONTROL2, seq![0x11u8]); }
    assert(transfers_view(ts@) =~= acc);
    let args = bytes_of(&[0x35, 0x3e]);
    assert(args@ =~= seq![0x35u8, 0x3e]);
    append_transfers(&mut ts, command(VCOM_CONTROL1, args));
    proof { acc = acc + spec_command(VCOM_CONTROL1, seq![0x35u8, 0x3e]); }
    assert(transfers_view(ts@) =~= acc);
    let args = bytes_of(&[0xbe]);
    assert(args@ =~= seq![0xbeu8]);
    append_transfers(&mut ts, command(VCOM_CONTROL2, args));
    proof { acc = acc + spec_command(VCOM_CONTROL2, seq![0xbeu8]); }
    assert(transfers_view(ts@) =~= acc);
    let args = bytes_of(&[0x18]);
    assert(args@ =~= seq![0x18u8]);
    append_transfers(&mut ts, command(MEMORY_ACCESS_CONTROL, args));
    proof { acc = acc + spec_command(MEMORY_ACCESS_CONTROL, seq![0x18u8]); }
    assert(transfers_view(ts@) =~= acc);
    let args = bytes_of(&[0x55]);
    assert(args@ =~= seq![0x55u8]);
    append_transfers(&mut ts, command(PIXEL_FORMAT_SET, args));
    proof { acc = acc + spec_command(PIXEL_FORMAT_SET, seq![0x55u8]); }
    assert(transfers_view(ts@) =~= acc);
    let args = bytes_of(&[0x00, 0x10]);
    assert(args@ =~= seq![0x00u8, 0x10]);
    append_transfers(&mut ts, command(NORMAL_MODE_FRAME_RATE, args));
    proof { acc = acc + spec_command(NORMAL_MODE_FRAME_RATE, seq![0x00u8, 0x10]); }
    assert(transfers_view(ts@) =~= acc);
    let args = bytes_of(&[0x08]);
    assert(args@ =~= seq![0x08u8]);
    append_transfers(&mut ts, command(ENABLE_3G, args));
    proof { acc = acc + spec_command(ENABLE_3G, seq![0x08u8]); }
    assert(transfers_view(ts@) =~= acc);
    let args = bytes_of(&[0x01]);
    assert(args@ =~= seq![0x01u8]);
    append_transfers(&mut ts, command(GAMMA_SET, args));
    proof { acc = acc + spec_command(GAMMA_SET, seq![0x01u8]); }
    assert(transfers_view(ts@) =~= acc);
    let args = bytes_of(&[0x00, 0x00, 0x01, 0x40, 0x00, 0x00]);
    assert(args@ =~= seq![0x00u8, 0x00, 0x01, 0x40, 0x00, 0x00]);
    append_transfers(&mut ts, command(VERTICAL_SCROLL_DEFINE, args));
    proof { acc = acc + spec_command(VERTICAL_SCROLL_DEFINE, seq![0x00u8, 0x00, 0x01, 0x40, 0x00, 0x00]); }
    assert(transfers_view(ts@) =~= acc);
    let args = bytes_of(&[0x1f, 0x1a, 0x18, 0x0a, 0x0f, 0x06, 0x45, 0x87, 0x32, 0x0a, 0x07, 0x02, 0x07, 0x05, 0x00]);
    assert(args@ =~= seq![0x1fu8, 0x1a, 0x18, 0x0a, 0x0f, 0x06, 0x45, 0x87, 0x32, 0x0a, 0x07, 0x02, 0x07, 0x05, 0x00]);
    append_transfers(&mut ts, command(POSITIVE_GAMMA_CORRECTION, args));
    proof { acc = acc + spec_command(POSITIVE_GAMMA_CORRECTION, seq![0x1fu8, 0x1a, 0x18, 0x0a, 0x0f, 0x06, 0x45, 0x87, 0x32, 0x0a, 0x07, 0x02, 0x07, 0x05, 0x00]); }
    assert(transfers_view(ts@) =~= acc);
    let args = bytes_of(&[0x00, 0x25, 0x27, 0x05, 0x10, 0x09, 0x3a, 0x78, 0x4d, 0x05, 0x18, 0x0d, 0x38, 0x3a, 0x1f]);
    assert(args@ =~= seq![0x00u8, 0x25, 0x27, 0x05, 0x10, 0x09, 0x3a, 0x78, 0x4d, 0x05, 0x18, 0x0d, 0x38, 0x3a, 0x1f]);
    append_transfers(&mut ts, command(NEGATIVE_GAMMA_CORRECTION, args));
    proof { acc = acc + spec_command(NEGATIVE_GAMMA_CORRECTION, seq![0x00u8, 0x25, 0x27, 0x05, 0x10, 0x09, 0x3a, 0x78, 0x4d, 0x05, 0x18, 0x0d, 0x38, 0x3a, 0x1f]); }
    assert(transfers_view(ts@) =~= acc);
    let args = bytes_of(&[0x00, 0x00, 0x00, 0xef]);
    assert(args@ =~= seq![0x00u8, 0x00, 0x00, 0xef]);
    append_transfers(&mut ts, command(COLUMN_ADDRESS_SET, args));
    proof { acc = acc + spec_command(COLUMN_ADDRESS_SET, seq![0x00u8, 0x00, 0x00, 0xef]); }
    assert(transfers_view(ts@) =~= acc);
    let args = bytes_of(&[0x00, 0x00, 0x01, 0x3f]);
    assert(args@ =~= seq![0x00u8, 0x00, 0x01, 0x3f]);
    append_transfers(&mut ts, command(PAGE_ADDRESS_SET, args));
    proof { acc = acc + spec_command(PAGE_ADDRESS_SET, seq![0x00u8, 0x00, 0x01, 0x3f]); }
    assert(transfers_view(ts@) =~= acc);
    let args = bytes_of(&[0x00]);
    assert(args@ =~= seq![0x00u8]);
    append_transfers(&mut ts, command(MEMORY_WRITE, args));
    proof { acc = acc + spec_command(MEMORY_WRITE, seq![0x00u8]); }
    assert(transfers_view(ts@) =~= acc);
    let args = bytes_of(&[0x07]);
    assert(args@ =~= seq![0x07u8]);
    append_transfers(&mut ts, command(ENTRY_MODE_SET, args));
    proof { acc = acc + spec_command(ENTRY_MODE_SET, seq![0x07u8]); }
    assert(transfers_view(ts@) =~= acc);
    let args = bytes_of(&[0x0a, 0x82, 0x27, 0x00]);
    assert(args@ =~= seq![0x0au8, 0x82, 0x27, 0x00]);
    append_transfers(&mut ts, command(DISPLAY_FUNCTION_CONTROL, args));
    proof { acc = acc + spec_command(DISPLAY_FUNCTION_CONTROL, seq![0x0au8, 0x82, 0x27, 0x00]); }
    assert(transfers_view(ts@) =~= acc);
    assert(acc =~= spec_init_commands());
    ts
}

} // verus!
