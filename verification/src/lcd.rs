//! The first display driver: a 320x240 ILI9341 fed with 24-bit pixels from a column-major
//! frame buffer. The functions here compute what is sent over the bus (as transfers) and what
//! the frame buffer holds; the caller owns the bus, the pins and the delays.
use vstd::prelude::*;
use crate::ili9341::{Transfer, SpecTransfer, transfers_view, InitStep};

verus! {

/// A 24-bit pixel, three bytes in the order red, green, blue.
#[allow(non_snake_case)]
#[derive(Copy, Clone, Debug, PartialEq, Eq, Structural)]
pub struct RGB24 {
    pub pixelR: u8,
    pub pixelG: u8,
    pub pixelB: u8,
}

impl Default for RGB24 {
    /// Black.
    fn default() -> (p: RGB24)
        ensures
            p == (RGB24 { pixelR: 0, pixelG: 0, pixelB: 0 }),
    {
        RGB24 { pixelR: 0, pixelG: 0, pixelB: 0 }
    }
}

/// Black.
pub open spec fn black24() -> RGB24 {
    RGB24 { pixelR: 0, pixelG: 0, pixelB: 0 }
}

/// An entry of the initialisation table: a command, its argument bytes, and a flag byte
/// (bit 7: wait after the command; `0xFF`: end of the table).
#[derive(Copy, Clone, Debug)]
pub struct LcdInitCmd<'a> {
    pub cmd: u8,
    pub data: &'a [u8],
    pub databytes: u8,
}

/// The width of the screen (columns).
pub const SCREEN_WIDTH: usize = 320;
/// The height of the screen (rows).
pub const SCREEN_HEIGHT: usize = 240;
/// The distance between two columns in the frame buffer.
pub const BUFFER_STRIDE: usize = 240;
/// The most columns sent in one burst.
pub const PARALLEL_LINES: usize = 16;
/// The number of pixels of the frame buffer.
pub const BUFFER_LEN: usize = 76800;

/// The initialisation table of the controller.
pub fn ili9341_init_cmds() -> (t: Vec<LcdInitCmd<'static>>)
    ensures
        t@.len() == 26,
        t@.last().databytes == 0xFF,
        forall|i: int| 0 <= i < 25 ==> #[trigger] t@[i].databytes != 0xFF,
{
    let mut t: Vec<LcdInitCmd<'static>> = Vec::new();
    t.push(LcdInitCmd { cmd: 0xCF, data: &[0x00, 0x83, 0x30], databytes: 3 });
    t.push(LcdInitCmd { cmd: 0xED, data: &[0x64, 0x03, 0x12, 0x81], databytes: 4 });
    t.push(LcdInitCmd { cmd: 0xE8, data: &[0x85, 0x01, 0x79], databytes: 3 });
    t.push(LcdInitCmd { cmd: 0xCB, data: &[0x39, 0x2C, 0x00, 0x34, 0x02], databytes: 5 });
    t.push(LcdInitCmd { cmd: 0xF7, data: &[0x20], databytes: 1 });
    t.push(LcdInitCmd { cmd: 0xEA, data: &[0x00, 0x00], databytes: 2 });
    t.push(LcdInitCmd { cmd: 0xC0, data: &[0x26], databytes: 1 });
    t.push(LcdInitCmd { cmd: 0xC1, data: &[0x11], databytes: 1 });
    t.push(LcdInitCmd { cmd: 0xC5, data: &[0x35, 0x3E], databytes: 2 });
    t.push(LcdInitCmd { cmd: 0xC7, data: &[0xBE], databytes: 1 });
    t.push(LcdInitCmd { cmd: 0x36, data: &[0x18], databytes: 1 });
    t.push(LcdInitCmd { cmd: 0x3A, data: &[0x66], databytes: 1 });
    t.push(LcdInitCmd { cmd: 0xB1, data: &[0x00, 0x10], databytes: 2 });
    t.push(LcdInitCmd { cmd: 0xF2, data: &[0x08], databytes: 1 });
    t.push(LcdInitCmd { cmd: 0x26, data: &[0x01], databytes: 1 });
    t.push(LcdInitCmd { cmd: 0x33, data: &[0x00, 0x00, 0x01, 0x40, 0x00, 0x00], databytes: 6 });
    t.push(LcdInitCmd { cmd: 0xE0, data: &[0x1F, 0x1A, 0x18, 0x0A, 0x0F, 0x06, 0x45, 0x87, 0x32, 0x0A, 0x07, 0x02, 0x07, 0x05, 0x00], databytes: 15 });
    t.push(LcdInitCmd { cmd: 0xE1, data: &[0x00, 0x25, 0x27, 0x05, 0x10, 0x09, 0x3A, 0x78, 0x4D, 0x05, 0x18, 0x0D, 0x38, 0x3A, 0x1F], databytes: 15 });
    t.push(LcdInitCmd { cmd: 0x2A, data: &[0x00, 0x00, 0x00, 0xEF], databytes: 4 });
    t.push(LcdInitCmd { cmd: 0x2B, data: &[0x00, 0x00, 0x01, 0x3F], databytes: 4 });
    t.push(LcdInitCmd { cmd: 0x2C, data: &[], databytes: 0 });
    t.push(LcdInitCmd { cmd: 0xB7, data: &[0x07], databytes: 1 });
    t.push(LcdInitCmd { cmd: 0xB6, data: &[0x0A, 0x82, 0x27, 0x00], databytes: 4 });
    t.push(LcdInitCmd { cmd: 0x11, data: &[], databytes: 0x80 });
    t.push(LcdInitCmd { cmd: 0x29, data: &[], databytes: 0x80 });
    t.push(LcdInitCmd { cmd: 0x00, data: &[], databytes: 0xFF });
    t
}

/// The steps of one table entry: the command, its arguments if it has any, and a wait of
/// 100 ms if bit 7 of its flag byte is set.
pub open spec fn entry_steps(c: LcdInitCmd) -> Seq<InitStepView> {
    seq![InitStepView::Send(SpecTransfer::Command(c.cmd))]
        + (if c.data@.len() > 0 { seq![InitStepView::Send(SpecTransfer::Data(c.data@))] } else { Seq::empty() })
        + (if c.databytes >= 128 { seq![InitStepView::DelayMs(100)] } else { Seq::empty() })
}

/// The steps of the table's entries up to (not including) the end marker.
pub open spec fn table_steps(t: Seq<LcdInitCmd>) -> Seq<InitStepView>
    decreases t.len(),
{
    if t.len() == 0 || t[0].databytes == 0xFF {
        Seq::empty()
    } else {
        entry_steps(t[0]) + table_steps(t.drop_first())
    }
}

/// An initialisation step as a plain value.
pub enum InitStepView {
    ResetLow,
    ResetHigh,
    DelayMs(u32),
    Send(SpecTransfer),
}

/// A step as a plain value.
pub open spec fn step_view(s: InitStep) -> InitStepView {
    match s {
        InitStep::ResetLow => InitStepView::ResetLow,
        InitStep::ResetHigh => InitStepView::ResetHigh,
        InitStep::DelayMs(d) => InitStepView::DelayMs(d),
        InitStep::Send(Transfer::Command(c)) => InitStepView::Send(SpecTransfer::Command(c)),
        InitStep::Send(Transfer::Data(d)) => InitStepView::Send(SpecTransfer::Data(d@)),
    }
}

/// Steps as plain values.
pub open spec fn steps_view(s: Seq<InitStep>) -> Seq<InitStepView> {
    s.map_values(|x: InitStep| step_view(x))
}

/// The reset pulse that starts the initialisation.
pub open spec fn reset_steps() -> Seq<InitStepView> {
    seq![InitStepView::ResetLow, InitStepView::DelayMs(100), InitStepView::ResetHigh, InitStepView::DelayMs(100)]
}

proof fn lemma_table_steps_suffix(t: Seq<LcdInitCmd>, i: int)
    requires
        0 <= i < t.len(),
        forall|j: int| 0 <= j < i ==> #[trigger] t[j].databytes != 0xFF,
    ensures
        table_steps(t.skip(i)) == (if t[i].databytes == 0xFF { Seq::empty() } else {
            entry_steps(t[i]) + table_steps(t.skip(i + 1))
        }),
{
    assert(t.skip(i)[0] == t[i]);
    assert(t.skip(i).drop_first() =~= t.skip(i + 1));
}

proof fn lemma_table_steps_prefix(t: Seq<LcdInitCmd>, i: int)
    requires
        0 <= i <= t.len(),
        forall|j: int| 0 <= j < i ==> #[trigger] t[j].databytes != 0xFF,
    ensures
        table_steps(t) == table_steps(t.take(i)) + table_steps(t.skip(i)),
    decreases i,
{
    if i == 0 {
        assert(t.take(0) =~= Seq::<LcdInitCmd>::empty());
        assert(t.skip(0) =~= t);
        assert(table_steps(t.take(0)) =~= Seq::<InitStepView>::empty());
        assert(Seq::<InitStepView>::empty() + table_steps(t) =~= table_steps(t));
    } else {
        let u = t.drop_first();
        assert forall|j: int| 0 <= j < i - 1 implies #[trigger] u[j].databytes != 0xFF by {
            assert(u[j] == t[j + 1]);
        }
        lemma_table_steps_prefix(u, i - 1);
        assert(t.take(i).drop_first() =~= u.take(i - 1));
        assert(t.take(i)[0] == t[0]);
        assert(u.skip(i - 1) =~= t.skip(i));
        assert(entry_steps(t[0]) + (table_steps(u.take(i - 1)) + table_steps(u.skip(i - 1)))
            =~= (entry_steps(t[0]) + table_steps(u.take(i - 1))) + table_steps(u.skip(i - 1)));
    }
}

/// Appends one step, keeping the view.
fn push_step(steps: &mut Vec<InitStep>, s: InitStep)
    ensures
        steps_view(final(steps)@) == steps_view(old(steps)@).push(step_view(s)),
{
    steps.push(s);
    assert(steps_view(steps@) =~= steps_view(old(steps)@).push(step_view(s)));
}

/// The initialisation: a reset pulse (low, 100 ms, high, 100 ms), then each entry of the
/// table up to its end marker.
pub fn init_sequence(table: &[LcdInitCmd]) -> (steps: Vec<InitStep>)
    ensures
        steps_view(steps@) == reset_steps() + table_steps(table@),
{
    let mut steps: Vec<InitStep> = Vec::new();
    push_step(&mut steps, InitStep::ResetLow);
    push_step(&mut steps, InitStep::DelayMs(100));
    push_step(&mut steps, InitStep::ResetHigh);
    push_step(&mut steps, InitStep::DelayMs(100));
    assert(steps_view(steps@) =~= reset_steps());
    let n = table.len();
    let mut i: usize = 0;
    while i < n
        invariant
            n == table@.len(),
            i <= n,
            forall|j: int| 0 <= j < i ==> #[trigger] table@[j].databytes != 0xFF,
            steps_view(steps@) == reset_steps() + table_steps(table@.take(i as int)),
        decreases n - i,
    {
        let c = table[i];
        if c.databytes == 0xFF {
            proof {
                lemma_table_steps_prefix(table@, i as int);
                lemma_table_steps_suffix(table@, i as int);
                assert(table_steps(table@.take(i as int)) + Seq::<InitStepView>::empty() =~= table_steps(table@.take(i as int)));
            }
            return steps;
        }
        let ghost before = steps_view(steps@);
        push_step(&mut steps, InitStep::Send(Transfer::Command(c.cmd)));
        if c.data.len() > 0 {
            let mut d: Vec<u8> = Vec::new();
            crate::text::append_bytes(&mut d, c.data);
            assert(d@ =~= c.data@);
            push_step(&mut steps, InitStep::Send(Transfer::Data(d)));
        }
        if c.databytes & 0x80 != 0 {
            push_step(&mut steps, InitStep::DelayMs(100));
        }
        proof {
            let b = c.databytes;
            assert((b & 0x80 != 0) == (b >= 128)) by (bit_vector);
            assert(steps_view(steps@) =~= before + entry_steps(c));
            let t = table@;
            lemma_table_steps_prefix(t.take(i + 1), i as int);
            assert(t.take(i + 1).take(i as int) =~= t.take(i as int));
            assert(t.take(i + 1).skip(i as int) =~= seq![c]);
            assert(seq![c].drop_first() =~= Seq::<LcdInitCmd>::empty());
            assert(seq![c][0] == c);
            assert(table_steps(Seq::<LcdInitCmd>::empty()) =~= Seq::<InitStepView>::empty());
            assert(table_steps(seq![c]) =~= entry_steps(c) + Seq::<InitStepView>::empty());
            assert(entry_steps(c) + Seq::<InitStepView>::empty() =~= entry_steps(c));
            assert(reset_steps() + table_steps(t.take(i as int)) + entry_steps(c)
                =~= reset_steps() + (table_steps(t.take(i as int)) + entry_steps(c)));
        }
        i = i + 1;
    }
    proof {
        assert(table@.take(n as int) =~= table@);
    }
    steps
}

/// The bytes of pixels, three per pixel in the order red, green, blue.
pub open spec fn rgb24_bytes(p: Seq<RGB24>) -> Seq<u8>
    decreases p.len(),
{
    if p.len() == 0 {
        Seq::empty()
    } else {
        rgb24_bytes(p.drop_last()) + seq![p.last().pixelR, p.last().pixelG, p.last().pixelB]
    }
}

/// The bytes of pixels as they go over the bus.
pub fn rgb24_slice_bytes(data: &[RGB24]) -> (b: Vec<u8>)
    ensures
        b@ == rgb24_bytes(data@),
{
    let mut b: Vec<u8> = Vec::new();
    let mut i: usize = 0;
    while i < data.len()
        invariant
            i <= data@.len(),
            b@ == rgb24_bytes(data@.take(i as int)),
        decreases data@.len() - i,
    {
        let p = data[i];
        b.push(p.pixelR);
        b.push(p.pixelG);
        b.push(p.pixelB);
        proof {
            assert(data@.take(i + 1).drop_last() =~= data@.take(i as int));
        }
        i = i + 1;
    }
    assert(data@.take(data@.len() as int) =~= data@);
    b
}

/// The two bytes of an address: the low byte of `v >> 8`, then the low byte of `v`.
pub open spec fn addr_bytes(v: nat) -> Seq<u8> {
    seq![((v / 256) % 256) as u8, (v % 256) as u8]
}

/// A command, then its data if it has any.
pub open spec fn cmd_data(cmd: u8, data: Seq<u8>) -> Seq<SpecTransfer> {
    seq![SpecTransfer::Command(cmd)] + (if data.len() > 0 { seq![SpecTransfer::Data(data)] } else { Seq::empty() })
}

/// The transfers that draw a sprite of `width` columns and `height` rows at column `sx`,
/// row `y`: the row window (the display's rows and columns are swapped), the column window,
/// then the pixels. Nothing is sent for a sprite that passes the right edge.
pub open spec fn spec_draw_sprite(sx: nat, y: nat, width: nat, height: nat, bitmap: Seq<RGB24>) -> Seq<SpecTransfer> {
    if sx + width > SCREEN_WIDTH {
        Seq::empty()
    } else {
        cmd_data(0x2A, addr_bytes(y) + addr_bytes((y + height - 1) as nat))
            + cmd_data(0x2B, addr_bytes(sx) + addr_bytes((sx + width - 1) as nat))
            + cmd_data(0x2C, rgb24_bytes(bitmap))
    }
}

/// Appends a command and, if it has any, its data.
fn push_cmd_data(ts: &mut Vec<Transfer>, cmd: u8, data: Vec<u8>)
    ensures
        transfers_view(final(ts)@) == transfers_view(old(ts)@) + cmd_data(cmd, data@),
{
    let ghost d = data@;
    ts.push(Transfer::Command(cmd));
    if data.len() > 0 {
        ts.push(Transfer::Data(data));
    }
    assert(transfers_view(ts@) =~= transfers_view(old(ts)@) + cmd_data(cmd, d));
}

/// The two address bytes of `v`.
fn addr(v: usize) -> (b: Vec<u8>)
    ensures
        b@ == addr_bytes(v as nat),
{
    let mut b: Vec<u8> = Vec::new();
    b.push(((v / 256) % 256) as u8);
    b.push((v % 256) as u8);
    assert(b@ =~= addr_bytes(v as nat));
    b
}

/// Two address bytes followed by two more.
fn addr_pair(a: usize, b: usize) -> (r: Vec<u8>)
    ensures
        r@ == addr_bytes(a as nat) + addr_bytes(b as nat),
{
    let mut r = addr(a);
    let c = addr(b);
    crate::text::append_bytes(&mut r, c.as_slice());
    r
}

/// Draws a sprite straight to the display.
pub fn draw_sprite(sx: usize, y: usize, width: usize, height: usize, bitmap: &[RGB24]) -> (ts: Vec<Transfer>)
    requires
        sx + width <= SCREEN_WIDTH ==> (y + height >= 1 && sx + width >= 1 && y + height <= usize::MAX),
    ensures
        transfers_view(ts@) == spec_draw_sprite(sx as nat, y as nat, width as nat, height as nat, bitmap@),
{
    let mut ts: Vec<Transfer> = Vec::new();
    if sx > SCREEN_WIDTH || width > SCREEN_WIDTH - sx {
        assert(transfers_view(ts@) =~= Seq::<SpecTransfer>::empty());
        return ts;
    }
    push_cmd_data(&mut ts, 0x2A, addr_pair(y, y + height - 1));
    push_cmd_data(&mut ts, 0x2B, addr_pair(sx, sx + width - 1));
    push_cmd_data(&mut ts, 0x2C, rgb24_slice_bytes(bitmap));
    assert(transfers_view(ts@) =~= spec_draw_sprite(sx as nat, y as nat, width as nat, height as nat, bitmap@));
    ts
}

/// The transfers that send `cols` columns of a column-major buffer starting at column
/// `start_col`: the column window, the full-height row window, then the pixels.
pub open spec fn spec_send_lines(start_col: nat, bgbuf: Seq<RGB24>, cols: nat) -> Seq<SpecTransfer> {
    if cols == 0 {
        Seq::empty()
    } else {
        cmd_data(0x2A, addr_bytes(start_col) + addr_bytes((start_col + cols - 1) as nat))
            + cmd_data(0x2B, seq![0u8, 0u8, 0u8, 240u8])
            + cmd_data(0x2C, rgb24_bytes(bgbuf.subrange((start_col * 240) as int, (start_col * 240 + cols * 240) as int)))
    }
}

/// The number of columns sent in one burst: at most 16.
pub open spec fn burst(num_cols: nat) -> nat {
    if num_cols < PARALLEL_LINES { num_cols } else { PARALLEL_LINES as nat }
}

/// Sends at most 16 columns of the buffer `bgbuf`, starting at column `start_col`.
pub fn send_lines(start_col: usize, bgbuf: &[RGB24], num_cols: usize) -> (ts: Vec<Transfer>)
    requires
        num_cols > 0 ==> (start_col + burst(num_cols as nat)) * 240 <= bgbuf@.len(),
    ensures
        transfers_view(ts@) == spec_send_lines(start_col as nat, bgbuf@, burst(num_cols as nat)),
{
    let cols = if num_cols < PARALLEL_LINES { num_cols } else { PARALLEL_LINES };
    let blen = bgbuf.len();
    let mut ts: Vec<Transfer> = Vec::new();
    if cols == 0 {
        assert(transfers_view(ts@) =~= Seq::<SpecTransfer>::empty());
        return ts;
    }
    assert(start_col * 240 + cols * 240 <= bgbuf@.len() && start_col + cols <= start_col * 240 + cols * 240) by (nonlinear_arith)
        requires
            (start_col + cols) * 240 <= bgbuf@.len(),
            cols > 0,
    ;
    push_cmd_data(&mut ts, 0x2A, addr_pair(start_col, start_col + cols - 1));
    let mut page: Vec<u8> = Vec::new();
    page.push(0);
    page.push(0);
    page.push(0);
    page.push(240);
    assert(page@ =~= seq![0u8, 0u8, 0u8, 240u8]);
    push_cmd_data(&mut ts, 0x2B, page);
    let start = start_col * 240;
    let end = start + cols * 240;
    let mut px: Vec<RGB24> = Vec::new();
    let mut k: usize = start;
    while k < end
        invariant
            start <= k <= end,
            end <= bgbuf@.len(),
            px@ == bgbuf@.subrange(start as int, k as int),
        decreases end - k,
    {
        px.push(bgbuf[k]);
        assert(bgbuf@.subrange(start as int, k + 1) =~= bgbuf@.subrange(start as int, k as int).push(bgbuf@[k as int]));
        k = k + 1;
    }
    push_cmd_data(&mut ts, 0x2C, rgb24_slice_bytes(px.as_slice()));
    assert(transfers_view(ts@) =~= spec_send_lines(start_col as nat, bgbuf@, cols as nat));
    ts
}

/// The transfers that scroll the display by `value` rows: the scrolling area (the whole
/// screen), then the start address.
pub open spec fn spec_scroll_screen(value: u16) -> Seq<SpecTransfer> {
    cmd_data(0x33, seq![0x00u8, 0x00u8, 0x01u8, 0x40u8, 0x00u8, 0x00u8])
        + cmd_data(0x37, seq![(value / 256) as u8, (value % 256) as u8])
}

/// Scrolls the display by `value` rows.
pub fn scroll_screen(value: u16) -> (ts: Vec<Transfer>)
    ensures
        transfers_view(ts@) == spec_scroll_screen(value),
{
    let mut ts: Vec<Transfer> = Vec::new();
    let mut area: Vec<u8> = Vec::new();
    area.push(0x00);
    area.push(0x00);
    area.push(0x01);
    area.push(0x40);
    area.push(0x00);
    area.push(0x00);
    assert(area@ =~= seq![0x00u8, 0x00u8, 0x01u8, 0x40u8, 0x00u8, 0x00u8]);
    push_cmd_data(&mut ts, 0x33, area);
    let mut start: Vec<u8> = Vec::new();
    start.push((value / 256) as u8);
    start.push((value % 256) as u8);
    assert(start@ =~= seq![(value / 256) as u8, (value % 256) as u8]);
    push_cmd_data(&mut ts, 0x37, start);
    assert(transfers_view(ts@) =~= spec_scroll_screen(value));
    ts
}

/// The bursts in which a whole buffer is sent: 16 columns at a time from the left.
pub fn column_chunks() -> (c: Vec<(usize, usize)>)
    ensures
        c@.len() == 20,
        forall|i: int| 0 <= i < 20 ==> #[trigger] c@[i] == ((16 * i) as usize, 16usize),
{
    let mut c: Vec<(usize, usize)> = Vec::new();
    let mut col: usize = 0;
    while col < SCREEN_WIDTH
        invariant
            col % 16 == 0,
            col <= SCREEN_WIDTH,
            c@.len() == col / 16,
            forall|i: int| 0 <= i < c@.len() ==> #[trigger] c@[i] == ((16 * i) as usize, 16usize),
        decreases SCREEN_WIDTH - col,
    {
        let cols = if PARALLEL_LINES < SCREEN_WIDTH - col { PARALLEL_LINES } else { SCREEN_WIDTH - col };
        c.push((col, cols));
        col = col + cols;
    }
    c
}

/// The 24-bit ID from the three bytes the controller answers, least significant first.
pub fn id_from_bytes(rx: [u8; 3]) -> (id: u32)
    ensures
        id == rx@[0] + rx@[1] * 256 + rx@[2] * 65536,
{
    let a = rx[0] as u32;
    let b = rx[1] as u32;
    let c = rx[2] as u32;
    let id = a | (b << 8) | (c << 16);
    assert(a | (b << 8) | (c << 16) == a + b * 256 + c * 65536) by (bit_vector)
        requires
            a < 256,
            b < 256,
            c < 256,
    ;
    id
}

/// The colour of column `col` of the test background.
pub open spec fn gradient(col: int) -> RGB24 {
    RGB24 { pixelR: (col % 256) as u8, pixelG: ((col * 2) % 256) as u8, pixelB: ((col * 3) % 256) as u8 }
}

/// A test background: a colour gradient across the columns, column-major.
pub fn generate_bg() -> (bg: Vec<RGB24>)
    ensures
        bg@.len() == BUFFER_LEN,
        forall|k: int| 0 <= k < BUFFER_LEN ==> #[trigger] bg@[k] == gradient(k / 240),
{
    let mut bg: Vec<RGB24> = Vec::new();
    let mut col: usize = 0;
    while col < SCREEN_WIDTH
        invariant
            col <= SCREEN_WIDTH,
            bg@.len() == col * 240,
            forall|k: int| 0 <= k < bg@.len() ==> #[trigger] bg@[k] == gradient(k / 240),
        decreases SCREEN_WIDTH - col,
    {
        let color = RGB24 { pixelR: (col % 256) as u8, pixelG: ((col * 2) % 256) as u8, pixelB: ((col * 3) % 256) as u8 };
        let mut row: usize = 0;
        while row < SCREEN_HEIGHT
            invariant
                col < SCREEN_WIDTH,
                row <= SCREEN_HEIGHT,
                color == gradient(col as int),
                bg@.len() == col * 240 + row,
                forall|k: int| 0 <= k < bg@.len() ==> #[trigger] bg@[k] == gradient(k / 240),
            decreases SCREEN_HEIGHT - row,
        {
            proof {
                let k = col * 240 + row;
                assert(k / 240 == col) by (nonlinear_arith)
                    requires
                        k == col * 240 + row,
                        row < 240,
                ;
            }
            bg.push(color);
            row = row + 1;
        }
        col = col + 1;
    }
    bg
}

/// The frame buffer of the display, created on first use.
pub struct Lcd {
    pub framebuf: Option<Vec<RGB24>>,
}

/// The value of buffer index `k` after a sprite of `width` columns and `height` rows was
/// copied to column `x`, row `y` of a column-major buffer: the pixel of the last column of the
/// sprite that lands there (columns taller than the screen run into the next column), or the
/// old value.
pub open spec fn sprite_at(old_px: RGB24, k: int, x: int, y: int, width: int, height: int, bitmap: Seq<RGB24>) -> RGB24 {
    let t = k - x * 240 - y;
    let i = if t / 240 < width - 1 { t / 240 } else { width - 1 };
    let j = t - 240 * i;
    if t >= 0 && width > 0 && 0 <= j < height { bitmap[i * height + j] } else { old_px }
}

impl Lcd {
    /// No frame buffer yet.
    pub fn new() -> (l: Lcd)
        ensures
            l.framebuf is None,
    {
        Lcd { framebuf: None }
    }

    /// Creates the frame buffer, black, if there is none.
    fn ensure_buffer(&mut self)
        ensures
            final(self).framebuf is Some,
            old(self).framebuf matches Some(b) ==> final(self).framebuf == old(self).framebuf,
            old(self).framebuf is None ==> (final(self).framebuf matches Some(b) && b@ == Seq::new(BUFFER_LEN as nat, |k: int| black24())),
    {
        if self.framebuf.is_none() {
            let mut b: Vec<RGB24> = Vec::new();
            let mut k: usize = 0;
            while k < BUFFER_LEN
                invariant
                    k <= BUFFER_LEN,
                    b@ == Seq::new(k as nat, |i: int| black24()),
                decreases BUFFER_LEN - k,
            {
                b.push(RGB24 { pixelR: 0, pixelG: 0, pixelB: 0 });
                assert(b@ =~= Seq::new((k + 1) as nat, |i: int| black24()));
                k = k + 1;
            }
            self.framebuf = Some(b);
        }
    }

    /// Fills the frame buffer (created black of the screen's size if there is none) with
    /// one colour.
    pub fn buffer_fillcolor(&mut self, col: RGB24)
        ensures
            final(self).framebuf matches Some(b) && b@.len() == (match old(self).framebuf {
                Some(o) => o@.len(),
                None => BUFFER_LEN as nat,
            }) && forall|k: int| 0 <= k < b@.len() ==> #[trigger] b@[k] == col,
    {
        self.ensure_buffer();
        let mut buf = self.framebuf.take().unwrap();
        let n = buf.len();
        let mut k: usize = 0;
        while k < n
            invariant
                n == buf@.len(),
                k <= n,
                forall|i: int| 0 <= i < k ==> #[trigger] buf@[i] == col,
            decreases n - k,
        {
            buf.set(k, col);
            k = k + 1;
        }
        self.framebuf = Some(buf);
    }

    /// Copies a sprite of `width` columns and `height` rows (column by column in `bitmap`)
    /// into the frame buffer at column `x`, row `y`; pixels past the end of the buffer are
    /// dropped.
    pub fn buffer_sprite(&mut self, x: usize, y: usize, width: usize, height: usize, bitmap: &[RGB24])
        requires
            width * height <= bitmap@.len(),
            (x + width) * 240 + y + height <= usize::MAX,
        ensures
            final(self).framebuf matches Some(b) && ({
                let before = match old(self).framebuf {
                    Some(o) => o@,
                    None => Seq::new(BUFFER_LEN as nat, |k: int| black24()),
                };
                &&& b@.len() == before.len()
                &&& forall|k: int| 0 <= k < b@.len() ==> #[trigger] b@[k] == sprite_at(before[k], k, x as int, y as int, width as int, height as int, bitmap@)
            }),
    {
        self.ensure_buffer();
        let blen = bitmap.len();
        let mut buf = self.framebuf.take().unwrap();
        let ghost before = buf@;
        let n = buf.len();
        let mut i: usize = 0;
        while i < width
            invariant
                n == buf@.len(),
                n == before.len(),
                i <= width,
                blen == bitmap@.len(),
                width * height <= bitmap@.len(),
                (x + width) * 240 + y + height <= usize::MAX,
                forall|k: int| 0 <= k < n ==> #[trigger] buf@[k] == sprite_at(before[k], k, x as int, y as int, i as int, height as int, bitmap@),
            decreases width - i,
        {
            let mut j: usize = 0;
            while j < height
                invariant
                    n == buf@.len(),
                    n == before.len(),
                    i < width,
                    j <= height,
                    blen == bitmap@.len(),
                    width * height <= bitmap@.len(),
                    (x + width) * 240 + y + height <= usize::MAX,
                    forall|k: int| 0 <= k < n ==> #[trigger] buf@[k] == (if (x + i) * 240 + y <= k < (x + i) * 240 + y + j {
                        bitmap@[i * height + (k - (x + i) * 240 - y)]
                    } else {
                        sprite_at(before[k], k, x as int, y as int, i as int, height as int, bitmap@)
                    }),
                decreases height - j,
            {
                proof {
                    assert((x + i) * 240 + y + j < (x + width) * 240 + y + height) by (nonlinear_arith)
                        requires
                            i < width,
                            j < height,
                    ;
                    assert(i * height + j < width * height) by (nonlinear_arith)
                        requires
                            i < width,
                            j < height,
                    ;
                    assert(i * height <= width * height) by (nonlinear_arith)
                        requires
                            i < width,
                    ;
                }
                let dest = (x + i) * 240 + (y + j);
                if dest < n {
                    buf.set(dest, bitmap[i * height + j]);
                }
                j = j + 1;
            }
            proof {
                assert forall|k: int| 0 <= k < n implies #[trigger] buf@[k] == sprite_at(before[k], k, x as int, y as int, (i + 1) as int, height as int, bitmap@) by {
                    let t = k - x * 240 - y;
                    let base = (x + i) * 240 + y;
                    assert(base == x * 240 + y + 240 * i) by (nonlinear_arith)
                        requires
                            base == (x + i) * 240 + y,
                    ;
                    if base <= k < base + height {
                        assert(t - 240 * i >= 0);
                        assert(t / 240 >= i) by (nonlinear_arith)
                            requires
                                t - 240 * i >= 0,
                                i >= 0,
                        ;
                    } else {
                        if t >= 0 && t / 240 >= i {
                            assert(t - 240 * i >= height) by (nonlinear_arith)
                                requires
                                    t / 240 >= i,
                                    t >= 0,
                                    !(0 <= t - 240 * i < height),
                                    i >= 0,
                                    height >= 0,
                            {
                                assert(t >= 240 * (t / 240)) by (nonlinear_arith) requires t >= 0;
                                assert(240 * (t / 240) >= 240 * i) by (nonlinear_arith) requires t / 240 >= i;
                            }
                            if i > 0 {
                                assert(t - 240 * (i - 1) >= height + 240);
                            }
                        }
                    }
                }
            }
            i = i + 1;
        }
        self.framebuf = Some(buf);
    }
}

/// The transfers that put the frame buffer on the screen by scrolling: a scroll back to the
/// start when asked, then, while the offset is one burst at most, the columns up to the offset
/// and a scroll by the screen's width.
pub open spec fn spec_scroll_buffer(buf: Option<Seq<RGB24>>, screenoffset: nat, reset_scroll: bool) -> Seq<SpecTransfer> {
    let reset = if reset_scroll { spec_scroll_screen(0) } else { Seq::empty() };
    match buf {
        Some(b) => if screenoffset > 0 {
            reset + spec_send_lines(0, b.take((screenoffset * 240) as int), screenoffset) + spec_scroll_screen(320)
        } else {
            reset
        },
        None => reset,
    }
}

impl Lcd {
    /// Scrolls the frame buffer onto the screen, `screenoffset` columns of it. The columns
    /// after the first burst are sent from the burst's own start, so the buffer can only be
    /// scrolled by one burst (16 columns) at a time.
    pub fn scroll_buffer(&self, screenoffset: usize, reset_scroll: bool) -> (ts: Vec<Transfer>)
        requires
            self.framebuf matches Some(b) ==> (screenoffset <= PARALLEL_LINES && screenoffset * 240 <= b@.len()),
        ensures
            transfers_view(ts@) == spec_scroll_buffer(match self.framebuf { Some(b) => Some(b@), None => None }, screenoffset as nat, reset_scroll),
    {
        let mut ts: Vec<Transfer> = Vec::new();
        if reset_scroll {
            ts = scroll_screen(0);
        }
        let ghost reset = transfers_view(ts@);
        match &self.framebuf {
            Some(buf) => {
                if screenoffset > 0 {
                    let end = screenoffset * 240;
                    let mut part: Vec<RGB24> = Vec::new();
                    let mut k: usize = 0;
                    while k < end
                        invariant
                            k <= end,
                            end <= buf@.len(),
                            part@ == buf@.subrange(0, k as int),
                        decreases end - k,
                    {
                        part.push(buf[k]);
                        assert(buf@.subrange(0, k + 1) =~= buf@.subrange(0, k as int).push(buf@[k as int]));
                        k = k + 1;
                    }
                    let lines = send_lines(0, part.as_slice(), screenoffset);
                    let ghost with_reset = transfers_view(ts@);
                    crate::ili9341::append_transfers(&mut ts, lines);
                    crate::ili9341::append_transfers(&mut ts, scroll_screen(320));
                    proof {
                        assert(part@ =~= buf@.take(end as int));
                        assert(part@.subrange(0, (screenoffset * 240) as int) =~= part@);
                        assert(burst(screenoffset as nat) == screenoffset);
                    }
                }
            },
            None => {},
        }
        ts
    }
}

} // verus!
