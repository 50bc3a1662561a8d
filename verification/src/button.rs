//! Debouncing of the push buttons, and the press, hold and release events that come of it.
use vstd::prelude::*;

verus! {

/// What happened to a button.
#[derive(Debug, Copy, Clone, PartialEq, Eq, Structural)]
pub enum ButtonEventKind {
    Down,
    Up,
    Held,
}

impl ButtonEventKind {
    /// The number that stands for the kind on the event queue.
    pub fn code(self) -> (c: u8)
        ensures
            c == match self {
                ButtonEventKind::Down => 1u8,
                ButtonEventKind::Up => 2u8,
                ButtonEventKind::Held => 3u8,
            },
    {
        match self {
            ButtonEventKind::Down => 1,
            ButtonEventKind::Up => 2,
            ButtonEventKind::Held => 3,
        }
    }
}

/// An event of the button on GPIO `pin`.
#[derive(Debug, Copy, Clone, PartialEq, Eq, Structural)]
pub struct ButtonEvent {
    pub pin: i32,
    pub event: ButtonEventKind,
}

/// How long a button must be held before it reports being held, in ms.
pub const LONG_PRESS_DURATION_MS: u64 = 2000;

/// How often a held button reports being held, in ms.
pub const LONG_PRESS_REPEAT_MS: u64 = 50;

/// The bits of the sample history that a debounced edge looks at: the four oldest and the six
/// newest of sixteen.
pub const MASK: u16 = 0b1111000000111111;

/// The debounce state of one button: its last sixteen samples (newest in bit 0), whether it
/// reads low when pressed, and the times of its press and of its next hold report.
#[derive(Debug, Copy, Clone, PartialEq, Eq, Structural)]
pub struct Debounce {
    pub pin: i32,
    pub inverted: bool,
    pub history: u16,
    pub down_time: u64,
    pub next_long_time: u64,
}

/// The history after one more sample.
pub open spec fn shifted(history: u16, level: bool) -> u16 {
    ((history << 1u16) | (if level { 1u16 } else { 0u16 })) as u16
}

/// The masked history shows a rising edge: four low samples long ago, six high ones now.
pub open spec fn rose(history: u16) -> bool {
    history & MASK == 0b0000000000111111u16
}

/// The masked history shows a falling edge: four high samples long ago, six low ones now.
pub open spec fn fell(history: u16) -> bool {
    history & MASK == 0b1111000000000000u16
}

/// The history after checking for a rising edge: all high once one is found.
pub open spec fn after_rose(history: u16) -> u16 {
    if rose(history) { 0xffff } else { history }
}

/// The history after checking for a falling edge: all low once one is found.
pub open spec fn after_fell(history: u16) -> u16 {
    if fell(history) { 0 } else { history }
}

/// The edge that means "pressed" for a button, given its wiring.
pub open spec fn press_edge(inverted: bool, history: u16) -> bool {
    if inverted { fell(history) } else { rose(history) }
}

/// The edge that means "released" for a button, given its wiring.
pub open spec fn release_edge(inverted: bool, history: u16) -> bool {
    if inverted { rose(history) } else { fell(history) }
}

pub open spec fn after_press_check(inverted: bool, history: u16) -> u16 {
    if inverted { after_fell(history) } else { after_rose(history) }
}

pub open spec fn after_release_check(inverted: bool, history: u16) -> u16 {
    if inverted { after_rose(history) } else { after_fell(history) }
}

/// The timing can go on without overflow: a press at `now` schedules a hold report 2000 ms
/// later, and a hold report schedules the next one 50 ms later.
pub open spec fn tick_ok(d: Debounce, now_ms: u64) -> bool {
    &&& now_ms + LONG_PRESS_DURATION_MS <= u64::MAX
    &&& d.next_long_time + LONG_PRESS_REPEAT_MS <= u64::MAX
}

/// One sampling step of a button at time `now_ms` with input level `level`: the new state and
/// the event it reports.
pub open spec fn spec_tick(d: Debounce, now_ms: u64, level: bool) -> (Debounce, Option<ButtonEventKind>) {
    let h1 = shifted(d.history, level);
    if release_edge(d.inverted, h1) {
        (Debounce { history: after_release_check(d.inverted, h1), down_time: 0, ..d }, Some(ButtonEventKind::Up))
    } else if d.down_time != 0 && now_ms >= d.next_long_time {
        (Debounce { history: h1, next_long_time: (d.next_long_time + LONG_PRESS_REPEAT_MS) as u64, ..d }, Some(ButtonEventKind::Held))
    } else {
        let h2 = after_press_check(d.inverted, h1);
        if press_edge(d.inverted, h1) && d.down_time == 0 {
            (Debounce { history: h2, down_time: now_ms, next_long_time: (now_ms + LONG_PRESS_DURATION_MS) as u64, ..d }, Some(ButtonEventKind::Down))
        } else {
            (Debounce { history: h2, ..d }, None)
        }
    }
}

/// The event of the button on `pin`, if there is one.
pub open spec fn event_on(pin: i32, k: Option<ButtonEventKind>) -> Option<ButtonEvent> {
    match k {
        Some(e) => Some(ButtonEvent { pin, event: e }),
        None => None,
    }
}

impl Debounce {
    /// A button on `pin` that reads low when pressed, its history all high (released).
    pub fn new(pin: i32) -> (d: Debounce)
        ensures
            d == (Debounce { pin, inverted: true, history: 0xffff, down_time: 0, next_long_time: 0 }),
    {
        Debounce { pin, inverted: true, history: 0xffff, down_time: 0, next_long_time: 0 }
    }

    /// Records one more sample of the input level.
    pub fn update_button(&mut self, level: bool)
        ensures
            *final(self) == (Debounce { history: shifted(old(self).history, level), ..*old(self) }),
    {
        let bit: u16 = if level { 1 } else { 0 };
        self.history = (self.history << 1u16) | bit;
    }

    /// Whether the history shows a rising edge; one that does is consumed (set all high).
    pub fn button_rose(&mut self) -> (r: bool)
        ensures
            r == rose(old(self).history),
            *final(self) == (Debounce { history: after_rose(old(self).history), ..*old(self) }),
    {
        if (self.history & MASK) == 0b0000000000111111 {
            self.history = 0xffff;
            true
        } else {
            false
        }
    }

    /// Whether the history shows a falling edge; one that does is consumed (set all low).
    pub fn button_fell(&mut self) -> (r: bool)
        ensures
            r == fell(old(self).history),
            *final(self) == (Debounce { history: after_fell(old(self).history), ..*old(self) }),
    {
        if (self.history & MASK) == 0b1111000000000000 {
            self.history = 0x0000;
            true
        } else {
            false
        }
    }

    /// Whether the button has just been pressed (consuming the edge).
    pub fn button_down(&mut self) -> (r: bool)
        ensures
            r == press_edge(old(self).inverted, old(self).history),
            *final(self) == (Debounce { history: after_press_check(old(self).inverted, old(self).history), ..*old(self) }),
    {
        if self.inverted { self.button_fell() } else { self.button_rose() }
    }

    /// Whether the button has just been released (consuming the edge).
    pub fn button_up(&mut self) -> (r: bool)
        ensures
            r == release_edge(old(self).inverted, old(self).history),
            *final(self) == (Debounce { history: after_release_check(old(self).inverted, old(self).history), ..*old(self) }),
    {
        if self.inverted { self.button_rose() } else { self.button_fell() }
    }

    /// One sampling step at time `now_ms` with input `level`: reports a release, then a hold
    /// (every 50 ms once held for 2 s), then a press.
    pub fn tick(&mut self, now_ms: u64, level: bool) -> (ev: Option<ButtonEvent>)
        requires
            tick_ok(*old(self), now_ms),
        ensures
            *final(self) == spec_tick(*old(self), now_ms, level).0,
            ev == event_on(old(self).pin, spec_tick(*old(self), now_ms, level).1),
    {
        self.update_button(level);
        if self.button_up() {
            self.down_time = 0;
            Some(ButtonEvent { pin: self.pin, event: ButtonEventKind::Up })
        } else if self.down_time != 0 && now_ms >= self.next_long_time {
            self.next_long_time = self.next_long_time + LONG_PRESS_REPEAT_MS;
            Some(ButtonEvent { pin: self.pin, event: ButtonEventKind::Held })
        } else if self.button_down() && self.down_time == 0 {
            self.down_time = now_ms;
            self.next_long_time = now_ms + LONG_PRESS_DURATION_MS;
            Some(ButtonEvent { pin: self.pin, event: ButtonEventKind::Down })
        } else {
            None
        }
    }
}

/// A press, once reported, is not reported again until the button has been released: while the
/// button is down (its press time set) a step reports no second press.
pub proof fn lemma_no_double_press(d: Debounce, now_ms: u64, level: bool)
    requires
        d.down_time != 0,
    ensures
        spec_tick(d, now_ms, level).1 != Some(ButtonEventKind::Down),
{
}

/// A release clears the press time, so the next press can be reported.
pub proof fn lemma_release_rearms(d: Debounce, now_ms: u64, level: bool)
    ensures
        spec_tick(d, now_ms, level).1 == Some(ButtonEventKind::Up) ==> spec_tick(d, now_ms, level).0.down_time == 0,
        spec_tick(d, now_ms, level).1 == Some(ButtonEventKind::Down) ==> spec_tick(d, now_ms, level).0.down_time == now_ms,
{
}

} // verus!
