//! The RGB LED engine: its operating modes, the state the menus change, and the animation that
//! a worker steps through, one colour per update period.
use vstd::prelude::*;
use crate::rgb::{RGB, lerp, spec_lerp, lemma_lerp_range};

verus! {

/// An operating mode of the LED cycling engine.
#[derive(Clone, Copy, Debug, PartialEq, Eq, Structural)]
pub enum LedMode {
    Solid(RGB),
    Fade(RGB, RGB),
    Rainbow,
    Off,
}

/// The state of the LEDs: the mode, the brightness (255 is full) and the period between
/// updates of the colour, in milliseconds.
#[derive(Clone, Copy, Debug, PartialEq, Eq, Structural)]
pub struct LedState {
    pub mode: LedMode,
    pub brightness: u8,
    pub speed_ms: u64,
}

impl LedState {
    /// The engine as it starts: in `initial_mode`, at full brightness, updating every 10 ms.
    pub fn new(initial_mode: LedMode) -> (s: LedState)
        ensures
            s.mode == initial_mode,
            s.brightness == 255,
            s.speed_ms == 10,
    {
        LedState { mode: initial_mode, brightness: 255, speed_ms: 10 }
    }

    /// Sets the operating mode.
    pub fn set_mode(&mut self, mode: LedMode)
        ensures
            *final(self) == (LedState { mode, ..*old(self) }),
    {
        self.mode = mode;
    }

    /// Sets the brightness.
    pub fn set_brightness(&mut self, brightness: u8)
        ensures
            *final(self) == (LedState { brightness, ..*old(self) }),
    {
        self.brightness = brightness;
    }

    /// Sets the period between updates.
    pub fn set_speed(&mut self, speed_ms: u64)
        ensures
            *final(self) == (LedState { speed_ms, ..*old(self) }),
    {
        self.speed_ms = speed_ms;
    }

    /// The operating mode.
    pub fn get_mode(&self) -> (m: LedMode)
        ensures
            m == self.mode,
    {
        self.mode
    }

    /// The brightness.
    pub fn get_brightness(&self) -> (b: u8)
        ensures
            b == self.brightness,
    {
        self.brightness
    }
}

/// Reading the mode back gives the mode last set, whatever brightness or speed was set after it.
pub proof fn lemma_mode_reads_back(s: LedState, m: LedMode, b: u8, sp: u64)
    ensures
        (LedState { speed_ms: sp, ..(LedState { brightness: b, ..(LedState { mode: m, ..s }) }) }).mode == m,
{
}

/// The colour of one update: either a colour, or (for the rainbow) a hue in degrees that the
/// caller turns into a colour at full saturation and value.
#[derive(Clone, Copy, Debug, PartialEq, Eq, Structural)]
pub enum LedFrame {
    Color(u8, u8, u8),
    Hue(u32),
}

/// How far the animation has come: a counter and, for the fade, its direction.
#[derive(Clone, Copy, Debug, PartialEq, Eq, Structural)]
pub struct LedAnimator {
    pub tick: u32,
    pub goingup: bool,
}

/// The animation after one update in `mode`, and the colour of that update.
pub open spec fn spec_led_step(a: LedAnimator, mode: LedMode) -> (LedAnimator, LedFrame) {
    match mode {
        LedMode::Off => (a, LedFrame::Color(0, 0, 0)),
        LedMode::Solid(c) => (a, LedFrame::Color(c.r, c.g, c.b)),
        LedMode::Fade(c1, c2) => {
            let up = if a.tick == 0 { true } else if a.tick == 255 { false } else { a.goingup };
            let t = if up { a.tick + 1 } else { a.tick - 1 };
            let k = (t % 256) as int;
            (LedAnimator { tick: t as u32, goingup: up }, LedFrame::Color(
                spec_lerp(c1.r as int, c2.r as int, k) as u8,
                spec_lerp(c1.g as int, c2.g as int, k) as u8,
                spec_lerp(c1.b as int, c2.b as int, k) as u8,
            ))
        },
        LedMode::Rainbow => {
            let t = ((a.tick + 1) % 360) as u32;
            (LedAnimator { tick: t, ..a }, LedFrame::Hue(t))
        },
    }
}

impl LedAnimator {
    /// The animation at its start.
    pub fn new() -> (a: LedAnimator)
        ensures
            a.tick == 0,
            a.goingup,
    {
        LedAnimator { tick: 0, goingup: true }
    }

    /// Advances the animation by one update in `mode` and gives the colour to show: black when
    /// off, the colour when solid, a blend that moves to the second colour and back when fading
    /// (255 updates each way), and a hue going round the colour wheel a degree per update for
    /// the rainbow.
    pub fn step(&mut self, mode: LedMode) -> (f: LedFrame)
        requires
            old(self).tick < u32::MAX,
        ensures
            (*final(self), f) == spec_led_step(*old(self), mode),
    {
        match mode {
            LedMode::Off => LedFrame::Color(0, 0, 0),
            LedMode::Solid(c) => LedFrame::Color(c.r, c.g, c.b),
            LedMode::Fade(c1, c2) => {
                if self.tick == 0 {
                    self.goingup = true;
                }
                if self.tick == 255 {
                    self.goingup = false;
                }
                if self.goingup {
                    self.tick = self.tick + 1;
                } else {
                    self.tick = self.tick - 1;
                }
                let k: u8 = (self.tick % 256) as u8;
                LedFrame::Color(lerp(c1.r, c2.r, k), lerp(c1.g, c2.g, k), lerp(c1.b, c2.b, k))
            },
            LedMode::Rainbow => {
                self.tick = (self.tick + 1) % 360;
                LedFrame::Hue(self.tick)
            },
        }
    }
}

/// One update of a fade moves the counter one step (up from 0, down from 255) and shows, in
/// each of red, green and blue, the blend of that same channel of the two colours at the new
/// counter: a value between the two, equal to the first colour at 0 and to the second at 255.
pub proof fn lemma_fade_frame(a: LedAnimator, c1: RGB, c2: RGB)
    requires
        a.tick < u32::MAX,
    ensures
        ({
            let (na, f) = spec_led_step(a, LedMode::Fade(c1, c2));
            let k = (na.tick % 256) as int;
            &&& na.tick == a.tick + 1 || na.tick == a.tick - 1
            &&& a.tick == 0 ==> na.tick == 1 && na.goingup
            &&& a.tick == 255 ==> na.tick == 254 && !na.goingup
            &&& f matches LedFrame::Color(r, g, b) && {
                &&& r == spec_lerp(c1.r as int, c2.r as int, k)
                &&& g == spec_lerp(c1.g as int, c2.g as int, k)
                &&& b == spec_lerp(c1.b as int, c2.b as int, k)
                &&& vstd::math::min(c1.r as int, c2.r as int) <= r <= vstd::math::max(c1.r as int, c2.r as int)
                &&& vstd::math::min(c1.g as int, c2.g as int) <= g <= vstd::math::max(c1.g as int, c2.g as int)
                &&& vstd::math::min(c1.b as int, c2.b as int) <= b <= vstd::math::max(c1.b as int, c2.b as int)
                &&& k == 0 ==> r == c1.r && g == c1.g && b == c1.b
                &&& k == 255 ==> r == c2.r && g == c2.g && b == c2.b
            }
        }),
{
    let (na, f) = spec_led_step(a, LedMode::Fade(c1, c2));
    let k = (na.tick % 256) as int;
    lemma_lerp_range(c1.r as int, c2.r as int, k);
    lemma_lerp_range(c1.g as int, c2.g as int, k);
    lemma_lerp_range(c1.b as int, c2.b as int, k);
}

/// Off shows black and a solid colour shows that colour, red, green and blue in that order,
/// neither moving the animation; the rainbow moves the hue a degree round the wheel and shows it.
pub proof fn lemma_led_other_modes(a: LedAnimator, c: RGB)
    ensures
        spec_led_step(a, LedMode::Off) == (a, LedFrame::Color(0, 0, 0)),
        spec_led_step(a, LedMode::Solid(c)) == (a, LedFrame::Color(c.r, c.g, c.b)),
        ({
            let (na, f) = spec_led_step(a, LedMode::Rainbow);
            &&& na.tick < 360
            &&& (na.tick as int) == (a.tick as int + 1) % 360
            &&& na.goingup == a.goingup
            &&& f == LedFrame::Hue(na.tick)
        }),
{
}

/// The duty cycle for a channel value `val` at brightness `bright`, out of `max_duty`.
pub open spec fn spec_apply_brightness(val: u8, bright: u8, max_duty: u16) -> u16 {
    ((val * bright * max_duty) / 65025) as u16
}

/// Scales a channel value by the brightness into a duty cycle of at most `max_duty`.
pub fn apply_brightness(val: u8, bright: u8, max_duty: u16) -> (d: u16)
    ensures
        d == spec_apply_brightness(val, bright, max_duty),
        d <= max_duty,
{
    let v = val as u32;
    let b = bright as u32;
    let m = max_duty as u32;
    assert(v * b <= 65025) by (nonlinear_arith)
        requires
            v <= 255,
            b <= 255,
    ;
    assert(v * b * m <= 65025 * m) by (nonlinear_arith)
        requires
            v * b <= 65025,
    ;
    let p: u32 = v * b * m;
    assert(p / 65025 <= m) by (nonlinear_arith)
        requires
            p <= 65025 * m,
    ;
    (p / 65025) as u16
}

/// At full brightness a full channel gives the full duty cycle, and a dark one none.
pub proof fn lemma_full_brightness(max_duty: u16)
    ensures
        spec_apply_brightness(255, 255, max_duty) == max_duty,
        spec_apply_brightness(0, 255, max_duty) == 0,
{
    assert(255 * 255 * max_duty / 65025 == max_duty) by (nonlinear_arith);
    assert(0 * 255 * max_duty / 65025 == 0) by (nonlinear_arith);
}

/// The LED settings of the older engine.
#[allow(non_snake_case)]
#[derive(Clone, Copy, Debug, PartialEq, Eq, Structural)]
pub struct Settings {
    pub RGB_mode: u8,
    pub RGB_colour: RGB,
    pub RGB_colour_2: RGB,
    pub RGB_brightness: u16,
    pub RGB_speed: u16,
}

/// Why the older engine's worker could not be reached.
#[derive(Clone, Copy, Debug, PartialEq, Eq, Structural)]
pub enum LedError {
    /// A message could not be sent to the worker.
    ThreadSendError,
    /// The worker could not be joined.
    ThreadJoinError,
}

/// The configuration of a fade in the older engine.
#[derive(Clone, Copy, Debug, PartialEq, Eq, Structural)]
pub struct FadeConfig {
    pub colour_1: RGB,
    pub colour_2: RGB,
    pub brightness: u32,
    pub speed: u16,
}

} // verus!
