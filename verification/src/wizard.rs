//! The PWM wizard: a screen of five elements (channel, supply voltage, minimum and maximum
//! duty, solenoid mode) that the encoder browses and edits.
use vstd::prelude::*;
use crate::pwm::PwmNumber;
use crate::button::ButtonEventKind;
use crate::menu::MenuSignal;
use crate::screens::{ButtonType, ScreenInput};
use crate::text::{ascii_chars, spec_decimal, concat_str, decimal_string};

verus! {

/// How a channel drives its load.
#[derive(Debug, Clone, Copy, PartialEq, Eq, Structural)]
pub enum PwmMode {
    Pwm,
    Solenoid,
}

/// Whether the encoder moves between the elements or edits the selected one.
#[derive(Debug, Clone, Copy, PartialEq, Eq, Structural)]
pub enum WizardMode {
    Browse,
    Edit,
}

/// The elements of the wizard, in their order on the screen.
#[derive(Debug, Clone, Copy, PartialEq, Eq, Structural)]
pub enum MenuElementType {
    Channel,
    Voltage,
    Min,
    Max,
    Solenoid,
}

/// The limits and the mode of a channel.
#[derive(Debug, Clone, Copy, PartialEq, Eq, Structural)]
pub struct ChannelState {
    pub min: u16,
    pub max: u16,
    pub solenoid: PwmMode,
}

impl ChannelState {
    /// No limits yet, plain PWM.
    pub fn zero() -> (c: ChannelState)
        ensures
            c == (ChannelState { min: 0, max: 0, solenoid: PwmMode::Pwm }),
    {
        ChannelState { min: 0, max: 0, solenoid: PwmMode::Pwm }
    }
}

/// The number of elements.
pub const NUM_ELEMENTS: usize = 5;
/// The lowest supply voltage, in half volts.
pub const MIN_VOLTAGE: u8 = 8;
/// The highest supply voltage, in half volts.
pub const MAX_VOLTAGE: u8 = 48;
/// The supply voltage the wizard starts with, in half volts.
pub const DEFAULT_VOLTAGE: u8 = 24;

/// The element at position `i`.
pub open spec fn spec_element(i: usize) -> MenuElementType {
    if i == 0 {
        MenuElementType::Channel
    } else if i == 1 {
        MenuElementType::Voltage
    } else if i == 2 {
        MenuElementType::Min
    } else if i == 3 {
        MenuElementType::Max
    } else {
        MenuElementType::Solenoid
    }
}

/// The element at position `i`.
pub fn element_type(i: usize) -> (t: MenuElementType)
    ensures
        t == spec_element(i),
{
    if i == 0 {
        MenuElementType::Channel
    } else if i == 1 {
        MenuElementType::Voltage
    } else if i == 2 {
        MenuElementType::Min
    } else if i == 3 {
        MenuElementType::Max
    } else {
        MenuElementType::Solenoid
    }
}

/// The state of the wizard.
#[derive(Debug, Clone, Copy, PartialEq, Eq, Structural)]
pub struct PwmWizardState {
    pub selected_channel: PwmNumber,
    pub mode: WizardMode,
    pub selected_element: usize,
    pub channel_state: ChannelState,
    /// The supply voltage, in half volts.
    pub voltage: u8,
}

/// An element is selected, and the solenoid switch is never being edited.
pub open spec fn wizard_wf(s: PwmWizardState) -> bool {
    &&& s.selected_element < NUM_ELEMENTS
    &&& (s.mode == WizardMode::Edit ==> spec_element(s.selected_element) != MenuElementType::Solenoid)
}

/// What the wizard does after an input.
#[derive(Debug, Clone, Copy, PartialEq, Eq, Structural)]
pub enum WizardAction {
    Nothing,
    /// Redraw element `i`.
    Redraw(usize),
    /// Redraw the element that lost the selection, then the one that gained it.
    RedrawTwo(usize, usize),
    /// Set the channel's mode, then redraw the selected element.
    SetOperatingMode(PwmNumber, PwmMode),
    /// Read the limits and mode of this channel into the wizard, then redraw every element.
    LoadChannel(PwmNumber),
    /// Redraw the voltage, and the voltages shown beside the limits.
    RedrawVoltage,
    /// Set the channel's minimum duty, then redraw the selected element.
    SetMinDuty(PwmNumber, u16),
    /// Set the channel's maximum duty, then redraw the selected element.
    SetMaxDuty(PwmNumber, u16),
    Finish(MenuSignal),
}

/// The channel that the channel element switches to: the wizard alternates between the first
/// two.
pub open spec fn spec_wizard_next_channel(c: PwmNumber) -> PwmNumber {
    match c {
        PwmNumber::Pwm0 => PwmNumber::Pwm1,
        _ => PwmNumber::Pwm0,
    }
}

/// `v` within `[lo, hi]`.
pub open spec fn clamp(v: int, lo: int, hi: int) -> int {
    if v < lo { lo } else if v > hi { hi } else { v }
}

/// The voltage after a turn of `r` steps: moved by `r` (at most 127 either way, and staying
/// within a byte), then kept between the lowest and the highest voltage.
pub open spec fn spec_turn_voltage(v: u8, r: i16) -> u8 {
    let d = clamp(r as int, -128, 127);
    clamp(clamp(v + d, 0, 255), MIN_VOLTAGE as int, MAX_VOLTAGE as int) as u8
}

/// The minimum duty after a turn of `r` steps: moved (within 16 bits), and not above the
/// maximum.
pub open spec fn spec_turn_min(c: ChannelState, r: i16) -> u16 {
    let m = clamp(c.min + r, 0, u16::MAX as int);
    if m < c.max { m as u16 } else { c.max }
}

/// The maximum duty after a turn of `r` steps: moved (within 16 bits), not below the minimum
/// and not above the channel's full duty `max_duty`.
pub open spec fn spec_turn_max(c: ChannelState, r: i16, max_duty: u16) -> u16 {
    let m = clamp(c.max + r, 0, u16::MAX as int);
    let m2 = if m > c.min { m } else { c.min as int };
    (if m2 < max_duty { m2 } else { max_duty as int }) as u16
}

/// The wizard after an input, and what to do; `max_duty` is the channels' full duty.
pub open spec fn spec_wizard_step(s: PwmWizardState, inp: ScreenInput, max_duty: u16) -> (PwmWizardState, WizardAction) {
    match inp {
        ScreenInput::Button(ButtonType::Rotenc, ButtonEventKind::Down) =>
            if spec_element(s.selected_element) != MenuElementType::Solenoid {
                (PwmWizardState { mode: if s.mode == WizardMode::Browse { WizardMode::Edit } else { WizardMode::Browse }, ..s },
                    WizardAction::Redraw(s.selected_element))
            } else {
                let m = if s.channel_state.solenoid == PwmMode::Pwm { PwmMode::Solenoid } else { PwmMode::Pwm };
                (PwmWizardState { channel_state: ChannelState { solenoid: m, ..s.channel_state }, ..s },
                    WizardAction::SetOperatingMode(s.selected_channel, m))
            },
        ScreenInput::Button(ButtonType::Right, _) => (s, WizardAction::Finish(MenuSignal::Back)),
        ScreenInput::Button(ButtonType::Left, ButtonEventKind::Down) => (s, WizardAction::Finish(MenuSignal::Back)),
        ScreenInput::Button(_, _) => (s, WizardAction::Nothing),
        ScreenInput::Turn(r) => match s.mode {
            WizardMode::Browse => {
                let to = ((s.selected_element + (r as int) % 5) % 5) as usize;
                (PwmWizardState { selected_element: to, ..s }, WizardAction::RedrawTwo(s.selected_element, to))
            },
            WizardMode::Edit => match spec_element(s.selected_element) {
                MenuElementType::Channel => {
                    let c = spec_wizard_next_channel(s.selected_channel);
                    (PwmWizardState { selected_channel: c, ..s }, WizardAction::LoadChannel(c))
                },
                MenuElementType::Voltage =>
                    (PwmWizardState { voltage: spec_turn_voltage(s.voltage, r), ..s }, WizardAction::RedrawVoltage),
                MenuElementType::Min => {
                    let m = spec_turn_min(s.channel_state, r);
                    (PwmWizardState { channel_state: ChannelState { min: m, ..s.channel_state }, ..s },
                        WizardAction::SetMinDuty(s.selected_channel, m))
                },
                MenuElementType::Max => {
                    let m = spec_turn_max(s.channel_state, r, max_duty);
                    (PwmWizardState { channel_state: ChannelState { max: m, ..s.channel_state }, ..s },
                        WizardAction::SetMaxDuty(s.selected_channel, m))
                },
                MenuElementType::Solenoid => (s, WizardAction::Nothing),
            },
        },
    }
}

impl PwmWizardState {
    /// The wizard on the first channel, browsing from the first element, at 12 V.
    pub fn new() -> (s: PwmWizardState)
        ensures
            wizard_wf(s),
            s.selected_channel == PwmNumber::Pwm0,
            s.mode == WizardMode::Browse,
            s.selected_element == 0,
            s.channel_state == (ChannelState { min: 0, max: 0, solenoid: PwmMode::Pwm }),
            s.voltage == DEFAULT_VOLTAGE,
    {
        PwmWizardState {
            selected_channel: PwmNumber::Pwm0,
            mode: WizardMode::Browse,
            selected_element: 0,
            channel_state: ChannelState::zero(),
            voltage: DEFAULT_VOLTAGE,
        }
    }

    /// Takes the limits and mode read from the selected channel.
    pub fn set_channel_state(&mut self, c: ChannelState)
        ensures
            *final(self) == (PwmWizardState { channel_state: c, ..*old(self) }),
    {
        self.channel_state = c;
    }

    /// The encoder's button starts or ends editing the selected element (and flips the
    /// solenoid switch when that is selected); the left button (back) and the right button
    /// leave. A turn moves the
    /// selection, or edits the element: switches the channel, moves the voltage between 4 V
    /// and 24 V, or moves a limit, the minimum never above the maximum and the maximum
    /// between the minimum and the full duty.
    pub fn step(&mut self, inp: ScreenInput, max_duty: u16) -> (a: WizardAction)
        requires
            wizard_wf(*old(self)),
        ensures
            (*final(self), a) == spec_wizard_step(*old(self), inp, max_duty),
            wizard_wf(*final(self)),
    {
        match inp {
            ScreenInput::Button(ButtonType::Rotenc, ButtonEventKind::Down) => {
                if element_type(self.selected_element) != MenuElementType::Solenoid {
                    self.mode = match self.mode {
                        WizardMode::Browse => WizardMode::Edit,
                        WizardMode::Edit => WizardMode::Browse,
                    };
                    WizardAction::Redraw(self.selected_element)
                } else {
                    let m = match self.channel_state.solenoid {
                        PwmMode::Pwm => PwmMode::Solenoid,
                        PwmMode::Solenoid => PwmMode::Pwm,
                    };
                    self.channel_state.solenoid = m;
                    WizardAction::SetOperatingMode(self.selected_channel, m)
                }
            },
            ScreenInput::Button(ButtonType::Right, _) => WizardAction::Finish(MenuSignal::Back),
            ScreenInput::Button(ButtonType::Left, ButtonEventKind::Down) => WizardAction::Finish(MenuSignal::Back),
            ScreenInput::Button(_, _) => WizardAction::Nothing,
            ScreenInput::Turn(r) => match self.mode {
                WizardMode::Browse => {
                    let from = self.selected_element;
                    let ri: i32 = r as i32;
                    let step: i32 = if ri % 5 < 0 { ri % 5 + 5 } else { ri % 5 };
                    proof {
                        assert(step == (r as int) % 5) by {
                            let q = ri / 5;
                            let rem = ri % 5;
                            vstd::arithmetic::div_mod::lemma_fundamental_div_mod(r as int, 5);
                            vstd::arithmetic::div_mod::lemma_mod_pos_bound(0, 5);
                            if rem < 0 {
                                vstd::arithmetic::div_mod::lemma_fundamental_div_mod_converse(r as int, 5, (q - 1) as int, (rem + 5) as int);
                            } else {
                                vstd::arithmetic::div_mod::lemma_fundamental_div_mod_converse(r as int, 5, q as int, rem as int);
                            }
                        }
                    }
                    let to = (from + step as usize) % 5;
                    self.selected_element = to;
                    WizardAction::RedrawTwo(from, to)
                },
                WizardMode::Edit => {
                    match element_type(self.selected_element) {
                        MenuElementType::Channel => {
                            self.selected_channel = match self.selected_channel {
                                PwmNumber::Pwm0 => PwmNumber::Pwm1,
                                _ => PwmNumber::Pwm0,
                            };
                            WizardAction::LoadChannel(self.selected_channel)
                        },
                        MenuElementType::Voltage => {
                            let d: i32 = if r < -128 { -128 } else if r > 127 { 127 } else { r as i32 };
                            let v0: i32 = self.voltage as i32 + d;
                            let v1: i32 = if v0 < 0 { 0 } else if v0 > 255 { 255 } else { v0 };
                            let v2: i32 = if v1 < 8 { 8 } else if v1 > 48 { 48 } else { v1 };
                            self.voltage = v2 as u8;
                            WizardAction::RedrawVoltage
                        },
                        MenuElementType::Min => {
                            let m0: i32 = self.channel_state.min as i32 + r as i32;
                            let m1: i32 = if m0 < 0 { 0 } else if m0 > 65535 { 65535 } else { m0 };
                            let m: u16 = if m1 < self.channel_state.max as i32 { m1 as u16 } else { self.channel_state.max };
                            self.channel_state.min = m;
                            WizardAction::SetMinDuty(self.selected_channel, m)
                        },
                        MenuElementType::Max => {
                            let m0: i32 = self.channel_state.max as i32 + r as i32;
                            let m1: i32 = if m0 < 0 { 0 } else if m0 > 65535 { 65535 } else { m0 };
                            let m2: i32 = if m1 > self.channel_state.min as i32 { m1 } else { self.channel_state.min as i32 };
                            let m: u16 = if m2 < max_duty as i32 { m2 as u16 } else { max_duty };
                            self.channel_state.max = m;
                            WizardAction::SetMaxDuty(self.selected_channel, m)
                        },
                        MenuElementType::Solenoid => WizardAction::Nothing,
                    }
                },
            },
        }
    }
}

/// The voltage never leaves 4 V to 24 V, however far the encoder turns.
pub proof fn lemma_voltage_in_range(v: u8, r: i16)
    ensures
        MIN_VOLTAGE <= spec_turn_voltage(v, r) <= MAX_VOLTAGE,
{
}

/// Editing the limits keeps the minimum at or below the maximum when the full duty allows it.
pub proof fn lemma_limits_ordered(c: ChannelState, r: i16, max_duty: u16)
    requires
        c.min <= c.max,
        c.min <= max_duty,
    ensures
        spec_turn_min(c, r) <= c.max,
        c.min <= spec_turn_max(c, r, max_duty) <= max_duty,
{
}

/// The label of a channel: its number.
pub fn channel_label(c: PwmNumber) -> (s: &'static str)
    ensures
        s@ == match c {
            PwmNumber::Pwm0 => "0"@,
            PwmNumber::Pwm1 => "1"@,
            PwmNumber::Pwm2 => "2"@,
            PwmNumber::Pwm3 => "3"@,
        },
{
    match c {
        PwmNumber::Pwm0 => "0",
        PwmNumber::Pwm1 => "1",
        PwmNumber::Pwm2 => "2",
        PwmNumber::Pwm3 => "3",
    }
}

/// The label of a voltage in half volts: whole volts, a point, 0 or 5, and "V".
pub open spec fn voltage_text(v: u8) -> Seq<char> {
    ascii_chars(spec_decimal((v / 2) as nat)) + "."@ + ascii_chars(spec_decimal((5 * (v % 2)) as nat)) + "V"@
}

/// The label of a voltage given in half volts.
pub fn voltage_label(v: u8) -> (s: String)
    ensures
        s@ == voltage_text(v),
{
    assert((v & 1) == v % 2) by (bit_vector);
    let a = concat_str(decimal_string((v / 2) as u32).as_str(), ".");
    let b = concat_str(a.as_str(), decimal_string((5 * (v & 1)) as u32).as_str());
    concat_str(b.as_str(), "V")
}

/// A clockwise turn never lowers the voltage or the limits, an anticlockwise one never raises
/// them (for a voltage in range and ordered limits).
pub proof fn lemma_turn_direction(v: u8, c: ChannelState, r: i16, max_duty: u16)
    requires
        MIN_VOLTAGE <= v <= MAX_VOLTAGE,
        c.min <= c.max <= max_duty,
    ensures
        r > 0 ==> spec_turn_voltage(v, r) >= v && spec_turn_min(c, r) >= c.min && spec_turn_max(c, r, max_duty) >= c.max,
        r < 0 ==> spec_turn_voltage(v, r) <= v && spec_turn_min(c, r) <= c.min && spec_turn_max(c, r, max_duty) <= c.max,
{
}

} // verus!
