//! What the components of the menus do when they are clicked or turned: each handler takes the
//! component's state and the menu's own state, changes them, and says what the board must do
//! outside the menu (write a setting, set the LEDs, connect) and what the menu does next.
use vstd::prelude::*;
use crate::rgb::RGB;
use crate::lang::{Lang, lang_of, LanguageString};
use crate::settings::{Theme, PbGlobalSettings};
use crate::led::LedMode;
use crate::pwm::PwmNumber;
use crate::net::{IpAddress, ServerConnection, string_from_ip, ip_text};
use crate::menu::{
    Menu, ComponentMenu, HandlerResult, FocusMode, spec_toggle_focus, toggle_focus, next_option,
    prev_option, ValueSelector, sat_add_u32, sat_sub_u32, ScrollerState, spec_scroll_next,
    spec_scroll_prev, scroller_wf,
};
use crate::text::{ascii_chars, concat_str, parse_u16, spec_parse_u16, spec_decimal, decimal_string};

verus! {

/// A Wi-Fi network as the menus see it: its name and, if it has one, the number of its
/// authentication method.
#[derive(Debug, Clone, PartialEq, Eq)]
pub struct AccessPoint {
    pub ssid: String,
    pub auth_method: Option<u8>,
}

/// The state that a menu of components keeps while it is shown, one kind per menu.
#[derive(Debug, Clone)]
pub enum MenuInternalState {
    ComponentTesting,
    Lang { language: u8 },
    Wifi,
    WifiDetails { ap: AccessPoint, pass: String },
    ServerDetails { ip: IpAddress, port: u16 },
    DisplaySettings { theme_custom_col: RGB },
    Settings,
    RgbMenu { mode: LedMode, primary_col: RGB, secondary_col: RGB },
    DisplaySettingsSettingsMenu { theme_custom_col: RGB },
    WifiSettingsMenu,
    WifiDetailsSettingsMenu { ap: AccessPoint, pass: String },
    ServerDetailsSettingsMenu { ip: IpAddress, port: u16 },
    PwmWizard { selected_channel: PwmNumber, voltage: u8 },
}

/// What a handler asks of the board outside the menu.
#[derive(Debug, Clone)]
pub enum Effect {
    Nothing,
    /// Write the language into the global settings.
    SetLang(Lang),
    /// Write the theme into the global settings.
    SetTheme(Theme),
    /// Put the LED engine into this mode.
    SetLedMode(LedMode),
    /// Set the backlight to this percentage.
    SetBacklightPct(u8),
    /// Set the brightness of the LEDs.
    SetLedBrightness(u8),
    /// Connect to the network with this name and password; the menu then goes on as
    /// [`wifi_connect_outcome`] says.
    ConnectWifi(String, String),
    /// Disconnect from the network.
    DisconnectWifi,
    /// Connect to the configured server; the menu then goes on as [`server_connect_outcome`]
    /// says.
    ConnectServer,
}

/// The outcome of a handler: the effect, whether the component must be redrawn, and the
/// result for the menu (none when the result depends on how the effect went).
#[derive(Debug, Clone)]
pub struct HandlerStep {
    pub effect: Effect,
    pub redraw: bool,
    pub result: Option<HandlerResult>,
}

/// A step with no effect.
pub open spec fn quiet(redraw: bool, r: HandlerResult) -> HandlerStep {
    HandlerStep { effect: Effect::Nothing, redraw, result: Some(r) }
}

// ----------------------------------------------------------------------------------------------
// Generic handlers

/// Handlers that any component (or a menu's buttons) can carry.
#[derive(Debug, Clone)]
pub enum GenericHandler {
    /// Log a message.
    Print(&'static str),
    /// Hand this result to the menu.
    Signal(HandlerResult),
    /// Store the language chosen in the menu, then go to the menu.
    SetLanguageAndTransition(Menu),
    /// Connect to the network of the menu if not connected, else disconnect.
    ConnectDisconnectWifi,
    /// Connect to the configured server.
    ConnectServer,
}

/// The menu states that a generic handler can run in.
pub open spec fn generic_ok(g: GenericHandler, ms: MenuInternalState) -> bool {
    match g {
        GenericHandler::SetLanguageAndTransition(_) => ms is Lang,
        GenericHandler::ConnectDisconnectWifi => ms is WifiDetails,
        _ => true,
    }
}

/// What a generic handler does; `wifi_connected` is whether the board is on a network.
pub open spec fn spec_generic(g: GenericHandler, ms: MenuInternalState, wifi_connected: bool) -> HandlerStep {
    match g {
        GenericHandler::Print(_) => quiet(false, HandlerResult::Idle),
        GenericHandler::Signal(r) => quiet(false, r),
        GenericHandler::SetLanguageAndTransition(m) => match ms {
            MenuInternalState::Lang { language } => HandlerStep {
                effect: Effect::SetLang(lang_of(language)),
                redraw: false,
                result: Some(HandlerResult::Transition(m)),
            },
            _ => quiet(false, HandlerResult::Idle),
        },
        GenericHandler::ConnectDisconnectWifi => match ms {
            MenuInternalState::WifiDetails { ap, pass } => if !wifi_connected {
                HandlerStep { effect: Effect::ConnectWifi(ap.ssid, pass), redraw: false, result: None }
            } else {
                HandlerStep { effect: Effect::DisconnectWifi, redraw: false, result: Some(HandlerResult::Idle) }
            },
            _ => quiet(false, HandlerResult::Idle),
        },
        GenericHandler::ConnectServer => HandlerStep { effect: Effect::ConnectServer, redraw: false, result: None },
    }
}

impl GenericHandler {
    /// Runs the handler in the menu state `ms`.
    pub fn handle(&self, ms: &MenuInternalState, wifi_connected: bool) -> (st: HandlerStep)
        requires
            generic_ok(*self, *ms),
        ensures
            st == spec_generic(*self, *ms, wifi_connected),
    {
        match self {
            GenericHandler::Print(_) => HandlerStep { effect: Effect::Nothing, redraw: false, result: Some(HandlerResult::Idle) },
            GenericHandler::Signal(r) => HandlerStep { effect: Effect::Nothing, redraw: false, result: Some(r.duplicate()) },
            GenericHandler::SetLanguageAndTransition(m) => match ms {
                MenuInternalState::Lang { language } => HandlerStep {
                    effect: Effect::SetLang(Lang::from_code(*language)),
                    redraw: false,
                    result: Some(HandlerResult::Transition(*m)),
                },
                _ => HandlerStep { effect: Effect::Nothing, redraw: false, result: Some(HandlerResult::Idle) },
            },
            GenericHandler::ConnectDisconnectWifi => match ms {
                MenuInternalState::WifiDetails { ap, pass } => if !wifi_connected {
                    HandlerStep { effect: Effect::ConnectWifi(ap.ssid.clone(), pass.clone()), redraw: false, result: None }
                } else {
                    HandlerStep { effect: Effect::DisconnectWifi, redraw: false, result: Some(HandlerResult::Idle) }
                },
                _ => HandlerStep { effect: Effect::Nothing, redraw: false, result: Some(HandlerResult::Idle) },
            },
            GenericHandler::ConnectServer => HandlerStep { effect: Effect::ConnectServer, redraw: false, result: None },
        }
    }
}

/// The message shown when the board could not connect to a network, ahead of the error.
pub open spec fn wifi_failure_prefix() -> Seq<char> {
    "Failed to connect to Wifi!\n\nError:\n"@
}

/// What the menu does once a connection to a network was tried: on success it goes to the
/// server settings, on failure it shows the error.
pub fn wifi_connect_outcome(res: Result<(), String>) -> (r: HandlerResult)
    ensures
        res is Ok ==> r == HandlerResult::Transition(Menu::ComponentMenu(ComponentMenu::ServerDetails)),
        res matches Err(e) ==> (r matches HandlerResult::ShowErrorDialogue(m) && m@ == wifi_failure_prefix() + e@),
{
    match res {
        Ok(()) => HandlerResult::Transition(Menu::ComponentMenu(ComponentMenu::ServerDetails)),
        Err(e) => HandlerResult::ShowErrorDialogue(concat_str("Failed to connect to Wifi!\n\nError:\n", e.as_str())),
    }
}

/// The message shown when the board could not reach the server.
pub open spec fn server_failure_message() -> Seq<char> {
    "Pb failed to connect\nto the server!"@
}

/// What the menu does once a connection to the server was tried: on success it goes to the
/// display settings, on failure it shows a message.
pub fn server_connect_outcome(ok: bool) -> (r: HandlerResult)
    ensures
        ok ==> r == HandlerResult::Transition(Menu::ComponentMenu(ComponentMenu::DisplaySettings)),
        !ok ==> (r matches HandlerResult::ShowErrorDialogue(m) && m@ == server_failure_message()),
{
    if ok {
        HandlerResult::Transition(Menu::ComponentMenu(ComponentMenu::DisplaySettings))
    } else {
        HandlerResult::ShowErrorDialogue("Pb failed to connect\nto the server!".to_owned())
    }
}

// ----------------------------------------------------------------------------------------------
// Option switches

/// A switch between a few options, shown one at a time.
#[derive(Debug, Clone, Copy, PartialEq, Eq, Structural)]
pub struct OptionSwitchState {
    pub mode: FocusMode,
    pub selection: usize,
    pub num_options: usize,
}

/// The selection is one of the options.
pub open spec fn switch_wf(s: OptionSwitchState) -> bool {
    0 < s.num_options <= usize::MAX / 2 && s.selection < s.num_options
}

/// Handlers of an option switch.
#[derive(Debug, Clone)]
pub enum OptionSwitchHandler {
    Generic(GenericHandler),
    NextElement,
    PrevElement,
    /// The next option, which also becomes the language of the language menu.
    NextElementUpdateLang,
    PrevElementUpdateLang,
    ToggleFocus,
    PrintSelection,
    /// Toggle the focus; when let go, set the theme that the option names.
    ToggleFocusAndSetTheme,
    /// Toggle the focus; when let go, set the LED mode that the option names.
    ToggleFocusAndSetRGB,
}

/// The LED mode that the option `selection` of the RGB menu's switch names, with placeholder
/// colours: off, solid, fade, rainbow.
pub open spec fn led_mode_of_option(selection: usize) -> LedMode {
    if selection == 1 {
        LedMode::Solid(RGB { r: 0, g: 0, b: 0 })
    } else if selection == 2 {
        LedMode::Fade(RGB { r: 0, g: 0, b: 0 }, RGB { r: 0, g: 0, b: 0 })
    } else if selection == 3 {
        LedMode::Rainbow
    } else {
        LedMode::Off
    }
}

/// The mode `m` with the menu's colours in place of its placeholders.
pub open spec fn led_mode_with_colors(m: LedMode, primary: RGB, secondary: RGB) -> LedMode {
    match m {
        LedMode::Off => LedMode::Off,
        LedMode::Solid(_) => LedMode::Solid(primary),
        LedMode::Fade(_, _) => LedMode::Fade(primary, secondary),
        LedMode::Rainbow => LedMode::Rainbow,
    }
}

/// The theme that the option `selection` of the theme switch names.
pub open spec fn theme_of_option(selection: usize, custom: RGB) -> Theme {
    if selection == 0 { Theme::Dark } else if selection == 1 { Theme::Light } else { Theme::Custom(custom) }
}

/// The states an option switch handler can run in.
pub open spec fn switch_ok(h: OptionSwitchHandler, s: OptionSwitchState, ms: MenuInternalState) -> bool {
    &&& switch_wf(s)
    &&& match h {
        OptionSwitchHandler::Generic(g) => generic_ok(g, ms),
        OptionSwitchHandler::NextElementUpdateLang => ms is Lang,
        OptionSwitchHandler::PrevElementUpdateLang => ms is Lang,
        OptionSwitchHandler::ToggleFocusAndSetTheme =>
            (ms is DisplaySettings && spec_toggle_focus(s.mode) == FocusMode::Highlighted) ==> s.selection <= 2,
        OptionSwitchHandler::ToggleFocusAndSetRGB => ms is RgbMenu,
        _ => true,
    }
}

/// What an option switch handler does to the switch, to the menu state, and asks of the board.
pub open spec fn spec_switch(h: OptionSwitchHandler, s: OptionSwitchState, ms: MenuInternalState, wifi_connected: bool) -> (OptionSwitchState, MenuInternalState, HandlerStep) {
    let next = OptionSwitchState { selection: ((s.selection + 1) % (s.num_options as int)) as usize, ..s };
    let prev = OptionSwitchState { selection: ((s.selection + s.num_options - 1) % (s.num_options as int)) as usize, ..s };
    let toggled = OptionSwitchState { mode: spec_toggle_focus(s.mode), ..s };
    let released = spec_toggle_focus(s.mode) == FocusMode::Highlighted;
    match h {
        OptionSwitchHandler::Generic(g) => (s, ms, spec_generic(g, ms, wifi_connected)),
        OptionSwitchHandler::NextElement => (next, ms, quiet(true, HandlerResult::Idle)),
        OptionSwitchHandler::PrevElement => (prev, ms, quiet(true, HandlerResult::Idle)),
        OptionSwitchHandler::NextElementUpdateLang =>
            (next, MenuInternalState::Lang { language: next.selection as u8 }, quiet(true, HandlerResult::Idle)),
        OptionSwitchHandler::PrevElementUpdateLang =>
            (prev, MenuInternalState::Lang { language: prev.selection as u8 }, quiet(true, HandlerResult::Idle)),
        OptionSwitchHandler::ToggleFocus =>
            (toggled, ms, quiet(true, if released { HandlerResult::Unfocus } else { HandlerResult::Idle })),
        OptionSwitchHandler::PrintSelection => (s, ms, quiet(false, HandlerResult::Idle)),
        OptionSwitchHandler::ToggleFocusAndSetTheme => if released {
            match ms {
                MenuInternalState::DisplaySettings { theme_custom_col } => (toggled, ms, HandlerStep {
                    effect: Effect::SetTheme(theme_of_option(s.selection, theme_custom_col)),
                    redraw: true,
                    result: Some(HandlerResult::ForceRedrawAndUnfocus),
                }),
                _ => (toggled, ms, quiet(true, HandlerResult::ForceRedrawAndUnfocus)),
            }
        } else {
            (toggled, ms, quiet(true, HandlerResult::Idle))
        },
        OptionSwitchHandler::ToggleFocusAndSetRGB => match ms {
            MenuInternalState::RgbMenu { mode, primary_col, secondary_col } => if released {
                let m = led_mode_of_option(s.selection);
                (toggled, MenuInternalState::RgbMenu { mode: m, primary_col, secondary_col }, HandlerStep {
                    effect: Effect::SetLedMode(led_mode_with_colors(m, primary_col, secondary_col)),
                    redraw: true,
                    result: Some(HandlerResult::Unfocus),
                })
            } else {
                (toggled, ms, quiet(true, HandlerResult::Idle))
            },
            _ => (toggled, ms, quiet(true, HandlerResult::Idle)),
        },
    }
}

/// The LED mode of a switch option, with placeholder colours.
fn led_mode_for_option(selection: usize) -> (m: LedMode)
    ensures
        m == led_mode_of_option(selection),
{
    if selection == 1 {
        LedMode::Solid(RGB { r: 0, g: 0, b: 0 })
    } else if selection == 2 {
        LedMode::Fade(RGB { r: 0, g: 0, b: 0 }, RGB { r: 0, g: 0, b: 0 })
    } else if selection == 3 {
        LedMode::Rainbow
    } else {
        LedMode::Off
    }
}

/// The mode with the menu's colours in place of the placeholders.
pub fn with_colors(m: LedMode, primary: RGB, secondary: RGB) -> (r: LedMode)
    ensures
        r == led_mode_with_colors(m, primary, secondary),
{
    match m {
        LedMode::Off => LedMode::Off,
        LedMode::Solid(_) => LedMode::Solid(primary),
        LedMode::Fade(_, _) => LedMode::Fade(primary, secondary),
        LedMode::Rainbow => LedMode::Rainbow,
    }
}

/// The theme that a theme switch option names.
fn theme_for_option(selection: usize, custom: RGB) -> (t: Theme)
    ensures
        t == theme_of_option(selection, custom),
{
    if selection == 0 { Theme::Dark } else if selection == 1 { Theme::Light } else { Theme::Custom(custom) }
}

impl OptionSwitchHandler {
    /// Runs the handler on the switch `s` in the menu state `ms`.
    pub fn handle(&self, s: &mut OptionSwitchState, ms: &mut MenuInternalState, wifi_connected: bool) -> (st: HandlerStep)
        requires
            switch_ok(*self, *old(s), *old(ms)),
        ensures
            (*final(s), *final(ms), st) == spec_switch(*self, *old(s), *old(ms), wifi_connected),
            switch_wf(*final(s)),
    {
        match self {
            OptionSwitchHandler::Generic(g) => g.handle(ms, wifi_connected),
            OptionSwitchHandler::NextElement => {
                s.selection = next_option(s.selection, s.num_options);
                HandlerStep { effect: Effect::Nothing, redraw: true, result: Some(HandlerResult::Idle) }
            },
            OptionSwitchHandler::PrevElement => {
                s.selection = prev_option(s.selection, s.num_options);
                HandlerStep { effect: Effect::Nothing, redraw: true, result: Some(HandlerResult::Idle) }
            },
            OptionSwitchHandler::NextElementUpdateLang => {
                s.selection = next_option(s.selection, s.num_options);
                *ms = MenuInternalState::Lang { language: s.selection as u8 };
                HandlerStep { effect: Effect::Nothing, redraw: true, result: Some(HandlerResult::Idle) }
            },
            OptionSwitchHandler::PrevElementUpdateLang => {
                s.selection = prev_option(s.selection, s.num_options);
                *ms = MenuInternalState::Lang { language: s.selection as u8 };
                HandlerStep { effect: Effect::Nothing, redraw: true, result: Some(HandlerResult::Idle) }
            },
            OptionSwitchHandler::ToggleFocus => {
                let (m, r) = toggle_focus(s.mode);
                s.mode = m;
                HandlerStep { effect: Effect::Nothing, redraw: true, result: Some(r) }
            },
            OptionSwitchHandler::PrintSelection => {
                HandlerStep { effect: Effect::Nothing, redraw: false, result: Some(HandlerResult::Idle) }
            },
            OptionSwitchHandler::ToggleFocusAndSetTheme => {
                let (m, _) = toggle_focus(s.mode);
                s.mode = m;
                if m == FocusMode::Highlighted {
                    match ms {
                        MenuInternalState::DisplaySettings { theme_custom_col } => HandlerStep {
                            effect: Effect::SetTheme(theme_for_option(s.selection, *theme_custom_col)),
                            redraw: true,
                            result: Some(HandlerResult::ForceRedrawAndUnfocus),
                        },
                        _ => HandlerStep { effect: Effect::Nothing, redraw: true, result: Some(HandlerResult::ForceRedrawAndUnfocus) },
                    }
                } else {
                    HandlerStep { effect: Effect::Nothing, redraw: true, result: Some(HandlerResult::Idle) }
                }
            },
            OptionSwitchHandler::ToggleFocusAndSetRGB => {
                let (m, _) = toggle_focus(s.mode);
                s.mode = m;
                if m == FocusMode::Highlighted {
                    let lm = led_mode_for_option(s.selection);
                    let (p, q) = match ms {
                        MenuInternalState::RgbMenu { primary_col, secondary_col, .. } => (*primary_col, *secondary_col),
                        _ => (RGB { r: 0, g: 0, b: 0 }, RGB { r: 0, g: 0, b: 0 }),
                    };
                    *ms = MenuInternalState::RgbMenu { mode: lm, primary_col: p, secondary_col: q };
                    HandlerStep { effect: Effect::SetLedMode(with_colors(lm, p, q)), redraw: true, result: Some(HandlerResult::Unfocus) }
                } else {
                    HandlerStep { effect: Effect::Nothing, redraw: true, result: Some(HandlerResult::Idle) }
                }
            },
        }
    }
}

// ----------------------------------------------------------------------------------------------
// Value selectors

/// A number chosen between two limits, with its focus state.
#[derive(Debug, Clone, Copy, PartialEq, Eq, Structural)]
pub struct ValueSelectorState {
    pub value: ValueSelector,
    pub mode: FocusMode,
}

/// Handlers of a value selector.
#[derive(Debug, Clone)]
pub enum ValueSelectorHandler {
    Generic(GenericHandler),
    ToggleFocus,
    Increment(u32),
    Decrement(u32),
    /// Raise by one and set the backlight to the value's low byte.
    IncrementBrightness,
    DecrementBrightness,
    /// Raise by one and set the LED brightness to the value's low byte.
    IncrementLedBrightness,
    DecrementLedBrightness,
}

/// The selector with its value replaced.
pub open spec fn with_value(s: ValueSelectorState, v: u32) -> ValueSelectorState {
    ValueSelectorState { value: ValueSelector { selection: v, ..s.value }, ..s }
}

/// What a value selector handler does.
pub open spec fn spec_value_handler(h: ValueSelectorHandler, s: ValueSelectorState, ms: MenuInternalState, wifi_connected: bool) -> (ValueSelectorState, HandlerStep) {
    let up = s.value.selection < s.value.high_limit;
    let down = s.value.selection > s.value.low_limit;
    match h {
        ValueSelectorHandler::Generic(g) => (s, spec_generic(g, ms, wifi_connected)),
        ValueSelectorHandler::ToggleFocus => {
            let m = spec_toggle_focus(s.mode);
            (ValueSelectorState { mode: m, ..s }, quiet(true, if m == FocusMode::Highlighted { HandlerResult::Unfocus } else { HandlerResult::Idle }))
        },
        ValueSelectorHandler::Increment(u) => if up {
            (with_value(s, sat_add_u32(s.value.selection, u)), quiet(true, HandlerResult::Idle))
        } else {
            (s, quiet(false, HandlerResult::Idle))
        },
        ValueSelectorHandler::Decrement(u) => if down {
            (with_value(s, sat_sub_u32(s.value.selection, u)), quiet(true, HandlerResult::Idle))
        } else {
            (s, quiet(false, HandlerResult::Idle))
        },
        ValueSelectorHandler::IncrementBrightness => if up {
            let v = sat_add_u32(s.value.selection, 1);
            (with_value(s, v), HandlerStep { effect: Effect::SetBacklightPct((v % 256) as u8), redraw: true, result: Some(HandlerResult::Idle) })
        } else {
            (s, quiet(false, HandlerResult::Idle))
        },
        ValueSelectorHandler::DecrementBrightness => if down {
            let v = sat_sub_u32(s.value.selection, 1);
            (with_value(s, v), HandlerStep { effect: Effect::SetBacklightPct((v % 256) as u8), redraw: true, result: Some(HandlerResult::Idle) })
        } else {
            (s, quiet(false, HandlerResult::Idle))
        },
        ValueSelectorHandler::IncrementLedBrightness => if up {
            let v = sat_add_u32(s.value.selection, 1);
            (with_value(s, v), HandlerStep { effect: Effect::SetLedBrightness((v % 256) as u8), redraw: true, result: Some(HandlerResult::Idle) })
        } else {
            (s, quiet(false, HandlerResult::Idle))
        },
        ValueSelectorHandler::DecrementLedBrightness => if down {
            let v = sat_sub_u32(s.value.selection, 1);
            (with_value(s, v), HandlerStep { effect: Effect::SetLedBrightness((v % 256) as u8), redraw: true, result: Some(HandlerResult::Idle) })
        } else {
            (s, quiet(false, HandlerResult::Idle))
        },
    }
}

/// The states a value selector handler can run in.
pub open spec fn value_handler_ok(h: ValueSelectorHandler, ms: MenuInternalState) -> bool {
    match h {
        ValueSelectorHandler::Generic(g) => generic_ok(g, ms),
        _ => true,
    }
}

impl ValueSelectorHandler {
    /// Runs the handler on the selector `s` in the menu state `ms`.
    pub fn handle(&self, s: &mut ValueSelectorState, ms: &MenuInternalState, wifi_connected: bool) -> (st: HandlerStep)
        requires
            value_handler_ok(*self, *ms),
        ensures
            (*final(s), st) == spec_value_handler(*self, *old(s), *ms, wifi_connected),
    {
        match self {
            ValueSelectorHandler::Generic(g) => g.handle(ms, wifi_connected),
            ValueSelectorHandler::ToggleFocus => {
                let (m, r) = toggle_focus(s.mode);
                s.mode = m;
                HandlerStep { effect: Effect::Nothing, redraw: true, result: Some(r) }
            },
            ValueSelectorHandler::Increment(u) => {
                let changed = s.value.increment(*u);
                HandlerStep { effect: Effect::Nothing, redraw: changed, result: Some(HandlerResult::Idle) }
            },
            ValueSelectorHandler::Decrement(u) => {
                let changed = s.value.decrement(*u);
                HandlerStep { effect: Effect::Nothing, redraw: changed, result: Some(HandlerResult::Idle) }
            },
            ValueSelectorHandler::IncrementBrightness => {
                if s.value.increment(1) {
                    let b = (s.value.selection % 256) as u8;
                    HandlerStep { effect: Effect::SetBacklightPct(b), redraw: true, result: Some(HandlerResult::Idle) }
                } else {
                    HandlerStep { effect: Effect::Nothing, redraw: false, result: Some(HandlerResult::Idle) }
                }
            },
            ValueSelectorHandler::DecrementBrightness => {
                if s.value.decrement(1) {
                    let b = (s.value.selection % 256) as u8;
                    HandlerStep { effect: Effect::SetBacklightPct(b), redraw: true, result: Some(HandlerResult::Idle) }
                } else {
                    HandlerStep { effect: Effect::Nothing, redraw: false, result: Some(HandlerResult::Idle) }
                }
            },
            ValueSelectorHandler::IncrementLedBrightness => {
                if s.value.increment(1) {
                    let b = (s.value.selection % 256) as u8;
                    HandlerStep { effect: Effect::SetLedBrightness(b), redraw: true, result: Some(HandlerResult::Idle) }
                } else {
                    HandlerStep { effect: Effect::Nothing, redraw: false, result: Some(HandlerResult::Idle) }
                }
            },
            ValueSelectorHandler::DecrementLedBrightness => {
                if s.value.decrement(1) {
                    let b = (s.value.selection % 256) as u8;
                    HandlerStep { effect: Effect::SetLedBrightness(b), redraw: true, result: Some(HandlerResult::Idle) }
                } else {
                    HandlerStep { effect: Effect::Nothing, redraw: false, result: Some(HandlerResult::Idle) }
                }
            },
        }
    }
}

// ----------------------------------------------------------------------------------------------
// Option scrollers

/// What a choice in a scroller sets in the menu state.
#[derive(Debug, Clone, Copy, PartialEq, Eq, Structural)]
pub enum MenuInternalStateAction {
    SetLang,
    SetWifi,
}

/// Handlers of a scrolling list of options.
#[derive(Debug, Clone)]
pub enum OptionScrollerHandler {
    Generic(GenericHandler),
    NextOption,
    PrevOption,
    PrintSelection,
    SetMenuState(MenuInternalStateAction),
    /// Go to the menu that the selected option names.
    TransitionToMenu,
}

/// The states an option scroller handler can run in: `n` options are listed and, for a
/// transition, `targets` are the menus that they name.
pub open spec fn scroller_handler_ok(h: OptionScrollerHandler, s: ScrollerState, ms: MenuInternalState, n: usize, targets: Option<Seq<Menu>>) -> bool {
    &&& scroller_wf(s)
    &&& s.page_start + s.num_visible <= usize::MAX
    &&& match h {
        OptionScrollerHandler::Generic(g) => generic_ok(g, ms),
        OptionScrollerHandler::TransitionToMenu => targets matches Some(t) && s.selection < t.len(),
        _ => true,
    }
}

/// What a scroller handler does to the scroller and to the menu state.
pub open spec fn spec_scroller_handler(h: OptionScrollerHandler, s: ScrollerState, ms: MenuInternalState, n: usize, targets: Option<Seq<Menu>>, wifi_connected: bool) -> (ScrollerState, MenuInternalState, HandlerStep) {
    match h {
        OptionScrollerHandler::Generic(g) => (s, ms, spec_generic(g, ms, wifi_connected)),
        OptionScrollerHandler::NextOption => {
            let t = spec_scroll_next(s, n);
            (t, ms, quiet(n > 0 && s.selection < n - 1, HandlerResult::Idle))
        },
        OptionScrollerHandler::PrevOption => (spec_scroll_prev(s), ms, quiet(s.selection > 0, HandlerResult::Idle)),
        OptionScrollerHandler::PrintSelection => (s, ms, quiet(false, HandlerResult::Idle)),
        OptionScrollerHandler::SetMenuState(a) => match (a, ms) {
            (MenuInternalStateAction::SetLang, MenuInternalState::Lang { .. }) =>
                (s, MenuInternalState::Lang { language: (s.selection % 256) as u8 }, quiet(false, HandlerResult::Idle)),
            (MenuInternalStateAction::SetWifi, MenuInternalState::Wifi) =>
                (s, ms, quiet(false, HandlerResult::Transition(Menu::ComponentMenu(ComponentMenu::WifiDetails(s.selection))))),
            _ => (s, ms, quiet(false, HandlerResult::Idle)),
        },
        OptionScrollerHandler::TransitionToMenu =>
            (s, ms, quiet(false, HandlerResult::Transition(targets->0[s.selection as int]))),
    }
}

impl OptionScrollerHandler {
    /// Runs the handler on the scroller `s` of `n` options in the menu state `ms`; `targets`
    /// are the menus that the options name, when they name menus.
    pub fn handle(&self, s: &mut ScrollerState, ms: &mut MenuInternalState, n: usize, targets: Option<&Vec<Menu>>, wifi_connected: bool) -> (st: HandlerStep)
        requires
            scroller_handler_ok(*self, *old(s), *old(ms), n, match targets { Some(t) => Some(t@), None => None }),
        ensures
            (*final(s), *final(ms), st) == spec_scroller_handler(*self, *old(s), *old(ms), n,
                match targets { Some(t) => Some(t@), None => None }, wifi_connected),
            scroller_wf(*final(s)),
    {
        match self {
            OptionScrollerHandler::Generic(g) => g.handle(ms, wifi_connected),
            OptionScrollerHandler::NextOption => {
                let moved = s.next_option(n);
                HandlerStep { effect: Effect::Nothing, redraw: moved, result: Some(HandlerResult::Idle) }
            },
            OptionScrollerHandler::PrevOption => {
                let moved = s.prev_option();
                HandlerStep { effect: Effect::Nothing, redraw: moved, result: Some(HandlerResult::Idle) }
            },
            OptionScrollerHandler::PrintSelection => {
                HandlerStep { effect: Effect::Nothing, redraw: false, result: Some(HandlerResult::Idle) }
            },
            OptionScrollerHandler::SetMenuState(a) => {
                let is_lang = match ms { MenuInternalState::Lang { .. } => true, _ => false };
                let is_wifi = match ms { MenuInternalState::Wifi => true, _ => false };
                match a {
                    MenuInternalStateAction::SetLang => {
                        if is_lang {
                            *ms = MenuInternalState::Lang { language: (s.selection % 256) as u8 };
                        }
                        HandlerStep { effect: Effect::Nothing, redraw: false, result: Some(HandlerResult::Idle) }
                    },
                    MenuInternalStateAction::SetWifi => {
                        if is_wifi {
                            HandlerStep { effect: Effect::Nothing, redraw: false,
                                result: Some(HandlerResult::Transition(Menu::ComponentMenu(ComponentMenu::WifiDetails(s.selection)))) }
                        } else {
                            HandlerStep { effect: Effect::Nothing, redraw: false, result: Some(HandlerResult::Idle) }
                        }
                    },
                }
            },
            OptionScrollerHandler::TransitionToMenu => {
                match targets {
                    Some(t) => HandlerStep { effect: Effect::Nothing, redraw: false, result: Some(HandlerResult::Transition(t[s.selection])) },
                    None => HandlerStep { effect: Effect::Nothing, redraw: false, result: Some(HandlerResult::Idle) },
                }
            },
        }
    }
}

// ----------------------------------------------------------------------------------------------
// Colours

/// Where a colour selector takes its first colour from.
#[derive(Debug, Clone, Copy, PartialEq, Eq, Structural)]
pub enum ColorGetter {
    Const(RGB),
    /// The custom colour of the display settings menu.
    ThemeMenuCustomColor,
    /// The first colour of the LED mode.
    LedPrimaryColor,
    /// The second colour of the LED mode.
    LedSecondaryColor,
}

/// The grey that stands in for a colour that the LED mode does not have.
pub open spec fn mid_grey() -> RGB {
    RGB { r: 128, g: 128, b: 128 }
}

/// The colour a getter gives in the menu state `ms` while the LEDs are in `led_mode`.
pub open spec fn spec_color_get(g: ColorGetter, ms: MenuInternalState, led_mode: LedMode) -> RGB {
    match g {
        ColorGetter::Const(c) => c,
        ColorGetter::ThemeMenuCustomColor => match ms {
            MenuInternalState::DisplaySettings { theme_custom_col } => theme_custom_col,
            _ => mid_grey(),
        },
        ColorGetter::LedPrimaryColor => match led_mode {
            LedMode::Solid(a) => a,
            LedMode::Fade(a, _) => a,
            _ => mid_grey(),
        },
        ColorGetter::LedSecondaryColor => match led_mode {
            LedMode::Fade(_, b) => b,
            _ => mid_grey(),
        },
    }
}

impl ColorGetter {
    /// The colour that the getter gives. The theme's custom colour is only found in the
    /// display settings menu.
    pub fn get(&self, ms: &MenuInternalState, led_mode: LedMode) -> (c: RGB)
        requires
            *self == ColorGetter::ThemeMenuCustomColor ==> ms is DisplaySettings,
        ensures
            c == spec_color_get(*self, *ms, led_mode),
    {
        match self {
            ColorGetter::Const(c) => *c,
            ColorGetter::ThemeMenuCustomColor => match ms {
                MenuInternalState::DisplaySettings { theme_custom_col } => *theme_custom_col,
                _ => RGB { r: 128, g: 128, b: 128 },
            },
            ColorGetter::LedPrimaryColor => match led_mode {
                LedMode::Solid(a) => a,
                LedMode::Fade(a, _) => a,
                _ => RGB { r: 128, g: 128, b: 128 },
            },
            ColorGetter::LedSecondaryColor => match led_mode {
                LedMode::Fade(_, b) => b,
                _ => RGB { r: 128, g: 128, b: 128 },
            },
        }
    }
}

/// Handlers that take the colour a selector was set to.
#[derive(Debug, Clone)]
pub enum ColorSubmitHandler {
    Generic(GenericHandler),
    /// The colour becomes the custom theme colour (and the theme, if the theme is custom).
    SetThemeMenuColor,
    /// The colour becomes the first LED colour.
    SetLedPrimaryColor,
    /// The colour becomes the second LED colour.
    SetLedSecondaryColor,
}

/// The states a colour handler can run in.
pub open spec fn color_submit_ok(h: ColorSubmitHandler, ms: MenuInternalState) -> bool {
    match h {
        ColorSubmitHandler::Generic(g) => generic_ok(g, ms),
        ColorSubmitHandler::SetThemeMenuColor => ms is DisplaySettings,
        ColorSubmitHandler::SetLedPrimaryColor => ms is RgbMenu,
        ColorSubmitHandler::SetLedSecondaryColor => ms is RgbMenu,
    }
}

/// What a colour handler does with the colour `c`, while the theme is `theme`.
pub open spec fn spec_color_submit(h: ColorSubmitHandler, c: RGB, ms: MenuInternalState, theme: Theme, wifi_connected: bool) -> (MenuInternalState, HandlerStep) {
    match h {
        ColorSubmitHandler::Generic(g) => (ms, spec_generic(g, ms, wifi_connected)),
        ColorSubmitHandler::SetThemeMenuColor => (
            MenuInternalState::DisplaySettings { theme_custom_col: c },
            HandlerStep {
                effect: if theme is Custom { Effect::SetTheme(Theme::Custom(c)) } else { Effect::Nothing },
                redraw: false,
                result: Some(HandlerResult::Idle),
            },
        ),
        ColorSubmitHandler::SetLedPrimaryColor => match ms {
            MenuInternalState::RgbMenu { mode, primary_col, secondary_col } => (
                MenuInternalState::RgbMenu { mode, primary_col: c, secondary_col },
                HandlerStep {
                    effect: match mode {
                        LedMode::Solid(_) => Effect::SetLedMode(LedMode::Solid(c)),
                        LedMode::Fade(_, _) => Effect::SetLedMode(LedMode::Fade(c, secondary_col)),
                        _ => Effect::Nothing,
                    },
                    redraw: false,
                    result: Some(HandlerResult::Idle),
                },
            ),
            _ => (ms, quiet(false, HandlerResult::Idle)),
        },
        ColorSubmitHandler::SetLedSecondaryColor => match ms {
            MenuInternalState::RgbMenu { mode, primary_col, secondary_col } => (
                MenuInternalState::RgbMenu { mode, primary_col, secondary_col: c },
                HandlerStep {
                    effect: match mode {
                        LedMode::Fade(_, _) => Effect::SetLedMode(LedMode::Fade(primary_col, c)),
                        _ => Effect::Nothing,
                    },
                    redraw: false,
                    result: Some(HandlerResult::Idle),
                },
            ),
            _ => (ms, quiet(false, HandlerResult::Idle)),
        },
    }
}

impl ColorSubmitHandler {
    /// Runs the handler with the chosen colour `c` in the menu state `ms`; `theme` is the
    /// theme in the global settings.
    pub fn handle(&self, c: RGB, ms: &mut MenuInternalState, theme: Theme, wifi_connected: bool) -> (st: HandlerStep)
        requires
            color_submit_ok(*self, *old(ms)),
        ensures
            (*final(ms), st) == spec_color_submit(*self, c, *old(ms), theme, wifi_connected),
    {
        match self {
            ColorSubmitHandler::Generic(g) => g.handle(ms, wifi_connected),
            ColorSubmitHandler::SetThemeMenuColor => {
                *ms = MenuInternalState::DisplaySettings { theme_custom_col: c };
                let effect = match theme {
                    Theme::Custom(_) => Effect::SetTheme(Theme::Custom(c)),
                    _ => Effect::Nothing,
                };
                HandlerStep { effect, redraw: false, result: Some(HandlerResult::Idle) }
            },
            ColorSubmitHandler::SetLedPrimaryColor => {
                match ms {
                    MenuInternalState::RgbMenu { mode, primary_col, secondary_col } => {
                        let m = *mode;
                        let q = *secondary_col;
                        *primary_col = c;
                        let effect = match m {
                            LedMode::Solid(_) => Effect::SetLedMode(LedMode::Solid(c)),
                            LedMode::Fade(_, _) => Effect::SetLedMode(LedMode::Fade(c, q)),
                            _ => Effect::Nothing,
                        };
                        HandlerStep { effect, redraw: false, result: Some(HandlerResult::Idle) }
                    },
                    _ => HandlerStep { effect: Effect::Nothing, redraw: false, result: Some(HandlerResult::Idle) },
                }
            },
            ColorSubmitHandler::SetLedSecondaryColor => {
                match ms {
                    MenuInternalState::RgbMenu { mode, primary_col, secondary_col } => {
                        let m = *mode;
                        let p = *primary_col;
                        *secondary_col = c;
                        let effect = match m {
                            LedMode::Fade(_, _) => Effect::SetLedMode(LedMode::Fade(p, c)),
                            _ => Effect::Nothing,
                        };
                        HandlerStep { effect, redraw: false, result: Some(HandlerResult::Idle) }
                    },
                    _ => HandlerStep { effect: Effect::Nothing, redraw: false, result: Some(HandlerResult::Idle) },
                }
            },
        }
    }
}

/// The channel that a colour selector's sliders are on.
#[derive(Debug, Clone, Copy, PartialEq, Eq, Structural)]
pub enum ColorChannel {
    Red,
    Green,
    Blue,
    /// The "OK" button after the three sliders.
    Done,
}

/// Whether the encoder moves between the sliders or moves the current slider.
#[derive(Debug, Clone, Copy, PartialEq, Eq, Structural)]
pub enum SliderSetMode {
    ChangeChannel,
    ModifyChannel,
}

/// A colour selector: the colour, its focus, and the slider editor's state.
#[derive(Debug, Clone, Copy, PartialEq, Eq, Structural)]
pub struct ColorSelector {
    pub current_color: RGB,
    pub mode: FocusMode,
    pub channel: ColorChannel,
    pub slider_mode: SliderSetMode,
}

/// Only a colour channel, never the "OK" button, is moved.
pub open spec fn color_selector_wf(s: ColorSelector) -> bool {
    s.slider_mode == SliderSetMode::ModifyChannel ==> s.channel != ColorChannel::Done
}

/// The next channel to the right, wrapping from "OK" to red.
pub open spec fn channel_right(c: ColorChannel) -> ColorChannel {
    match c {
        ColorChannel::Red => ColorChannel::Green,
        ColorChannel::Green => ColorChannel::Blue,
        ColorChannel::Blue => ColorChannel::Done,
        ColorChannel::Done => ColorChannel::Red,
    }
}

/// The next channel to the left.
pub open spec fn channel_left(c: ColorChannel) -> ColorChannel {
    match c {
        ColorChannel::Red => ColorChannel::Done,
        ColorChannel::Green => ColorChannel::Red,
        ColorChannel::Blue => ColorChannel::Green,
        ColorChannel::Done => ColorChannel::Blue,
    }
}

/// The colour with channel `ch` moved by `delta` (+1 or -1), saturating.
pub open spec fn nudge(c: RGB, ch: ColorChannel, up: bool) -> RGB {
    let f = |v: u8| -> u8 { if up { if v == 255 { 255u8 } else { (v + 1) as u8 } } else { if v == 0 { 0u8 } else { (v - 1) as u8 } } };
    match ch {
        ColorChannel::Red => RGB { r: f(c.r), ..c },
        ColorChannel::Green => RGB { g: f(c.g), ..c },
        ColorChannel::Blue => RGB { b: f(c.b), ..c },
        ColorChannel::Done => c,
    }
}

/// The selector after a turn of the encoder to the right (`up`) or the left.
pub open spec fn spec_color_turn(s: ColorSelector, up: bool) -> ColorSelector {
    match s.slider_mode {
        SliderSetMode::ChangeChannel =>
            ColorSelector { channel: if up { channel_right(s.channel) } else { channel_left(s.channel) }, ..s },
        SliderSetMode::ModifyChannel => ColorSelector { current_color: nudge(s.current_color, s.channel, up), ..s },
    }
}

/// The selector after a click, and the result for the menu.
pub open spec fn spec_color_click(s: ColorSelector) -> (ColorSelector, HandlerResult) {
    match s.mode {
        FocusMode::Highlighted => (ColorSelector { mode: FocusMode::Selected, ..s }, HandlerResult::Idle),
        _ => match s.slider_mode {
            SliderSetMode::ChangeChannel => if s.channel == ColorChannel::Done {
                (ColorSelector { mode: FocusMode::Highlighted, ..s }, HandlerResult::ForceRedrawAndUnfocus)
            } else {
                (ColorSelector { slider_mode: SliderSetMode::ModifyChannel, ..s }, HandlerResult::Idle)
            },
            SliderSetMode::ModifyChannel => (ColorSelector { slider_mode: SliderSetMode::ChangeChannel, ..s }, HandlerResult::Idle),
        },
    }
}

impl ColorChannel {
    /// Where the slider of a colour channel stands, across the selector; the "OK" button has no
    /// slider.
    pub fn slider_x_pos(&self) -> (x: i32)
        requires
            *self != ColorChannel::Done,
        ensures
            x == match *self {
                ColorChannel::Red => 19i32,
                ColorChannel::Green => 49i32,
                _ => 79i32,
            },
    {
        match self {
            ColorChannel::Red => 19,
            ColorChannel::Green => 49,
            _ => 79,
        }
    }
}

impl ColorSelector {
    /// A selector showing `c`, not highlighted, on the red slider.
    pub fn new(c: RGB) -> (s: ColorSelector)
        ensures
            s.current_color == c,
            s.mode == FocusMode::Unhighlighted,
            s.channel == ColorChannel::Red,
            s.slider_mode == SliderSetMode::ChangeChannel,
            color_selector_wf(s),
    {
        ColorSelector { current_color: c, mode: FocusMode::Unhighlighted, channel: ColorChannel::Red, slider_mode: SliderSetMode::ChangeChannel }
    }

    /// A turn of the encoder: moves to the next slider, or moves the current slider by one.
    pub fn turn(&mut self, up: bool)
        requires
            color_selector_wf(*old(self)),
        ensures
            *final(self) == spec_color_turn(*old(self), up),
            color_selector_wf(*final(self)),
    {
        match self.slider_mode {
            SliderSetMode::ChangeChannel => {
                self.channel = if up {
                    match self.channel {
                        ColorChannel::Red => ColorChannel::Green,
                        ColorChannel::Green => ColorChannel::Blue,
                        ColorChannel::Blue => ColorChannel::Done,
                        ColorChannel::Done => ColorChannel::Red,
                    }
                } else {
                    match self.channel {
                        ColorChannel::Red => ColorChannel::Done,
                        ColorChannel::Green => ColorChannel::Red,
                        ColorChannel::Blue => ColorChannel::Green,
                        ColorChannel::Done => ColorChannel::Blue,
                    }
                };
            },
            SliderSetMode::ModifyChannel => {
                match self.channel {
                    ColorChannel::Red => {
                        self.current_color.r = if up { self.current_color.r.saturating_add(1) } else { self.current_color.r.saturating_sub(1) };
                    },
                    ColorChannel::Green => {
                        self.current_color.g = if up { self.current_color.g.saturating_add(1) } else { self.current_color.g.saturating_sub(1) };
                    },
                    ColorChannel::Blue => {
                        self.current_color.b = if up { self.current_color.b.saturating_add(1) } else { self.current_color.b.saturating_sub(1) };
                    },
                    ColorChannel::Done => {},
                }
            },
        }
    }

    /// A click: opens the editor, moves between choosing a slider and moving it, and closes
    /// the editor on "OK". A selector that is not highlighted takes no click.
    pub fn click(&mut self) -> (r: HandlerResult)
        requires
            color_selector_wf(*old(self)),
            old(self).mode != FocusMode::Unhighlighted,
        ensures
            (*final(self), r) == spec_color_click(*old(self)),
            color_selector_wf(*final(self)),
    {
        match self.mode {
            FocusMode::Highlighted => {
                self.mode = FocusMode::Selected;
                HandlerResult::Idle
            },
            _ => match self.slider_mode {
                SliderSetMode::ChangeChannel => {
                    if self.channel == ColorChannel::Done {
                        self.mode = FocusMode::Highlighted;
                        HandlerResult::ForceRedrawAndUnfocus
                    } else {
                        self.slider_mode = SliderSetMode::ModifyChannel;
                        HandlerResult::Idle
                    }
                },
                SliderSetMode::ModifyChannel => {
                    self.slider_mode = SliderSetMode::ChangeChannel;
                    HandlerResult::Idle
                },
            },
        }
    }
}

/// Choosing the next slider and then the previous one comes back to the first.
pub proof fn lemma_channel_right_left(c: ColorChannel)
    ensures
        channel_left(channel_right(c)) == c,
        channel_right(channel_left(c)) == c,
{
}

/// Moving a slider up and then down gives back the colour, unless it was at the top.
pub proof fn lemma_nudge_up_down(c: RGB, ch: ColorChannel)
    requires
        ch == ColorChannel::Red ==> c.r < 255,
        ch == ColorChannel::Green ==> c.g < 255,
        ch == ColorChannel::Blue ==> c.b < 255,
    ensures
        nudge(nudge(c, ch, true), ch, false) == c,
{
}

// ----------------------------------------------------------------------------------------------
// Text boxes, generators and the state a menu starts with

impl AccessPoint {
    /// A network with no name and no authentication.
    pub fn blank() -> (a: AccessPoint)
        ensures
            a.ssid@ == Seq::<char>::empty(),
            a.auth_method is None,
    {
        AccessPoint { ssid: String::new(), auth_method: None }
    }

    /// A copy of the network.
    pub fn duplicate(&self) -> (a: AccessPoint)
        ensures
            a == *self,
    {
        AccessPoint { ssid: self.ssid.clone(), auth_method: self.auth_method }
    }

    /// The station settings that join this network with password `pass`: the network's name,
    /// its authentication method (none where it names none), and the password, which is left
    /// out where the network asks for none.
    pub fn station_config(&self, pass: &str) -> (c: StationConfig)
        ensures
            c.ssid@ == self.ssid@,
            c.auth_method == match self.auth_method {
                Some(m) => m,
                None => AUTH_NONE,
            },
            c.auth_method == AUTH_NONE ==> c.password is None,
            c.auth_method != AUTH_NONE ==> (c.password matches Some(p) && p@ == pass@),
    {
        let method = match self.auth_method {
            Some(m) => m,
            None => AUTH_NONE,
        };
        let password = if method == AUTH_NONE { None } else { Some(pass.to_owned()) };
        StationConfig { ssid: self.ssid.clone(), password, auth_method: method }
    }
}

/// The number of the authentication method of an open network.
pub const AUTH_NONE: u8 = 0;

/// The settings with which the radio joins a network as a station.
#[derive(Debug, Clone, PartialEq, Eq)]
pub struct StationConfig {
    pub ssid: String,
    pub password: Option<String>,
    pub auth_method: u8,
}

/// What a text box does with the text entered.
#[derive(Debug, Clone, Copy, PartialEq, Eq, Structural)]
pub enum TextSubmitHandler {
    SetWifiSSID,
    SetWifiPassword,
    SetServerIP,
    SetServerPort,
}

/// What submitting the text `entry` does to the text and to the menu state; `parsed_ip` is
/// the address that the text reads as, if any.
pub open spec fn spec_text_submit(h: TextSubmitHandler, entry: Seq<char>, ms: MenuInternalState, parsed_ip: Option<IpAddress>) -> (Seq<char>, MenuInternalState) {
    match (h, ms) {
        (TextSubmitHandler::SetWifiSSID, MenuInternalState::WifiDetails { ap, pass }) =>
            (entry, MenuInternalState::WifiDetails { ap: AccessPoint { ssid: ap.ssid, ..ap }, pass }),
        (TextSubmitHandler::SetWifiPassword, MenuInternalState::WifiDetails { ap, pass }) => (entry, ms),
        (TextSubmitHandler::SetServerIP, MenuInternalState::ServerDetails { ip, port }) => match parsed_ip {
            Some(n) => (entry, MenuInternalState::ServerDetails { ip: n, port }),
            None => (ascii_chars(ip_text(ip)), ms),
        },
        (TextSubmitHandler::SetServerPort, MenuInternalState::ServerDetails { ip, port }) =>
            match spec_parse_u16(vstd::utf8::encode_utf8(entry)) {
                Some(p) => (entry, MenuInternalState::ServerDetails { ip, port: p }),
                None => (ascii_chars(spec_decimal(port as nat)), ms),
            },
        _ => (entry, ms),
    }
}

impl TextSubmitHandler {
    /// Takes the text `entry` that was typed: it becomes the network's name or password, or
    /// the server's address or port when it reads as one (else the text is put back to the
    /// current address or port). `parsed_ip` is what the text reads as, as an address.
    pub fn handle(&self, entry: &mut String, ms: &mut MenuInternalState, parsed_ip: Option<IpAddress>) -> (r: HandlerResult)
        ensures
            r == HandlerResult::Idle,
            final(entry)@ == spec_text_submit(*self, old(entry)@, *old(ms), parsed_ip).0,
            match (*self, *old(ms)) {
                (TextSubmitHandler::SetWifiSSID, MenuInternalState::WifiDetails { ap, pass }) =>
                    *final(ms) matches MenuInternalState::WifiDetails { ap: a, pass: p }
                        && a.ssid@ == old(entry)@ && a.auth_method == ap.auth_method && p == pass,
                (TextSubmitHandler::SetWifiPassword, MenuInternalState::WifiDetails { ap, pass }) =>
                    *final(ms) matches MenuInternalState::WifiDetails { ap: a, pass: p } && a == ap && p@ == old(entry)@,
                _ => *final(ms) == spec_text_submit(*self, old(entry)@, *old(ms), parsed_ip).1,
            },
    {
        match self {
            TextSubmitHandler::SetWifiSSID => {
                match ms {
                    MenuInternalState::WifiDetails { ap, .. } => {
                        ap.ssid = entry.clone();
                    },
                    _ => {},
                }
            },
            TextSubmitHandler::SetWifiPassword => {
                match ms {
                    MenuInternalState::WifiDetails { pass, .. } => {
                        *pass = entry.clone();
                    },
                    _ => {},
                }
            },
            TextSubmitHandler::SetServerIP => {
                match ms {
                    MenuInternalState::ServerDetails { ip, .. } => {
                        match parsed_ip {
                            Some(n) => { *ip = n; },
                            None => { *entry = string_from_ip(ip); },
                        }
                    },
                    _ => {},
                }
            },
            TextSubmitHandler::SetServerPort => {
                match ms {
                    MenuInternalState::ServerDetails { port, .. } => {
                        match parse_u16(entry.as_str().as_bytes()) {
                            Some(p) => { *port = p; },
                            None => { *entry = decimal_string(*port as u32); },
                        }
                    },
                    _ => {},
                }
            },
        }
        HandlerResult::Idle
    }
}

/// Where a value selector takes its first value from.
#[derive(Debug, Clone, Copy, PartialEq, Eq, Structural)]
pub enum InitialValueGenerator {
    Const(u32),
    BacklightBrightness,
    LedBrightness,
}

impl InitialValueGenerator {
    /// The first value, given the backlight percentage and the LED brightness.
    pub fn get(&self, backlight_pct: u8, led_brightness: u8) -> (v: u32)
        ensures
            v == match *self {
                InitialValueGenerator::Const(c) => c,
                InitialValueGenerator::BacklightBrightness => backlight_pct as u32,
                InitialValueGenerator::LedBrightness => led_brightness as u32,
            },
    {
        match self {
            InitialValueGenerator::Const(c) => *c,
            InitialValueGenerator::BacklightBrightness => backlight_pct as u32,
            InitialValueGenerator::LedBrightness => led_brightness as u32,
        }
    }
}

/// The number of an LED mode in the RGB menu's switch: off, solid, fade, rainbow.
pub open spec fn led_mode_option(m: LedMode) -> usize {
    match m {
        LedMode::Off => 0,
        LedMode::Solid(_) => 1,
        LedMode::Fade(_, _) => 2,
        LedMode::Rainbow => 3,
    }
}

/// Where an option switch takes its first option from.
#[derive(Debug, Clone)]
pub enum OptionSwitchInitialOptionGenerator {
    Const(usize),
    /// The position of the network's authentication method in this list (the first option
    /// when it is not listed).
    WifiAuthMethod(Vec<u8>),
    /// The LED engine's mode.
    RGBMode,
}

impl OptionSwitchInitialOptionGenerator {
    /// The first option, in the menu state `ms`, while the LEDs are in `led_mode`.
    pub fn generate(&self, ms: &MenuInternalState, led_mode: LedMode) -> (k: usize)
        requires
            self matches OptionSwitchInitialOptionGenerator::WifiAuthMethod(_) ==> ms is WifiDetails,
            self matches OptionSwitchInitialOptionGenerator::RGBMode ==> ms is RgbMenu,
        ensures
            match *self {
                OptionSwitchInitialOptionGenerator::Const(u) => k == u,
                OptionSwitchInitialOptionGenerator::WifiAuthMethod(t) => match *ms {
                    MenuInternalState::WifiDetails { ap, .. } =>
                        (k == 0 && forall|i: int| 0 <= i < t@.len() ==> Some(#[trigger] t@[i]) != ap.auth_method)
                        || (k < t@.len() && Some(t@[k as int]) == ap.auth_method
                            && forall|j: int| 0 <= j < k ==> Some(#[trigger] t@[j]) != ap.auth_method),
                    _ => false,
                },
                OptionSwitchInitialOptionGenerator::RGBMode => k == led_mode_option(led_mode),
            },
    {
        match self {
            OptionSwitchInitialOptionGenerator::Const(u) => *u,
            OptionSwitchInitialOptionGenerator::WifiAuthMethod(t) => {
                let m = match ms {
                    MenuInternalState::WifiDetails { ap, .. } => ap.auth_method,
                    _ => None,
                };
                let mut i: usize = 0;
                while i < t.len()
                    invariant
                        i <= t@.len(),
                        ms is WifiDetails,
                        *self == OptionSwitchInitialOptionGenerator::WifiAuthMethod(*t),
                        m == match *ms { MenuInternalState::WifiDetails { ap, .. } => ap.auth_method, _ => None },
                        forall|j: int| 0 <= j < i ==> Some(#[trigger] t@[j]) != m,
                    decreases t@.len() - i,
                {
                    let hit = match m {
                        Some(x) => t[i] == x,
                        None => false,
                    };
                    if hit {
                        return i;
                    }
                    i = i + 1;
                }
                0
            },
            OptionSwitchInitialOptionGenerator::RGBMode => match led_mode {
                LedMode::Off => 0,
                LedMode::Solid(_) => 1,
                LedMode::Fade(_, _) => 2,
                LedMode::Rainbow => 3,
            },
        }
    }
}

/// Where a button takes its label from.
#[derive(Debug, Clone, Copy)]
pub enum ButtonTextGenerator {
    LangStr(LanguageString),
    /// "Connect" or "Disconnect", as the board is off or on a network.
    WifiConnectDisconnect,
}

impl ButtonTextGenerator {
    /// The label in the language `l`.
    pub fn generate(&self, l: Lang, wifi_connected: bool) -> (t: &'static str)
        ensures
            t == match *self {
                ButtonTextGenerator::LangStr(s) => s.spec_index(l),
                ButtonTextGenerator::WifiConnectDisconnect => crate::lang::connect_label(wifi_connected, l),
            },
    {
        match self {
            ButtonTextGenerator::LangStr(s) => s.const_index(l),
            ButtonTextGenerator::WifiConnectDisconnect => if wifi_connected {
                crate::lang::text_disconnect().const_index(l)
            } else {
                crate::lang::text_connect().const_index(l)
            },
        }
    }
}

/// Where a scroller takes its options from.
#[derive(Debug, Clone)]
pub enum OptionsGenerator {
    Const(Vec<&'static str>),
    /// Menus, each with its name.
    Menus(Vec<(LanguageString, Menu)>),
    /// The networks in reach, then a last option for a network of the user's own.
    WifiGenerator,
}

/// The last option of the network list: the word "custom" in angle brackets.
pub open spec fn custom_option(l: Lang) -> Seq<char> {
    "<"@ + crate::lang::custom_label(l)@ + ">"@
}

/// The options a generator gives in the language `l`, with `ssids` the networks in reach.
pub open spec fn spec_options(g: OptionsGenerator, l: Lang, ssids: Seq<Seq<char>>) -> Seq<Seq<char>> {
    match g {
        OptionsGenerator::Const(v) => Seq::new(v@.len(), |i: int| v@[i]@),
        OptionsGenerator::Menus(v) => Seq::new(v@.len(), |i: int| v@[i].0.spec_index(l)@),
        OptionsGenerator::WifiGenerator => ssids.push(custom_option(l)),
    }
}

impl OptionsGenerator {
    /// The options in the language `l`; `ssids` are the names of the networks in reach.
    pub fn generate(&self, l: Lang, ssids: &Vec<String>) -> (out: Vec<String>)
        ensures
            out@.len() == spec_options(*self, l, Seq::new(ssids@.len(), |i: int| ssids@[i]@)).len(),
            forall|i: int| 0 <= i < out@.len() ==>
                #[trigger] out@[i]@ == spec_options(*self, l, Seq::new(ssids@.len(), |i: int| ssids@[i]@))[i],
    {
        let ghost names = Seq::new(ssids@.len(), |i: int| ssids@[i]@);
        let mut out: Vec<String> = Vec::new();
        match self {
            OptionsGenerator::Const(v) => {
                let mut i: usize = 0;
                while i < v.len()
                    invariant
                        i <= v@.len(),
                        out@.len() == i,
                        forall|j: int| 0 <= j < i ==> #[trigger] out@[j]@ == v@[j]@,
                    decreases v@.len() - i,
                {
                    out.push(v[i].to_owned());
                    i = i + 1;
                }
            },
            OptionsGenerator::Menus(v) => {
                let mut i: usize = 0;
                while i < v.len()
                    invariant
                        i <= v@.len(),
                        out@.len() == i,
                        forall|j: int| 0 <= j < i ==> #[trigger] out@[j]@ == v@[j].0.spec_index(l)@,
                    decreases v@.len() - i,
                {
                    out.push(v[i].0.const_index(l).to_owned());
                    i = i + 1;
                }
            },
            OptionsGenerator::WifiGenerator => {
                let mut i: usize = 0;
                while i < ssids.len()
                    invariant
                        i <= ssids@.len(),
                        names == Seq::new(ssids@.len(), |i: int| ssids@[i]@),
                        out@.len() == i,
                        forall|j: int| 0 <= j < i ==> #[trigger] out@[j]@ == names[j],
                    decreases ssids@.len() - i,
                {
                    out.push(ssids[i].clone());
                    i = i + 1;
                }
                let inner = concat_str("<", crate::lang::text_custom().const_index(l));
                let last = concat_str(inner.as_str(), ">");
                out.push(last);
                assert(names.push(custom_option(l)).len() == out@.len());
            },
        }
        out
    }

    /// The menus that the options name, when they name menus.
    pub fn targets(&self) -> (t: Option<Vec<Menu>>)
        ensures
            match *self {
                OptionsGenerator::Menus(v) => t matches Some(m) && m@.len() == v@.len()
                    && forall|i: int| 0 <= i < v@.len() ==> #[trigger] m@[i] == v@[i].1,
                _ => t is None,
            },
    {
        match self {
            OptionsGenerator::Menus(v) => {
                let mut m: Vec<Menu> = Vec::new();
                let mut i: usize = 0;
                while i < v.len()
                    invariant
                        i <= v@.len(),
                        m@.len() == i,
                        forall|j: int| 0 <= j < i ==> #[trigger] m@[j] == v@[j].1,
                    decreases v@.len() - i,
                {
                    m.push(v[i].1);
                    i = i + 1;
                }
                Some(m)
            },
            _ => None,
        }
    }
}

/// Where a text box takes its first text from.
#[derive(Debug, Clone, Copy)]
pub enum TextGetterSetter {
    Const(&'static str),
    WifiMenuSSIDName,
    WifiMenuPassword,
    ServerIP,
    ServerPort,
}

/// The text given when a getter finds nothing to give.
pub open spec fn illegal_getter_text() -> Seq<char> {
    "illegal TextGetterSetter"@
}

/// The first text of a text box in the menu state `ms`, with `server` the configured server.
pub open spec fn spec_text_get(g: TextGetterSetter, ms: MenuInternalState, server: ServerConnection) -> Seq<char> {
    match (g, ms) {
        (TextGetterSetter::Const(s), _) => s@,
        (TextGetterSetter::WifiMenuSSIDName, MenuInternalState::WifiDetails { ap, .. }) => ap.ssid@,
        (TextGetterSetter::WifiMenuPassword, _) => Seq::empty(),
        (TextGetterSetter::ServerIP, _) => ascii_chars(ip_text(server.server_ip)),
        (TextGetterSetter::ServerPort, _) => ascii_chars(spec_decimal(server.server_port as nat)),
        _ => illegal_getter_text(),
    }
}

impl TextGetterSetter {
    /// The first text of the box.
    pub fn get_owned(&self, ms: &MenuInternalState, server: &ServerConnection) -> (s: String)
        ensures
            s@ == spec_text_get(*self, *ms, *server),
    {
        match self {
            TextGetterSetter::Const(c) => (*c).to_owned(),
            TextGetterSetter::WifiMenuSSIDName => match ms {
                MenuInternalState::WifiDetails { ap, .. } => ap.ssid.clone(),
                _ => "illegal TextGetterSetter".to_owned(),
            },
            TextGetterSetter::WifiMenuPassword => String::new(),
            TextGetterSetter::ServerIP => string_from_ip(&server.server_ip),
            TextGetterSetter::ServerPort => decimal_string(server.server_port as u32),
        }
    }
}

/// The custom theme colour that a display settings menu starts with.
pub open spec fn custom_color_of(t: Theme) -> RGB {
    match t {
        Theme::Custom(c) => c,
        _ => mid_grey(),
    }
}

/// The network that a Wi-Fi menu for the `a`-th network in reach starts with.
pub open spec fn initial_ap_ok(ap: AccessPoint, a: usize, wifis: Seq<AccessPoint>) -> bool {
    if a < wifis.len() {
        ap == wifis[a as int]
    } else {
        ap.ssid@ == Seq::<char>::empty() && ap.auth_method is None
    }
}

/// The state a menu of components starts in, given the settings, the networks in reach and
/// the configured server (for the Wi-Fi menus, see [`initial_ap_ok`]).
pub open spec fn initial_state_ok(m: ComponentMenu, st: PbGlobalSettings, wifis: Seq<AccessPoint>, server: ServerConnection, r: MenuInternalState) -> bool {
    match m {
        ComponentMenu::ComponentTesting => r == MenuInternalState::ComponentTesting,
        ComponentMenu::Lang => r == MenuInternalState::Lang { language: crate::lang::lang_code(st.lang) },
        ComponentMenu::Wifi => r == MenuInternalState::Wifi,
        ComponentMenu::WifiDetails(a) => r matches MenuInternalState::WifiDetails { ap, pass }
            && initial_ap_ok(ap, a, wifis) && pass@ == Seq::<char>::empty(),
        ComponentMenu::ServerDetails => r == MenuInternalState::ServerDetails { ip: server.server_ip, port: server.server_port },
        ComponentMenu::DisplaySettings => r == MenuInternalState::DisplaySettings { theme_custom_col: custom_color_of(st.theme) },
        ComponentMenu::Settings => r == MenuInternalState::Settings,
        ComponentMenu::RgbMenu => r == MenuInternalState::RgbMenu { mode: LedMode::Off, primary_col: mid_grey(), secondary_col: mid_grey() },
        ComponentMenu::DisplaySettingsSettingsMenu => r == MenuInternalState::DisplaySettingsSettingsMenu { theme_custom_col: custom_color_of(st.theme) },
        ComponentMenu::WifiSettingsMenu => r == MenuInternalState::WifiSettingsMenu,
        ComponentMenu::WifiDetailsSettingsMenu(a) => r matches MenuInternalState::WifiDetailsSettingsMenu { ap, pass }
            && initial_ap_ok(ap, a, wifis) && pass@ == Seq::<char>::empty(),
        ComponentMenu::ServerDetailsSettingsMenu => r == MenuInternalState::ServerDetailsSettingsMenu { ip: server.server_ip, port: server.server_port },
        ComponentMenu::PwmWizard => r == MenuInternalState::PwmWizard { selected_channel: PwmNumber::Pwm0, voltage: 12 },
    }
}

/// The network that a Wi-Fi menu starts with.
fn initial_ap(a: usize, wifis: &Vec<AccessPoint>) -> (ap: AccessPoint)
    ensures
        initial_ap_ok(ap, a, wifis@),
{
    if a < wifis.len() { wifis[a].duplicate() } else { AccessPoint::blank() }
}

/// The theme's custom colour, or grey.
fn custom_color(t: Theme) -> (c: RGB)
    ensures
        c == custom_color_of(t),
{
    match t {
        Theme::Custom(c) => c,
        _ => RGB { r: 128, g: 128, b: 128 },
    }
}

impl ComponentMenu {
    /// The state the menu starts in.
    pub fn initial_state(self, st: &PbGlobalSettings, wifis: &Vec<AccessPoint>, server: &ServerConnection) -> (r: MenuInternalState)
        ensures
            initial_state_ok(self, *st, wifis@, *server, r),
    {
        match self {
            ComponentMenu::ComponentTesting => MenuInternalState::ComponentTesting,
            ComponentMenu::Lang => MenuInternalState::Lang { language: st.lang.code() },
            ComponentMenu::Wifi => MenuInternalState::Wifi,
            ComponentMenu::WifiDetails(a) => MenuInternalState::WifiDetails { ap: initial_ap(a, wifis), pass: String::new() },
            ComponentMenu::ServerDetails => MenuInternalState::ServerDetails { ip: server.server_ip, port: server.server_port },
            ComponentMenu::DisplaySettings => MenuInternalState::DisplaySettings { theme_custom_col: custom_color(st.theme) },
            ComponentMenu::Settings => MenuInternalState::Settings,
            ComponentMenu::RgbMenu => MenuInternalState::RgbMenu {
                mode: LedMode::Off,
                primary_col: RGB { r: 128, g: 128, b: 128 },
                secondary_col: RGB { r: 128, g: 128, b: 128 },
            },
            ComponentMenu::DisplaySettingsSettingsMenu => MenuInternalState::DisplaySettingsSettingsMenu { theme_custom_col: custom_color(st.theme) },
            ComponentMenu::WifiSettingsMenu => MenuInternalState::WifiSettingsMenu,
            ComponentMenu::WifiDetailsSettingsMenu(a) => MenuInternalState::WifiDetailsSettingsMenu { ap: initial_ap(a, wifis), pass: String::new() },
            ComponentMenu::ServerDetailsSettingsMenu => MenuInternalState::ServerDetailsSettingsMenu { ip: server.server_ip, port: server.server_port },
            ComponentMenu::PwmWizard => MenuInternalState::PwmWizard { selected_channel: PwmNumber::Pwm0, voltage: 12 },
        }
    }
}

/// Turning a slider clockwise never darkens its channel, and anticlockwise never brightens it.
pub proof fn lemma_nudge_direction(c: RGB, ch: ColorChannel)
    ensures
        nudge(c, ch, true).r >= c.r && nudge(c, ch, true).g >= c.g && nudge(c, ch, true).b >= c.b,
        nudge(c, ch, false).r <= c.r && nudge(c, ch, false).g <= c.g && nudge(c, ch, false).b <= c.b,
{
}

} // verus!
