//! The menus with their own drawing: the title screen, the choice of setup method, the
//! language choice, the home screen with the PWM dial, the PWM wizard and the menu made of
//! components. Each is a state and a step from an input to the next state and what to do;
//! the caller draws and performs the actions.
use vstd::prelude::*;
use crate::lang::{Lang, spec_title_next_lang, title_next_lang, spec_next_lang, spec_prev_lang, next_lang, prev_lang};
use crate::button::ButtonEventKind;
use crate::pwm::{PwmNumber, PwmAction, PwmPinState, Command};
use crate::layout::Point;
use crate::rgb::RGB;
use crate::settings::{Theme, spec_fg, spec_highlight, spec_bg};
use crate::menu::{Menu, ComponentMenu, MenuSignal};
use crate::text::{ascii_chars, ascii_string};

verus! {

/// Which button an event comes from.
#[derive(Debug, Clone, Copy, PartialEq, Eq, Structural)]
pub enum ButtonType {
    Left,
    Right,
    Rotenc,
}

/// An input of a menu: a button event, or a turn of the encoder by this many steps
/// (positive clockwise, zero for a turn with no direction).
#[derive(Debug, Clone, Copy, PartialEq, Eq, Structural)]
pub enum ScreenInput {
    Button(ButtonType, ButtonEventKind),
    Turn(i16),
}

/// A menu that the older menu loop can start.
#[derive(Debug, Clone, Copy, PartialEq, Eq, Structural)]
pub enum MenuSelection {
    TitleMenu,
    SetupMethodMenu,
}

/// The data of a button event in the simulator: the pin.
#[derive(Debug, Clone, Copy, PartialEq, Eq, Structural)]
pub struct BData {
    pub pin: u8,
}

/// The data of an encoder event in the simulator (none).
#[derive(Debug, Clone, Copy, PartialEq, Eq, Structural)]
pub struct RData {}

/// The PWM outputs as the simulator sees them (nothing to control).
#[derive(Debug, Clone, Copy, PartialEq, Eq, Structural)]
pub struct OutputCtl {}

impl OutputCtl {
    pub fn new() -> (o: OutputCtl)
        ensures
            o == (OutputCtl {}),
    {
        OutputCtl {}
    }
}

// ----------------------------------------------------------------------------------------------
// Title screen

/// The title screen: the language its greeting is currently shown in, and how long that
/// language has been shown, in milliseconds.
#[derive(Debug, Clone, Copy, PartialEq, Eq, Structural)]
pub struct TitleState {
    pub cur_lang: Lang,
    pub shown_ms: u64,
}

/// How long the greeting stays in one language before it changes, in milliseconds.
pub const TITLE_PERIOD_MS: u64 = 5000;

/// `a + b`, at most `u64::MAX`.
pub open spec fn sat_add_u64(a: u64, b: u64) -> u64 {
    if a + b > u64::MAX { u64::MAX } else { (a + b) as u64 }
}

/// The title screen after `elapsed_ms` more milliseconds, and the language to redraw the
/// greeting in, if it changed: it changes to the next one once the period has passed.
pub open spec fn spec_title_tick(t: TitleState, elapsed_ms: u64) -> (TitleState, Option<Lang>) {
    let shown = sat_add_u64(t.shown_ms, elapsed_ms);
    if shown >= TITLE_PERIOD_MS {
        (TitleState { cur_lang: spec_title_next_lang(t.cur_lang), shown_ms: 0 }, Some(spec_title_next_lang(t.cur_lang)))
    } else {
        (TitleState { shown_ms: shown, ..t }, None)
    }
}

impl TitleState {
    /// The title screen, greeting in English first, just shown.
    pub fn new() -> (t: TitleState)
        ensures
            t.cur_lang == Lang::En,
            t.shown_ms == 0,
    {
        TitleState { cur_lang: Lang::En, shown_ms: 0 }
    }

    /// Lets `elapsed_ms` milliseconds pass: once the greeting has been shown for
    /// [`TITLE_PERIOD_MS`] it changes to the next language (Russian is left out), and the new
    /// language is returned for redrawing; before that nothing changes but the time shown.
    pub fn tick(&mut self, elapsed_ms: u64) -> (l: Option<Lang>)
        ensures
            (*final(self), l) == spec_title_tick(*old(self), elapsed_ms),
    {
        let shown: u64 = if elapsed_ms > u64::MAX - self.shown_ms { u64::MAX } else { self.shown_ms + elapsed_ms };
        if shown >= TITLE_PERIOD_MS {
            let l = title_next_lang(self.cur_lang);
            self.cur_lang = l;
            self.shown_ms = 0;
            Some(l)
        } else {
            self.shown_ms = shown;
            None
        }
    }

    /// The language to draw the greeting in now; the next frame shows the next language
    /// (Russian is left out), freshly shown.
    pub fn next_frame(&mut self) -> (l: Lang)
        ensures
            l == old(self).cur_lang,
            final(self).cur_lang == spec_title_next_lang(old(self).cur_lang),
            final(self).shown_ms == 0,
    {
        let l = self.cur_lang;
        self.cur_lang = title_next_lang(l);
        self.shown_ms = 0;
        l
    }

    /// What a button event does while the greeting waits: the encoder's button (pressed,
    /// released or held) leaves for the language menu; the others are ignored.
    pub fn on_button(b: ButtonType) -> (s: Option<MenuSignal>)
        ensures
            s == if b == ButtonType::Rotenc {
                Some(MenuSignal::Transition(Menu::ComponentMenu(ComponentMenu::Lang)))
            } else {
                None
            },
    {
        match b {
            ButtonType::Rotenc => Some(MenuSignal::Transition(Menu::ComponentMenu(ComponentMenu::Lang))),
            _ => None,
        }
    }
}

/// The greeting keeps its language until the period has passed, then moves on by one.
pub proof fn lemma_title_waits_for_period(t: TitleState, elapsed_ms: u64)
    requires
        t.shown_ms < TITLE_PERIOD_MS,
    ensures
        t.shown_ms + elapsed_ms < TITLE_PERIOD_MS ==> spec_title_tick(t, elapsed_ms).0.cur_lang == t.cur_lang
            && spec_title_tick(t, elapsed_ms).1 is None,
        t.shown_ms + elapsed_ms >= TITLE_PERIOD_MS ==> spec_title_tick(t, elapsed_ms).0.cur_lang == spec_title_next_lang(t.cur_lang)
            && spec_title_tick(t, elapsed_ms).1 == Some(spec_title_next_lang(t.cur_lang)),
{
}

// ----------------------------------------------------------------------------------------------
// Setup method

/// The choice between setting up over Wi-Fi (0) and standalone (1).
#[derive(Debug, Clone, Copy, PartialEq, Eq, Structural)]
pub struct SetupMethodState {
    pub current_selection: u8,
}

/// What the setup menu does after an input.
#[derive(Debug, Clone, Copy, PartialEq, Eq, Structural)]
pub enum SetupAction {
    Nothing,
    /// Redraw the tooltip of the selection and the cursors at this height and half-width.
    Redraw { selection: u8, cursor_y: i32, cursor_width: i32 },
    /// The Wi-Fi setup was chosen: start the board's own network for another device to join.
    StartWifiSetup,
    Finish(MenuSignal),
}

/// What confirming choice `sel` does: the Wi-Fi setup (0) starts the board's network, the
/// standalone setup (1) goes on to the Wi-Fi settings menu.
pub open spec fn setup_choice_action(sel: u8) -> SetupAction {
    if sel == 0 {
        SetupAction::StartWifiSetup
    } else {
        SetupAction::Finish(MenuSignal::Transition(Menu::ComponentMenu(ComponentMenu::Wifi)))
    }
}

/// The height of the cursors for each choice.
pub open spec fn cursor_y(sel: u8) -> i32 {
    if sel == 0 { 47 } else { 57 }
}

/// The half-width of the cursors for each choice.
pub open spec fn cursor_width(sel: u8) -> i32 {
    if sel == 0 { 34 } else { 44 }
}

/// The setup menu after an input, and what to do.
pub open spec fn spec_setup_step(s: SetupMethodState, inp: ScreenInput) -> (SetupMethodState, SetupAction) {
    match inp {
        ScreenInput::Turn(k) => if k != 0 {
            let sel = ((s.current_selection + 1) % 2) as u8;
            (SetupMethodState { current_selection: sel }, SetupAction::Redraw { selection: sel, cursor_y: cursor_y(sel), cursor_width: cursor_width(sel) })
        } else {
            (s, SetupAction::Nothing)
        },
        ScreenInput::Button(ButtonType::Right, ButtonEventKind::Down) => (s, setup_choice_action(s.current_selection)),
        ScreenInput::Button(ButtonType::Left, ButtonEventKind::Down) => (s, SetupAction::Finish(MenuSignal::Back)),
        _ => (s, SetupAction::Nothing),
    }
}

impl SetupMethodState {
    /// Starts on the Wi-Fi setup.
    pub fn new() -> (s: SetupMethodState)
        ensures
            s.current_selection == 0,
    {
        SetupMethodState { current_selection: 0 }
    }

    /// A turn moves to the other choice; the right button confirms the highlighted choice
    /// (see [`setup_choice_action`]), the left one goes back.
    pub fn step(&mut self, inp: ScreenInput) -> (a: SetupAction)
        requires
            old(self).current_selection < 2,
        ensures
            (*final(self), a) == spec_setup_step(*old(self), inp),
            final(self).current_selection < 2,
    {
        match inp {
            ScreenInput::Turn(k) => {
                if k != 0 {
                    let sel: u8 = (self.current_selection + 1) % 2;
                    self.current_selection = sel;
                    let y: i32 = if sel == 0 { 47 } else { 57 };
                    let w: i32 = if sel == 0 { 34 } else { 44 };
                    SetupAction::Redraw { selection: sel, cursor_y: y, cursor_width: w }
                } else {
                    SetupAction::Nothing
                }
            },
            ScreenInput::Button(ButtonType::Right, ButtonEventKind::Down) => {
                if self.current_selection == 0 {
                    SetupAction::StartWifiSetup
                } else {
                    SetupAction::Finish(MenuSignal::Transition(Menu::ComponentMenu(ComponentMenu::Wifi)))
                }
            },
            ScreenInput::Button(ButtonType::Left, ButtonEventKind::Down) => SetupAction::Finish(MenuSignal::Back),
            _ => SetupAction::Nothing,
        }
    }
}

// ----------------------------------------------------------------------------------------------
// Language choice

/// The language menu: the language shown, and how long it has waited for an input, in
/// milliseconds.
#[derive(Debug, Clone, Copy, PartialEq, Eq, Structural)]
pub struct LanguageState {
    pub cur_lang: Lang,
    /// The language the screen's own texts are drawn in: the one last selected.
    pub screen_lang: Lang,
    pub idle_ms: u64,
}

/// How long the language menu waits for an input before it goes back to the title screen, in
/// milliseconds.
pub const LANGUAGE_TIMEOUT_MS: u64 = 30000;

/// The language menu after `elapsed_ms` more milliseconds without input: once it has waited
/// [`LANGUAGE_TIMEOUT_MS`] it goes back to the title screen.
pub open spec fn spec_language_tick(s: LanguageState, elapsed_ms: u64) -> (LanguageState, LanguageAction) {
    let idle = sat_add_u64(s.idle_ms, elapsed_ms);
    if idle >= LANGUAGE_TIMEOUT_MS {
        (LanguageState { idle_ms: idle, ..s }, LanguageAction::Go(MenuSelection::TitleMenu))
    } else {
        (LanguageState { idle_ms: idle, ..s }, LanguageAction::Nothing)
    }
}

/// What the language menu does after an input.
#[derive(Debug, Clone, Copy, PartialEq, Eq, Structural)]
pub enum LanguageAction {
    Nothing,
    /// Show this language.
    Redraw(Lang),
    /// The language was selected: redraw the whole screen in it.
    Select(Lang),
    /// Store this language in the settings, then go to the menu.
    SaveAndGo(Lang, MenuSelection),
    /// Go to the menu.
    Go(MenuSelection),
}

/// The language menu after an input (every input starts the wait for the next one afresh).
pub open spec fn spec_language_step(s: LanguageState, inp: ScreenInput) -> (LanguageState, LanguageAction) {
    let r = LanguageState { idle_ms: 0, ..s };
    match inp {
        ScreenInput::Turn(k) => if k > 0 {
            (LanguageState { cur_lang: spec_next_lang(s.cur_lang), ..r }, LanguageAction::Redraw(spec_next_lang(s.cur_lang)))
        } else if k < 0 {
            (LanguageState { cur_lang: spec_prev_lang(s.cur_lang), ..r }, LanguageAction::Redraw(spec_prev_lang(s.cur_lang)))
        } else {
            (r, LanguageAction::Nothing)
        },
        ScreenInput::Button(ButtonType::Rotenc, ButtonEventKind::Down) =>
            (LanguageState { screen_lang: s.cur_lang, ..r }, LanguageAction::Select(s.cur_lang)),
        ScreenInput::Button(ButtonType::Right, _) => (r, LanguageAction::SaveAndGo(s.cur_lang, MenuSelection::SetupMethodMenu)),
        ScreenInput::Button(ButtonType::Left, _) => (r, LanguageAction::Go(MenuSelection::TitleMenu)),
        _ => (r, LanguageAction::Nothing),
    }
}

impl LanguageState {
    /// Starts on the language of the settings, the screen drawn in it, waiting afresh.
    pub fn new(lang: Lang) -> (s: LanguageState)
        ensures
            s.cur_lang == lang,
            s.screen_lang == lang,
            s.idle_ms == 0,
    {
        LanguageState { cur_lang: lang, screen_lang: lang, idle_ms: 0 }
    }

    /// Lets `elapsed_ms` milliseconds pass without input: after [`LANGUAGE_TIMEOUT_MS`] the
    /// menu goes back to the title screen.
    pub fn tick(&mut self, elapsed_ms: u64) -> (a: LanguageAction)
        ensures
            (*final(self), a) == spec_language_tick(*old(self), elapsed_ms),
    {
        let idle: u64 = if elapsed_ms > u64::MAX - self.idle_ms { u64::MAX } else { self.idle_ms + elapsed_ms };
        self.idle_ms = idle;
        if idle >= LANGUAGE_TIMEOUT_MS {
            LanguageAction::Go(MenuSelection::TitleMenu)
        } else {
            LanguageAction::Nothing
        }
    }

    /// A turn shows the next or previous language; pressing the encoder's button selects the
    /// language shown, and the screen changes to it; the right button keeps the language shown
    /// and goes on to the setup, the left one goes back to the title. Any input restarts the
    /// wait for the timeout.
    pub fn step(&mut self, inp: ScreenInput) -> (a: LanguageAction)
        ensures
            (*final(self), a) == spec_language_step(*old(self), inp),
    {
        self.idle_ms = 0;
        match inp {
            ScreenInput::Turn(k) => {
                if k > 0 {
                    self.cur_lang = next_lang(self.cur_lang);
                    LanguageAction::Redraw(self.cur_lang)
                } else if k < 0 {
                    self.cur_lang = prev_lang(self.cur_lang);
                    LanguageAction::Redraw(self.cur_lang)
                } else {
                    LanguageAction::Nothing
                }
            },
            ScreenInput::Button(ButtonType::Rotenc, ButtonEventKind::Down) => {
                self.screen_lang = self.cur_lang;
                LanguageAction::Select(self.cur_lang)
            },
            ScreenInput::Button(ButtonType::Right, _) => LanguageAction::SaveAndGo(self.cur_lang, MenuSelection::SetupMethodMenu),
            ScreenInput::Button(ButtonType::Left, _) => LanguageAction::Go(MenuSelection::TitleMenu),
            _ => LanguageAction::Nothing,
        }
    }
}

// ----------------------------------------------------------------------------------------------
// Home screen

/// The home screen: the channel that the encoder controls, shown on the dial.
#[derive(Debug, Clone, Copy, PartialEq, Eq, Structural)]
pub struct HomeMenu {
    pub selected_channel: PwmNumber,
}

/// An input of the home screen.
#[derive(Debug, Clone, Copy, PartialEq, Eq, Structural)]
pub enum HomeInput {
    Screen(ScreenInput),
    /// The PWM runner finished a command.
    PwmResult,
}

/// What the home screen does after an input.
#[derive(Debug, Clone, Copy, PartialEq, Eq, Structural)]
pub enum HomeAction {
    Nothing,
    /// Redraw the dial and both channel boxes.
    RedrawAll,
    /// Send the command and wait for it; then redraw the selected channel's box.
    SendAwaitAndRedraw(Command),
    /// Send the command without waiting.
    Send(Command),
    Finish(MenuSignal),
}

/// The channel after the selected one: the home screen switches between the first two.
pub open spec fn spec_next_selection(c: PwmNumber) -> PwmNumber {
    match c {
        PwmNumber::Pwm0 => PwmNumber::Pwm1,
        _ => PwmNumber::Pwm0,
    }
}

/// `v` capped at 255, as a byte.
pub open spec fn cap_255(v: int) -> u8 {
    if v > 255 { 255 } else { v as u8 }
}

/// The home screen after an input. The encoder's button switches the controlled channel; a
/// turn raises (clockwise) or lowers (anticlockwise) its duty by as many percent as steps (at
/// most 255); the left button switches it on or off, and the right button opens the settings.
pub open spec fn spec_home_step(h: HomeMenu, inp: HomeInput) -> (HomeMenu, HomeAction) {
    match inp {
        HomeInput::Screen(ScreenInput::Turn(r)) => if r > 0 {
            (h, HomeAction::Send(Command { action: PwmAction::IncDutyPct(h.selected_channel, cap_255(r as int)), time: 0 }))
        } else {
            (h, HomeAction::Send(Command { action: PwmAction::DecDutyPct(h.selected_channel, cap_255(-(r as int))), time: 0 }))
        },
        HomeInput::Screen(ScreenInput::Button(ButtonType::Right, ButtonEventKind::Down)) =>
            (h, HomeAction::Finish(MenuSignal::Transition(Menu::ComponentMenu(ComponentMenu::Settings)))),
        HomeInput::Screen(ScreenInput::Button(ButtonType::Left, ButtonEventKind::Down)) =>
            (h, HomeAction::SendAwaitAndRedraw(Command { action: PwmAction::Toggle(h.selected_channel), time: 0 })),
        HomeInput::Screen(ScreenInput::Button(ButtonType::Rotenc, ButtonEventKind::Down)) =>
            (HomeMenu { selected_channel: spec_next_selection(h.selected_channel) }, HomeAction::RedrawAll),
        HomeInput::Screen(ScreenInput::Button(_, _)) => (h, HomeAction::Nothing),
        HomeInput::PwmResult => (h, HomeAction::RedrawAll),
    }
}

impl HomeMenu {
    /// Controlling the first channel.
    pub fn new() -> (h: HomeMenu)
        ensures
            h.selected_channel == PwmNumber::Pwm0,
    {
        HomeMenu { selected_channel: PwmNumber::Pwm0 }
    }

    /// Where the box of a channel stands on the home screen.
    pub fn channel_position(c: PwmNumber) -> (p: Point)
        ensures
            p == match c {
                PwmNumber::Pwm0 => Point { x: 24, y: 130 },
                PwmNumber::Pwm1 => Point { x: 64, y: 130 },
                PwmNumber::Pwm2 => Point { x: 24, y: 100 },
                PwmNumber::Pwm3 => Point { x: 64, y: 100 },
            },
    {
        match c {
            PwmNumber::Pwm0 => Point { x: 24, y: 130 },
            PwmNumber::Pwm1 => Point { x: 64, y: 130 },
            PwmNumber::Pwm2 => Point { x: 24, y: 100 },
            PwmNumber::Pwm3 => Point { x: 64, y: 100 },
        }
    }

    /// The outline colour of a channel's box: the theme's highlight for the selected channel,
    /// its foreground for the others.
    pub fn channel_color(theme: &Theme, selected: bool) -> (c: RGB)
        ensures
            c == if selected { spec_highlight(*theme) } else { spec_fg(*theme) },
    {
        if selected { theme.highlight() } else { theme.fg() }
    }

    /// The fill of a channel's power indicator: the theme's highlight when the channel is on,
    /// its background when it is off.
    pub fn power_indicator_fill(theme: &Theme, state: PwmPinState) -> (c: RGB)
        ensures
            c == match state {
                PwmPinState::On => spec_highlight(*theme),
                PwmPinState::Off => spec_bg(*theme),
            },
    {
        match state {
            PwmPinState::On => theme.highlight(),
            PwmPinState::Off => theme.bg(),
        }
    }

    /// A turn raises (clockwise) or lowers (anticlockwise) the controlled channel's duty by as
    /// many percent as steps (at most 255); the encoder's button switches the controlled
    /// channel between the first two, the left button switches the channel on or off, and the
    /// right button opens the settings.
    pub fn step(&mut self, inp: HomeInput) -> (a: HomeAction)
        requires
            inp != HomeInput::Screen(ScreenInput::Turn(i16::MIN)),
        ensures
            (*final(self), a) == spec_home_step(*old(self), inp),
    {
        match inp {
            HomeInput::Screen(ScreenInput::Turn(r)) => {
                if r > 0 {
                    let p: u8 = if r > 255 { 255 } else { r as u8 };
                    HomeAction::Send(Command::new(PwmAction::IncDutyPct(self.selected_channel, p), 0))
                } else {
                    let m: i16 = -r;
                    let p: u8 = if m > 255 { 255 } else { m as u8 };
                    HomeAction::Send(Command::new(PwmAction::DecDutyPct(self.selected_channel, p), 0))
                }
            },
            HomeInput::Screen(ScreenInput::Button(ButtonType::Right, ButtonEventKind::Down)) =>
                HomeAction::Finish(MenuSignal::Transition(Menu::ComponentMenu(ComponentMenu::Settings))),
            HomeInput::Screen(ScreenInput::Button(ButtonType::Left, ButtonEventKind::Down)) =>
                HomeAction::SendAwaitAndRedraw(Command::new(PwmAction::Toggle(self.selected_channel), 0)),
            HomeInput::Screen(ScreenInput::Button(ButtonType::Rotenc, ButtonEventKind::Down)) => {
                self.selected_channel = match self.selected_channel {
                    PwmNumber::Pwm0 => PwmNumber::Pwm1,
                    _ => PwmNumber::Pwm0,
                };
                HomeAction::RedrawAll
            },
            HomeInput::Screen(ScreenInput::Button(_, _)) => HomeAction::Nothing,
            HomeInput::PwmResult => HomeAction::RedrawAll,
        }
    }
}

/// Two clicks of the encoder's button give back the controlled channel (one of the first two).
pub proof fn lemma_home_channel_click_twice(h: HomeMenu)
    requires
        h.selected_channel == PwmNumber::Pwm0 || h.selected_channel == PwmNumber::Pwm1,
    ensures
        ({
            let click = HomeInput::Screen(ScreenInput::Button(ButtonType::Rotenc, ButtonEventKind::Down));
            spec_home_step(spec_home_step(h, click).0, click).0 == h
        }),
{
}

/// A clockwise turn raises the controlled channel's duty and an anticlockwise one lowers it.
pub proof fn lemma_home_turn_direction(h: HomeMenu, r: i16)
    requires
        r != 0,
    ensures
        r > 0 ==> (spec_home_step(h, HomeInput::Screen(ScreenInput::Turn(r))).1 matches HomeAction::Send(c)
            && (c.action matches PwmAction::IncDutyPct(ch, p) && ch == h.selected_channel && p > 0)),
        r < 0 ==> (spec_home_step(h, HomeInput::Screen(ScreenInput::Turn(r))).1 matches HomeAction::Send(c)
            && (c.action matches PwmAction::DecDutyPct(ch, p) && ch == h.selected_channel && p > 0)),
{
}

/// The text of a percentage: its digits and a percent sign.
pub fn percentage_text(p: u8) -> (s: String)
    ensures
        s@ == ascii_chars(crate::text::spec_decimal(p as nat).push(37u8)),
{
    let mut d = crate::text::decimal_u8(p);
    d.push(37);
    proof {
        crate::text::lemma_decimal_ascii(p as nat);
        assert(crate::text::is_ascii_bytes(d@));
    }
    ascii_string(d)
}

// ----------------------------------------------------------------------------------------------
// Menu of components (the older, generic one)

/// What a component tells its menu after a click or a button.
#[derive(Debug, Clone, Copy, PartialEq, Eq, Structural)]
pub enum ComponentSignal {
    MenuSignal(MenuSignal),
    Focus,
    Unfocus,
    Nothing,
}

/// Why a component of the menu failed.
#[derive(Debug, Clone, Copy, PartialEq, Eq, Structural)]
pub enum ComponentMenuError {
    Error,
}

impl ComponentMenuError {
    /// The message of the error.
    pub fn message(&self) -> (s: String)
        ensures
            s@ == "Error!"@,
    {
        "Error!".to_owned()
    }
}

/// Whether the encoder moves between the components or goes to the focused one.
#[derive(Debug, Clone, Copy, PartialEq, Eq, Structural)]
pub enum CombinedMode {
    Highlight,
    Focus,
}

/// A menu of `num_components` components, one of them focused.
#[derive(Debug, Clone, Copy, PartialEq, Eq, Structural)]
pub struct ComponentCombinedMenu {
    pub num_components: usize,
    pub focused: usize,
    pub mode: CombinedMode,
}

/// What the menu of components does with an input.
#[derive(Debug, Clone, Copy, PartialEq, Eq, Structural)]
pub enum CombinedAction {
    Nothing,
    /// Unhighlight and redraw `from`, highlight and redraw `to`.
    MoveFocus { from: usize, to: usize },
    /// Turn the focused component right.
    Right(usize),
    /// Turn the focused component left.
    Left(usize),
    /// Run the menu's right button behaviour.
    RightButton,
    /// Run the menu's left button behaviour.
    LeftButton,
    /// Click the focused component.
    Click(usize),
}

/// The focus stays on a component.
pub open spec fn combined_wf(m: ComponentCombinedMenu) -> bool {
    0 < m.num_components <= usize::MAX / 2 && m.focused < m.num_components
}

/// The menu after an input, and what to do.
pub open spec fn spec_combined_step(m: ComponentCombinedMenu, inp: ScreenInput) -> (ComponentCombinedMenu, CombinedAction) {
    match inp {
        ScreenInput::Turn(k) => if k > 0 {
            match m.mode {
                CombinedMode::Highlight => {
                    let to = ((m.focused + 1) % (m.num_components as int)) as usize;
                    (ComponentCombinedMenu { focused: to, ..m }, CombinedAction::MoveFocus { from: m.focused, to })
                },
                CombinedMode::Focus => (m, CombinedAction::Right(m.focused)),
            }
        } else if k < 0 {
            match m.mode {
                CombinedMode::Highlight => {
                    let to = ((m.focused + m.num_components - 1) % (m.num_components as int)) as usize;
                    (ComponentCombinedMenu { focused: to, ..m }, CombinedAction::MoveFocus { from: m.focused, to })
                },
                CombinedMode::Focus => (m, CombinedAction::Left(m.focused)),
            }
        } else {
            (m, CombinedAction::Nothing)
        },
        ScreenInput::Button(ButtonType::Right, _) => (m, CombinedAction::RightButton),
        ScreenInput::Button(ButtonType::Left, _) => (m, CombinedAction::LeftButton),
        ScreenInput::Button(ButtonType::Rotenc, _) => (m, CombinedAction::Click(m.focused)),
    }
}

/// The menu after a component's signal, and the signal that ends the menu, if any.
pub open spec fn spec_combined_signal(m: ComponentCombinedMenu, sig: ComponentSignal) -> (ComponentCombinedMenu, Option<MenuSignal>) {
    match sig {
        ComponentSignal::Focus => (ComponentCombinedMenu { mode: CombinedMode::Focus, ..m }, None),
        ComponentSignal::Unfocus => (ComponentCombinedMenu { mode: CombinedMode::Highlight, ..m }, None),
        ComponentSignal::MenuSignal(s) => (m, Some(s)),
        ComponentSignal::Nothing => (m, None),
    }
}

impl ComponentCombinedMenu {
    /// The menu of `n` components: focus on the first, highlighting when there are several.
    pub fn new(n: usize) -> (m: ComponentCombinedMenu)
        requires
            0 < n <= usize::MAX / 2,
        ensures
            combined_wf(m),
            m.num_components == n,
            m.focused == 0,
            m.mode == if n > 1 { CombinedMode::Highlight } else { CombinedMode::Focus },
    {
        ComponentCombinedMenu { num_components: n, focused: 0, mode: if n > 1 { CombinedMode::Highlight } else { CombinedMode::Focus } }
    }

    /// A clockwise turn highlights the next component (or turns the focused one right), an
    /// anticlockwise one the previous; the buttons run the menu's behaviours or click.
    pub fn step(&mut self, inp: ScreenInput) -> (a: CombinedAction)
        requires
            combined_wf(*old(self)),
        ensures
            (*final(self), a) == spec_combined_step(*old(self), inp),
            combined_wf(*final(self)),
    {
        match inp {
            ScreenInput::Turn(k) => {
                if k > 0 {
                    match self.mode {
                        CombinedMode::Highlight => {
                            let from = self.focused;
                            self.focused = (self.focused + 1) % self.num_components;
                            CombinedAction::MoveFocus { from, to: self.focused }
                        },
                        CombinedMode::Focus => CombinedAction::Right(self.focused),
                    }
                } else if k < 0 {
                    match self.mode {
                        CombinedMode::Highlight => {
                            let from = self.focused;
                            self.focused = (self.focused + self.num_components - 1) % self.num_components;
                            CombinedAction::MoveFocus { from, to: self.focused }
                        },
                        CombinedMode::Focus => CombinedAction::Left(self.focused),
                    }
                } else {
                    CombinedAction::Nothing
                }
            },
            ScreenInput::Button(ButtonType::Right, _) => CombinedAction::RightButton,
            ScreenInput::Button(ButtonType::Left, _) => CombinedAction::LeftButton,
            ScreenInput::Button(ButtonType::Rotenc, _) => CombinedAction::Click(self.focused),
        }
    }

    /// Takes a component's signal: focus and unfocus switch the mode, a menu signal ends the
    /// menu with it.
    pub fn on_signal(&mut self, sig: ComponentSignal) -> (s: Option<MenuSignal>)
        requires
            combined_wf(*old(self)),
        ensures
            (*final(self), s) == spec_combined_signal(*old(self), sig),
            combined_wf(*final(self)),
    {
        match sig {
            ComponentSignal::Focus => {
                self.mode = CombinedMode::Focus;
                None
            },
            ComponentSignal::Unfocus => {
                self.mode = CombinedMode::Highlight;
                None
            },
            ComponentSignal::MenuSignal(s) => Some(s),
            ComponentSignal::Nothing => None,
        }
    }
}

} // verus!
