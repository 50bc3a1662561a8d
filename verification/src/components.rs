//! The components of a component menu: what each kind is defined by, the state it is in while
//! the menu is shown, and how that state starts.
use vstd::prelude::*;
use crate::font::FontSize;
use crate::handlers::{
    generic_ok, spec_color_get, spec_generic, spec_text_get, ColorGetter, ColorSelector, ColorSubmitHandler, GenericHandler, HandlerStep,
    InitialValueGenerator, MenuInternalState, OptionScrollerHandler, OptionSwitchHandler, OptionSwitchState,
    OptionsGenerator, TextGetterSetter, TextSubmitHandler, ValueSelectorHandler, ValueSelectorState,
};
use crate::handlers::{ColorChannel, SliderSetMode};
use crate::lang::LanguageString;
use crate::layout::Point;
use crate::led::LedMode;
use crate::menu::{
    highlight, initial_focus, spec_highlight, spec_unhighlight, unhighlight, ComponentKind, FocusMode, InteractionType,
    ScrollerState, ValueSelector,
};
use crate::net::ServerConnection;
use crate::textbox::{TextBoxState, TextSelectorLayer, TextSelectorState};

verus! {

/// Handlers of a button.
#[derive(Debug, Clone)]
pub enum ButtonHandler {
    Generic(GenericHandler),
}

impl ButtonHandler {
    /// Runs the handler: a button only has the handlers that every component has.
    pub fn handle(&self, ms: &MenuInternalState, wifi_connected: bool) -> (st: HandlerStep)
        requires
            match *self {
                ButtonHandler::Generic(g) => generic_ok(g, *ms),
            },
        ensures
            match *self {
                ButtonHandler::Generic(g) => st == spec_generic(g, *ms, wifi_connected),
            },
    {
        match self {
            ButtonHandler::Generic(g) => g.handle(ms, wifi_connected),
        }
    }
}

/// A button: where it stands, its handlers and its text.
pub struct ButtonDefinition {
    pub pos: Point,
    pub click: ButtonHandler,
    pub left: ButtonHandler,
    pub right: ButtonHandler,
    pub font_size: FontSize,
    pub text: LanguageString,
}

/// The state of a button: whether it is highlighted.
#[derive(Debug, Clone, Copy, PartialEq, Eq, Structural)]
pub struct ButtonState {
    pub highlighted: bool,
}

/// An option switch: where it stands, its handlers and its options.
pub struct OptionSwitchDefinition {
    pub pos: Point,
    pub click: OptionSwitchHandler,
    pub left: OptionSwitchHandler,
    pub right: OptionSwitchHandler,
    pub font_size: FontSize,
    pub options: Vec<LanguageString>,
}

/// A scrolling list: where it stands, its handlers, how many options show at once, its width
/// and where its options come from.
pub struct OptionScrollerDefinition {
    pub pos: Point,
    pub click: OptionScrollerHandler,
    pub left: OptionScrollerHandler,
    pub right: OptionScrollerHandler,
    pub num_visible_elements: usize,
    pub width: u32,
    pub font_size: FontSize,
    pub options: OptionsGenerator,
}

/// A text box: where it stands, how long its text may grow, its size, the text shown while it
/// is empty, where its first text comes from and what takes the text.
pub struct TextBoxDefinition {
    pub pos: Point,
    pub max_length: usize,
    pub width: u32,
    pub preview_chars: usize,
    pub font_size: FontSize,
    pub empty_text: &'static str,
    pub initial_text: TextGetterSetter,
    pub on_submit: TextSubmitHandler,
}

/// A value selector: where it stands, its handlers, the unit shown after the value, its limits
/// and where its first value comes from.
pub struct ValueSelectorDefinition {
    pub pos: Point,
    pub click: ValueSelectorHandler,
    pub left: ValueSelectorHandler,
    pub right: ValueSelectorHandler,
    pub suffix: &'static str,
    pub font_size: FontSize,
    pub low_limit: u32,
    pub high_limit: u32,
    pub initial_value: InitialValueGenerator,
}

/// A colour selector: where its preview stands, what takes the colour, and where its first
/// colour comes from.
pub struct ColorSelectorDefinition {
    pub preview_pos: Point,
    pub preview_size: Point,
    pub left: ColorSubmitHandler,
    pub right: ColorSubmitHandler,
    pub initial_color: ColorGetter,
}

/// A component of a menu, by its definition.
pub enum ComponentDefinition {
    Button(ButtonDefinition),
    OptionSwitch(OptionSwitchDefinition),
    OptionScroller(OptionScrollerDefinition),
    TextBox(TextBoxDefinition),
    ValueSelector(ValueSelectorDefinition),
    ColorSelector(ColorSelectorDefinition),
}

/// A component of a menu while the menu is shown.
pub enum ComponentState {
    Button(ButtonState),
    OptionSwitch(OptionSwitchState),
    OptionScroller(ScrollerState),
    TextBox(TextBoxState),
    ValueSelector(ValueSelectorState),
    ColorSelector(ColorSelector),
}

/// The kind of a definition.
pub open spec fn definition_kind(d: ComponentDefinition) -> ComponentKind {
    match d {
        ComponentDefinition::Button(_) => ComponentKind::Button,
        ComponentDefinition::OptionSwitch(_) => ComponentKind::OptionSwitch,
        ComponentDefinition::OptionScroller(_) => ComponentKind::OptionScroller,
        ComponentDefinition::TextBox(_) => ComponentKind::TextBox,
        ComponentDefinition::ValueSelector(_) => ComponentKind::ValueSelector,
        ComponentDefinition::ColorSelector(_) => ComponentKind::ColorSelector,
    }
}

/// The kind of a component's state.
pub open spec fn state_kind(s: ComponentState) -> ComponentKind {
    match s {
        ComponentState::Button(_) => ComponentKind::Button,
        ComponentState::OptionSwitch(_) => ComponentKind::OptionSwitch,
        ComponentState::OptionScroller(_) => ComponentKind::OptionScroller,
        ComponentState::TextBox(_) => ComponentKind::TextBox,
        ComponentState::ValueSelector(_) => ComponentKind::ValueSelector,
        ComponentState::ColorSelector(_) => ComponentKind::ColorSelector,
    }
}

/// The state a component starts in when its menu opens: nothing highlighted, the first option
/// selected, the text, value and colour that its definition gives; a switch, value selector or
/// colour selector that is the menu's only component starts selected.
pub open spec fn construct_ok(
    d: ComponentDefinition,
    start_focused: bool,
    ms: MenuInternalState,
    server: ServerConnection,
    backlight_pct: u8,
    led_brightness: u8,
    led_mode: LedMode,
    s: ComponentState,
) -> bool {
    let focus = if start_focused { FocusMode::Selected } else { FocusMode::Unhighlighted };
    match d {
        ComponentDefinition::Button(_) => s == ComponentState::Button(ButtonState { highlighted: false }),
        ComponentDefinition::OptionSwitch(o) => s == ComponentState::OptionSwitch(
            OptionSwitchState { mode: focus, selection: 0, num_options: o.options@.len() as usize },
        ),
        ComponentDefinition::OptionScroller(o) => s == ComponentState::OptionScroller(
            ScrollerState { selection: 0, page_start: 0, num_visible: o.num_visible_elements, redraw_scrollbar: true },
        ),
        ComponentDefinition::TextBox(t) => s matches ComponentState::TextBox(b) && {
            &&& b.entry@ == spec_text_get(t.initial_text, ms, server)
            &&& b.max_length == t.max_length
            &&& !b.highlighted
            &&& !b.sub_menu_open
            &&& b.selector == (TextSelectorState { selection: 0, layer: TextSelectorLayer::Lowercase })
        },
        ComponentDefinition::ValueSelector(v) => s == ComponentState::ValueSelector(ValueSelectorState {
            value: ValueSelector {
                selection: match v.initial_value {
                    InitialValueGenerator::Const(c) => c,
                    InitialValueGenerator::BacklightBrightness => backlight_pct as u32,
                    InitialValueGenerator::LedBrightness => led_brightness as u32,
                },
                low_limit: v.low_limit,
                high_limit: v.high_limit,
            },
            mode: focus,
        }),
        ComponentDefinition::ColorSelector(c) => s == ComponentState::ColorSelector(ColorSelector {
            current_color: spec_color_get(c.initial_color, ms, led_mode),
            mode: focus,
            channel: ColorChannel::Red,
            slider_mode: SliderSetMode::ChangeChannel,
        }),
    }
}

/// The characters of a string, in order.
fn chars_of(s: &String) -> (v: Vec<char>)
    ensures
        v@ == s@,
{
    let n = s.as_str().unicode_len();
    let mut v: Vec<char> = Vec::new();
    let mut i: usize = 0;
    while i < n
        invariant
            n == s@.len(),
            i <= n,
            v@ == s@.subrange(0, i as int),
        decreases n - i,
    {
        let c = s.as_str().get_char(i);
        v.push(c);
        assert(s@.subrange(0, i + 1) =~= s@.subrange(0, i as int).push(c));
        i = i + 1;
    }
    assert(s@.subrange(0, n as int) =~= s@);
    v
}

impl ComponentDefinition {
    /// The kind of component the definition is of.
    pub fn kind(&self) -> (k: ComponentKind)
        ensures
            k == definition_kind(*self),
    {
        match self {
            ComponentDefinition::Button(_) => ComponentKind::Button,
            ComponentDefinition::OptionSwitch(_) => ComponentKind::OptionSwitch,
            ComponentDefinition::OptionScroller(_) => ComponentKind::OptionScroller,
            ComponentDefinition::TextBox(_) => ComponentKind::TextBox,
            ComponentDefinition::ValueSelector(_) => ComponentKind::ValueSelector,
            ComponentDefinition::ColorSelector(_) => ComponentKind::ColorSelector,
        }
    }

    /// How the menu treats the component: a button is clicked, the others are edited.
    pub fn interaction_type(&self) -> (t: InteractionType)
        ensures
            t == if definition_kind(*self) == ComponentKind::Button {
                InteractionType::NonEditable
            } else {
                InteractionType::Editable
            },
    {
        self.kind().interaction_type()
    }

    /// The state the component starts in when its menu opens (see [`construct_ok`]). `ms` and
    /// `server` give a text box its text; `backlight_pct` and `led_brightness` a value selector
    /// its value; `ms` and `led_mode` a colour selector its colour.
    pub fn construct(
        &self,
        start_focused: bool,
        ms: &MenuInternalState,
        server: &ServerConnection,
        backlight_pct: u8,
        led_brightness: u8,
        led_mode: LedMode,
    ) -> (s: ComponentState)
        requires
            self matches ComponentDefinition::ColorSelector(c) ==> (c.initial_color == ColorGetter::ThemeMenuCustomColor
                ==> ms is DisplaySettings),
        ensures
            construct_ok(*self, start_focused, *ms, *server, backlight_pct, led_brightness, led_mode, s),
    {
        match self {
            ComponentDefinition::Button(_) => ComponentState::Button(ButtonState { highlighted: false }),
            ComponentDefinition::OptionSwitch(o) => ComponentState::OptionSwitch(
                OptionSwitchState { mode: initial_focus(start_focused), selection: 0, num_options: o.options.len() },
            ),
            ComponentDefinition::OptionScroller(o) => ComponentState::OptionScroller(
                ScrollerState { selection: 0, page_start: 0, num_visible: o.num_visible_elements, redraw_scrollbar: true },
            ),
            ComponentDefinition::TextBox(t) => {
                let text = t.initial_text.get_owned(ms, server);
                ComponentState::TextBox(TextBoxState::new(chars_of(&text), t.max_length))
            },
            ComponentDefinition::ValueSelector(v) => ComponentState::ValueSelector(ValueSelectorState {
                value: ValueSelector {
                    selection: v.initial_value.get(backlight_pct, led_brightness),
                    low_limit: v.low_limit,
                    high_limit: v.high_limit,
                },
                mode: initial_focus(start_focused),
            }),
            ComponentDefinition::ColorSelector(c) => {
                let col = c.initial_color.get(ms, led_mode);
                let mut sel = ColorSelector::new(col);
                sel.mode = initial_focus(start_focused);
                ComponentState::ColorSelector(sel)
            },
        }
    }
}

impl ComponentState {
    /// The kind of component the state belongs to.
    pub fn kind(&self) -> (k: ComponentKind)
        ensures
            k == state_kind(*self),
    {
        match self {
            ComponentState::Button(_) => ComponentKind::Button,
            ComponentState::OptionSwitch(_) => ComponentKind::OptionSwitch,
            ComponentState::OptionScroller(_) => ComponentKind::OptionScroller,
            ComponentState::TextBox(_) => ComponentKind::TextBox,
            ComponentState::ValueSelector(_) => ComponentKind::ValueSelector,
            ComponentState::ColorSelector(_) => ComponentKind::ColorSelector,
        }
    }

    /// Moves the menu's highlight onto the component: a button, text box, value selector or
    /// colour selector is highlighted; a switch that is not highlighted becomes highlighted (a
    /// selected one stays selected); a scrolling list is not changed.
    pub fn highlight(&mut self)
        ensures
            state_kind(*final(self)) == state_kind(*old(self)),
            match (*old(self), *final(self)) {
                (ComponentState::Button(_), ComponentState::Button(b)) => b.highlighted,
                (ComponentState::OptionSwitch(a), ComponentState::OptionSwitch(b)) =>
                    b == (OptionSwitchState { mode: spec_highlight(a.mode), ..a }),
                (ComponentState::OptionScroller(a), ComponentState::OptionScroller(b)) => b == a,
                (ComponentState::TextBox(a), ComponentState::TextBox(b)) => b.highlighted && b.entry@ == a.entry@
                    && b.sub_menu_open == a.sub_menu_open && b.selector == a.selector && b.max_length == a.max_length,
                (ComponentState::ValueSelector(a), ComponentState::ValueSelector(b)) =>
                    b == (ValueSelectorState { mode: FocusMode::Highlighted, ..a }),
                (ComponentState::ColorSelector(a), ComponentState::ColorSelector(b)) =>
                    b == (ColorSelector { mode: FocusMode::Highlighted, ..a }),
                _ => false,
            },
    {
        match self {
            ComponentState::Button(b) => { b.highlighted = true; },
            ComponentState::OptionSwitch(s) => { s.mode = highlight(s.mode); },
            ComponentState::OptionScroller(_) => {},
            ComponentState::TextBox(t) => { t.highlighted = true; },
            ComponentState::ValueSelector(v) => { v.mode = FocusMode::Highlighted; },
            ComponentState::ColorSelector(c) => { c.mode = FocusMode::Highlighted; },
        }
    }

    /// Takes the menu's highlight from the component: a button, text box, value selector or
    /// colour selector loses it; a highlighted switch loses it (a selected one stays selected);
    /// a scrolling list is not changed.
    pub fn unhighlight(&mut self)
        ensures
            state_kind(*final(self)) == state_kind(*old(self)),
            match (*old(self), *final(self)) {
                (ComponentState::Button(_), ComponentState::Button(b)) => !b.highlighted,
                (ComponentState::OptionSwitch(a), ComponentState::OptionSwitch(b)) =>
                    b == (OptionSwitchState { mode: spec_unhighlight(a.mode), ..a }),
                (ComponentState::OptionScroller(a), ComponentState::OptionScroller(b)) => b == a,
                (ComponentState::TextBox(a), ComponentState::TextBox(b)) => !b.highlighted && b.entry@ == a.entry@
                    && b.sub_menu_open == a.sub_menu_open && b.selector == a.selector && b.max_length == a.max_length,
                (ComponentState::ValueSelector(a), ComponentState::ValueSelector(b)) =>
                    b == (ValueSelectorState { mode: FocusMode::Unhighlighted, ..a }),
                (ComponentState::ColorSelector(a), ComponentState::ColorSelector(b)) =>
                    b == (ColorSelector { mode: FocusMode::Unhighlighted, ..a }),
                _ => false,
            },
    {
        match self {
            ComponentState::Button(b) => { b.highlighted = false; },
            ComponentState::OptionSwitch(s) => { s.mode = unhighlight(s.mode); },
            ComponentState::OptionScroller(_) => {},
            ComponentState::TextBox(t) => { t.highlighted = false; },
            ComponentState::ValueSelector(v) => { v.mode = FocusMode::Unhighlighted; },
            ComponentState::ColorSelector(c) => { c.mode = FocusMode::Unhighlighted; },
        }
    }
}

} // verus!
