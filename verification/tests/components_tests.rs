use pumpbot::components::{
    ButtonDefinition, ButtonHandler, ButtonState, ColorSelectorDefinition, ComponentDefinition, ComponentState,
    OptionScrollerDefinition, OptionSwitchDefinition, TextBoxDefinition, ValueSelectorDefinition,
};
use pumpbot::font::FontSize;
use pumpbot::handlers::{
    AccessPoint, StationConfig, AUTH_NONE,
    ColorChannel, ColorGetter, ColorSubmitHandler, GenericHandler, InitialValueGenerator, MenuInternalState,
    OptionScrollerHandler, OptionSwitchHandler, OptionsGenerator, SliderSetMode, TextGetterSetter, TextSubmitHandler,
    ValueSelectorHandler,
};
use pumpbot::lang::LanguageString;
use pumpbot::layout::Point;
use pumpbot::led::LedMode;
use pumpbot::menu::{ComponentKind, FocusMode, InteractionType};
use pumpbot::net::{IpAddress, ServerConnection};
use pumpbot::rgb::RGB;
use pumpbot::textbox::TextSelectorLayer;

fn origin() -> Point {
    Point { x: 0, y: 0 }
}

fn construct(d: &ComponentDefinition, focused: bool) -> ComponentState {
    let server = ServerConnection { server_ip: IpAddress::Ipv4([10, 0, 0, 7]), server_port: 8080 };
    d.construct(focused, &MenuInternalState::Settings, &server, 40, 200, LedMode::Solid(RGB { r: 1, g: 2, b: 3 }))
}

fn button() -> ComponentDefinition {
    ComponentDefinition::Button(ButtonDefinition {
        pos: origin(),
        click: ButtonHandler::Generic(GenericHandler::Print("click")),
        left: ButtonHandler::Generic(GenericHandler::Print("left")),
        right: ButtonHandler::Generic(GenericHandler::Print("right")),
        font_size: FontSize::Sz14,
        text: LanguageString::const_string("OK"),
    })
}

fn switch() -> ComponentDefinition {
    ComponentDefinition::OptionSwitch(OptionSwitchDefinition {
        pos: origin(),
        click: OptionSwitchHandler::ToggleFocus,
        left: OptionSwitchHandler::PrevElement,
        right: OptionSwitchHandler::NextElement,
        font_size: FontSize::Sz14,
        options: vec![LanguageString::const_string("a"), LanguageString::const_string("b"), LanguageString::const_string("c")],
    })
}

fn value_selector() -> ComponentDefinition {
    ComponentDefinition::ValueSelector(ValueSelectorDefinition {
        pos: origin(),
        click: ValueSelectorHandler::ToggleFocus,
        left: ValueSelectorHandler::Increment(1),
        right: ValueSelectorHandler::Increment(1),
        suffix: "%",
        font_size: FontSize::Sz14,
        low_limit: 5,
        high_limit: 100,
        initial_value: InitialValueGenerator::BacklightBrightness,
    })
}

fn color_selector() -> ComponentDefinition {
    ComponentDefinition::ColorSelector(ColorSelectorDefinition {
        preview_pos: origin(),
        preview_size: Point { x: 20, y: 20 },
        left: ColorSubmitHandler::SetLedPrimaryColor,
        right: ColorSubmitHandler::SetLedPrimaryColor,
        initial_color: ColorGetter::LedPrimaryColor,
    })
}

#[test]
fn construct_button_and_switch() {
    match construct(&button(), true) {
        ComponentState::Button(b) => assert_eq!(b, ButtonState { highlighted: false }),
        _ => panic!("wrong kind"),
    }
    match construct(&switch(), false) {
        ComponentState::OptionSwitch(s) => {
            assert_eq!(s.mode, FocusMode::Unhighlighted);
            assert_eq!(s.selection, 0);
            assert_eq!(s.num_options, 3);
        },
        _ => panic!("wrong kind"),
    }
    match construct(&switch(), true) {
        ComponentState::OptionSwitch(s) => assert_eq!(s.mode, FocusMode::Selected),
        _ => panic!("wrong kind"),
    }
}

#[test]
fn construct_scroller_and_text_box() {
    let scroller = ComponentDefinition::OptionScroller(OptionScrollerDefinition {
        pos: origin(),
        click: OptionScrollerHandler::PrintSelection,
        left: OptionScrollerHandler::PrevOption,
        right: OptionScrollerHandler::NextOption,
        num_visible_elements: 4,
        width: 100,
        font_size: FontSize::Sz14,
        options: OptionsGenerator::Const(vec!["x", "y"]),
    });
    match construct(&scroller, true) {
        ComponentState::OptionScroller(s) => {
            assert_eq!((s.selection, s.page_start, s.num_visible, s.redraw_scrollbar), (0, 0, 4, true));
        },
        _ => panic!("wrong kind"),
    }
    let text = ComponentDefinition::TextBox(TextBoxDefinition {
        pos: origin(),
        max_length: 15,
        width: 100,
        preview_chars: 8,
        font_size: FontSize::Sz14,
        empty_text: "...",
        initial_text: TextGetterSetter::ServerIP,
        on_submit: TextSubmitHandler::SetServerIP,
    });
    match construct(&text, false) {
        ComponentState::TextBox(t) => {
            assert_eq!(t.entry.iter().collect::<String>(), "10.0.0.7");
            assert_eq!(t.max_length, 15);
            assert!(!t.highlighted);
            assert!(!t.sub_menu_open);
            assert_eq!(t.selector.selection, 0);
            assert_eq!(t.selector.layer, TextSelectorLayer::Lowercase);
        },
        _ => panic!("wrong kind"),
    }
    let accented = ComponentDefinition::TextBox(TextBoxDefinition {
        pos: origin(),
        max_length: 15,
        width: 100,
        preview_chars: 8,
        font_size: FontSize::Sz14,
        empty_text: "...",
        initial_text: TextGetterSetter::Const("café"),
        on_submit: TextSubmitHandler::SetWifiSSID,
    });
    match construct(&accented, false) {
        ComponentState::TextBox(t) => assert_eq!(t.entry, vec!['c', 'a', 'f', 'é']),
        _ => panic!("wrong kind"),
    }
}

#[test]
fn construct_selectors() {
    match construct(&value_selector(), false) {
        ComponentState::ValueSelector(v) => {
            assert_eq!(v.value.selection, 40);
            assert_eq!((v.value.low_limit, v.value.high_limit), (5, 100));
            assert_eq!(v.mode, FocusMode::Unhighlighted);
        },
        _ => panic!("wrong kind"),
    }
    match construct(&color_selector(), true) {
        ComponentState::ColorSelector(c) => {
            assert_eq!(c.current_color, RGB { r: 1, g: 2, b: 3 });
            assert_eq!(c.mode, FocusMode::Selected);
            assert_eq!(c.channel, ColorChannel::Red);
            assert_eq!(c.slider_mode, SliderSetMode::ChangeChannel);
        },
        _ => panic!("wrong kind"),
    }
}

#[test]
fn definition_kinds_and_interaction() {
    assert_eq!(button().kind(), ComponentKind::Button);
    assert_eq!(button().interaction_type(), InteractionType::NonEditable);
    assert_eq!(switch().interaction_type(), InteractionType::Editable);
    assert_eq!(value_selector().kind(), ComponentKind::ValueSelector);
    assert_eq!(construct(&color_selector(), false).kind(), ComponentKind::ColorSelector);
}

#[test]
fn highlight_and_unhighlight_components() {
    let mut b = construct(&button(), false);
    b.highlight();
    assert!(matches!(b, ComponentState::Button(ButtonState { highlighted: true })));
    b.unhighlight();
    assert!(matches!(b, ComponentState::Button(ButtonState { highlighted: false })));

    // a selected switch keeps its selection when the highlight passes over it
    let mut s = construct(&switch(), true);
    s.unhighlight();
    assert!(matches!(s, ComponentState::OptionSwitch(ref st) if st.mode == FocusMode::Selected));
    let mut s = construct(&switch(), false);
    s.highlight();
    assert!(matches!(s, ComponentState::OptionSwitch(ref st) if st.mode == FocusMode::Highlighted));

    // a value selector is highlighted whatever its mode
    let mut v = construct(&value_selector(), true);
    v.highlight();
    assert!(matches!(v, ComponentState::ValueSelector(ref st) if st.mode == FocusMode::Highlighted));
    v.unhighlight();
    assert!(matches!(v, ComponentState::ValueSelector(ref st) if st.mode == FocusMode::Unhighlighted));
}

#[test]
fn slider_positions() {
    assert_eq!(ColorChannel::Red.slider_x_pos(), 19);
    assert_eq!(ColorChannel::Green.slider_x_pos(), 49);
    assert_eq!(ColorChannel::Blue.slider_x_pos(), 79);
}

#[test]
fn station_config_drops_password_of_open_network() {
    let open = AccessPoint { ssid: "cafe".to_string(), auth_method: None };
    assert_eq!(
        open.station_config("secret"),
        StationConfig { ssid: "cafe".to_string(), password: None, auth_method: AUTH_NONE }
    );
    let open0 = AccessPoint { ssid: "cafe".to_string(), auth_method: Some(0) };
    assert_eq!(open0.station_config("secret").password, None);
    let wpa = AccessPoint { ssid: "home".to_string(), auth_method: Some(3) };
    assert_eq!(
        wpa.station_config("secret"),
        StationConfig { ssid: "home".to_string(), password: Some("secret".to_string()), auth_method: 3 }
    );
}
