use pumpbot::handlers::{
    AccessPoint, ColorChannel, ColorGetter, ColorSelector, ColorSubmitHandler, Effect, GenericHandler,
    InitialValueGenerator, MenuInternalState, MenuInternalStateAction, OptionScrollerHandler,
    OptionSwitchHandler, OptionSwitchInitialOptionGenerator, OptionSwitchState, OptionsGenerator,
    SliderSetMode, TextGetterSetter, TextSubmitHandler, ValueSelectorHandler, ValueSelectorState,
    ButtonTextGenerator, server_connect_outcome, wifi_connect_outcome,
};
use pumpbot::lang::{Lang, LanguageString};
use pumpbot::led::LedMode;
use pumpbot::menu::{
    ComponentMenu, ComponentMenuMode, ComponentSelection, CustomMenu, FocusMode, HandlerResult,
    InteractionType, Menu, MenuAction, MenuInput, MenuNavigator, MenuOutcome, MenuSignal, ScrollerState,
    ValueSelector, handler_outcome, menu_input, next_option, prev_option, toggle_focus,
};
use pumpbot::net::{IpAddress, ServerConnection};
use pumpbot::rgb::RGB;
use pumpbot::settings::{PbGlobalSettings, Theme};

fn grey() -> RGB {
    RGB { r: 128, g: 128, b: 128 }
}

#[test]
fn navigator_transition_and_back() {
    let title = Menu::CustomMenu(CustomMenu::Title);
    let lang = Menu::ComponentMenu(ComponentMenu::Lang);
    let mut n = MenuNavigator::new(title);
    assert!(n.step(MenuSignal::Transition(lang)));
    assert_eq!(n.current, lang);
    assert!(n.step(MenuSignal::Back));
    assert_eq!(n.current, title);
    assert!(n.stack.is_empty());
    // going back from the menu at the bottom of the tree ends the loop
    assert!(!n.step(MenuSignal::Back));
    assert_eq!(n.current, title);
    assert!(!n.step(MenuSignal::Return));
}

#[test]
fn navigator_back_n() {
    let a = Menu::CustomMenu(CustomMenu::Title);
    let b = Menu::CustomMenu(CustomMenu::SetupMethod);
    let c = Menu::CustomMenu(CustomMenu::HomeMenu);
    let d = Menu::ComponentMenu(ComponentMenu::Settings);
    let mut n = MenuNavigator::new(a);
    n.step(MenuSignal::Transition(b));
    n.step(MenuSignal::Transition(c));
    n.step(MenuSignal::Transition(d));
    assert!(n.step(MenuSignal::BackN(2)));
    assert_eq!(n.current, b);
    assert_eq!(n.stack, vec![a]);
}

#[test]
fn selection_wraps_both_ways() {
    let mut s = ComponentSelection::new(3);
    assert_eq!(s.mode, ComponentMenuMode::Browse);
    s.prev_component();
    assert_eq!(s.selected_component, 2);
    s.next_component();
    assert_eq!(s.selected_component, 0);
    s.advance_component(-4);
    assert_eq!(s.selected_component, 2);
    s.advance_component(7);
    assert_eq!(s.selected_component, 0);
    assert_eq!(ComponentSelection::new(1).mode, ComponentMenuMode::Edit);
    assert_eq!(ComponentSelection::new(0).selected(), None);
}

#[test]
fn menu_input_browse_and_edit() {
    let s = ComponentSelection::new(3);
    let (t, a) = menu_input(s, Some(InteractionType::Editable), MenuInput::Rotate(2));
    assert_eq!(t.selected_component, 2);
    assert_eq!(a, MenuAction::MoveSelection { from: 0, to: 2 });
    let (t, a) = menu_input(t, Some(InteractionType::Editable), MenuInput::RotencDown);
    assert_eq!(t.mode, ComponentMenuMode::Edit);
    assert_eq!(a, MenuAction::Click(2));
    let (_, a) = menu_input(t, Some(InteractionType::Editable), MenuInput::Rotate(-1));
    assert_eq!(a, MenuAction::LeftHandle(2, -1));
    let (_, a) = menu_input(t, Some(InteractionType::Editable), MenuInput::Rotate(1));
    assert_eq!(a, MenuAction::RightHandle(2, 1));
    let (u, a) = menu_input(s, Some(InteractionType::NonEditable), MenuInput::RotencDown);
    assert_eq!(u.mode, ComponentMenuMode::Browse);
    assert_eq!(a, MenuAction::Click(0));
    assert_eq!(menu_input(s, None, MenuInput::LeftDown).1, MenuAction::LeftButton);
    assert_eq!(menu_input(s, None, MenuInput::Other).1, MenuAction::Nothing);
}

#[test]
fn handler_outcomes() {
    let mut s = ComponentSelection::new(3);
    s.mode = ComponentMenuMode::Edit;
    let (t, o) = handler_outcome(s, HandlerResult::Unfocus);
    assert_eq!(t.mode, ComponentMenuMode::Browse);
    assert_eq!(o, MenuOutcome::Continue { redraw: false });
    let (_, o) = handler_outcome(s, HandlerResult::ForceRedrawAndUnfocus);
    assert_eq!(o, MenuOutcome::Continue { redraw: true });
    let (_, o) = handler_outcome(s, HandlerResult::Back);
    assert_eq!(o, MenuOutcome::Finish(MenuSignal::Back));
    let (_, o) = handler_outcome(s, HandlerResult::ShowErrorDialogue("oops".to_string()));
    assert_eq!(o, MenuOutcome::ShowError("oops".to_string()));
    // a single component stays in edit mode
    let one = ComponentSelection::new(1);
    assert_eq!(handler_outcome(one, HandlerResult::Unfocus).0.mode, ComponentMenuMode::Edit);
}

#[test]
fn focus_toggles() {
    assert_eq!(toggle_focus(FocusMode::Highlighted), (FocusMode::Selected, HandlerResult::Idle));
    assert_eq!(toggle_focus(FocusMode::Selected), (FocusMode::Highlighted, HandlerResult::Unfocus));
    assert_eq!(toggle_focus(FocusMode::Unhighlighted).0, FocusMode::Unhighlighted);
    assert_eq!(next_option(2, 3), 0);
    assert_eq!(prev_option(0, 3), 2);
}

#[test]
fn switch_updates_language() {
    let mut s = OptionSwitchState { mode: FocusMode::Selected, selection: 8, num_options: 9 };
    let mut ms = MenuInternalState::Lang { language: 8 };
    let st = OptionSwitchHandler::NextElementUpdateLang.handle(&mut s, &mut ms, false);
    assert_eq!(s.selection, 0);
    assert!(matches!(ms, MenuInternalState::Lang { language: 0 }));
    assert!(st.redraw);
    assert_eq!(st.result, Some(HandlerResult::Idle));
    OptionSwitchHandler::PrevElementUpdateLang.handle(&mut s, &mut ms, false);
    assert!(matches!(ms, MenuInternalState::Lang { language: 8 }));
}

#[test]
fn switch_sets_theme_when_let_go() {
    let mut s = OptionSwitchState { mode: FocusMode::Selected, selection: 2, num_options: 3 };
    let c = RGB { r: 1, g: 2, b: 3 };
    let mut ms = MenuInternalState::DisplaySettings { theme_custom_col: c };
    let st = OptionSwitchHandler::ToggleFocusAndSetTheme.handle(&mut s, &mut ms, false);
    assert_eq!(s.mode, FocusMode::Highlighted);
    assert!(matches!(st.effect, Effect::SetTheme(Theme::Custom(x)) if x == c));
    assert_eq!(st.result, Some(HandlerResult::ForceRedrawAndUnfocus));
    // taking focus sets nothing
    let st = OptionSwitchHandler::ToggleFocusAndSetTheme.handle(&mut s, &mut ms, false);
    assert_eq!(s.mode, FocusMode::Selected);
    assert!(matches!(st.effect, Effect::Nothing));
}

#[test]
fn switch_sets_led_mode_with_colors() {
    let p = RGB { r: 10, g: 0, b: 0 };
    let q = RGB { r: 0, g: 20, b: 0 };
    let mut s = OptionSwitchState { mode: FocusMode::Selected, selection: 2, num_options: 4 };
    let mut ms = MenuInternalState::RgbMenu { mode: LedMode::Off, primary_col: p, secondary_col: q };
    let st = OptionSwitchHandler::ToggleFocusAndSetRGB.handle(&mut s, &mut ms, false);
    assert!(matches!(st.effect, Effect::SetLedMode(LedMode::Fade(a, b)) if a == p && b == q));
    assert!(matches!(ms, MenuInternalState::RgbMenu { mode: LedMode::Fade(_, _), .. }));
    assert_eq!(st.result, Some(HandlerResult::Unfocus));
}

#[test]
fn generic_handlers() {
    let mut ms = MenuInternalState::Lang { language: 2 };
    let target = Menu::CustomMenu(CustomMenu::SetupMethod);
    let st = GenericHandler::SetLanguageAndTransition(target).handle(&ms, false);
    assert!(matches!(st.effect, Effect::SetLang(Lang::Fr)));
    assert_eq!(st.result, Some(HandlerResult::Transition(target)));
    ms = MenuInternalState::WifiDetails { ap: AccessPoint { ssid: "net".to_string(), auth_method: None }, pass: "pw".to_string() };
    let st = GenericHandler::ConnectDisconnectWifi.handle(&ms, false);
    assert!(matches!(&st.effect, Effect::ConnectWifi(a, b) if a == "net" && b == "pw"));
    assert_eq!(st.result, None);
    let st = GenericHandler::ConnectDisconnectWifi.handle(&ms, true);
    assert!(matches!(st.effect, Effect::DisconnectWifi));
    let st = GenericHandler::Signal(HandlerResult::Back).handle(&ms, false);
    assert_eq!(st.result, Some(HandlerResult::Back));
    assert_eq!(GenericHandler::Print("hi").handle(&ms, false).result, Some(HandlerResult::Idle));
}

#[test]
fn connection_outcomes() {
    assert_eq!(wifi_connect_outcome(Ok(())), HandlerResult::Transition(Menu::ComponentMenu(ComponentMenu::ServerDetails)));
    assert_eq!(
        wifi_connect_outcome(Err("timeout".to_string())),
        HandlerResult::ShowErrorDialogue("Failed to connect to Wifi!\n\nError:\ntimeout".to_string())
    );
    assert_eq!(server_connect_outcome(true), HandlerResult::Transition(Menu::ComponentMenu(ComponentMenu::DisplaySettings)));
    assert_eq!(server_connect_outcome(false), HandlerResult::ShowErrorDialogue("Pb failed to connect\nto the server!".to_string()));
}

#[test]
fn value_selector_limits_and_brightness() {
    let mut s = ValueSelectorState { value: ValueSelector { selection: 99, low_limit: 0, high_limit: 100 }, mode: FocusMode::Selected };
    let ms = MenuInternalState::Settings;
    let st = ValueSelectorHandler::IncrementBrightness.handle(&mut s, &ms, false);
    assert_eq!(s.value.selection, 100);
    assert!(matches!(st.effect, Effect::SetBacklightPct(100)));
    let st = ValueSelectorHandler::IncrementBrightness.handle(&mut s, &ms, false);
    assert_eq!(s.value.selection, 100);
    assert!(!st.redraw);
    ValueSelectorHandler::Decrement(30).handle(&mut s, &ms, false);
    assert_eq!(s.value.selection, 70);
    let st = ValueSelectorHandler::IncrementLedBrightness.handle(&mut s, &ms, false);
    assert!(matches!(st.effect, Effect::SetLedBrightness(71)));
    s.value.selection = 0;
    let st = ValueSelectorHandler::Decrement(5).handle(&mut s, &ms, false);
    assert_eq!(s.value.selection, 0);
    assert!(!st.redraw);
    let st = ValueSelectorHandler::ToggleFocus.handle(&mut s, &ms, false);
    assert_eq!(st.result, Some(HandlerResult::Unfocus));
}

#[test]
fn scroller_handlers() {
    let mut s = ScrollerState { selection: 0, page_start: 0, num_visible: 4, redraw_scrollbar: false };
    let mut ms = MenuInternalState::Wifi;
    for _ in 0..3 {
        OptionScrollerHandler::NextOption.handle(&mut s, &mut ms, 10, None, false);
    }
    assert_eq!(s.selection, 3);
    assert_eq!(s.page_start, 1);
    assert!(s.redraw_scrollbar);
    let st = OptionScrollerHandler::SetMenuState(MenuInternalStateAction::SetWifi).handle(&mut s, &mut ms, 10, None, false);
    assert_eq!(st.result, Some(HandlerResult::Transition(Menu::ComponentMenu(ComponentMenu::WifiDetails(3)))));
    let targets = vec![Menu::CustomMenu(CustomMenu::HomeMenu); 10];
    let st = OptionScrollerHandler::TransitionToMenu.handle(&mut s, &mut ms, 10, Some(&targets), false);
    assert_eq!(st.result, Some(HandlerResult::Transition(Menu::CustomMenu(CustomMenu::HomeMenu))));
    let mut lm = MenuInternalState::Lang { language: 0 };
    OptionScrollerHandler::SetMenuState(MenuInternalStateAction::SetLang).handle(&mut s, &mut lm, 10, None, false);
    assert!(matches!(lm, MenuInternalState::Lang { language: 3 }));
}

#[test]
fn color_getters_and_submits() {
    let c = RGB { r: 5, g: 6, b: 7 };
    let ms = MenuInternalState::DisplaySettings { theme_custom_col: c };
    assert_eq!(ColorGetter::ThemeMenuCustomColor.get(&ms, LedMode::Off), c);
    assert_eq!(ColorGetter::LedPrimaryColor.get(&ms, LedMode::Rainbow), grey());
    assert_eq!(ColorGetter::LedSecondaryColor.get(&ms, LedMode::Fade(c, RGB { r: 1, g: 1, b: 1 })), RGB { r: 1, g: 1, b: 1 });

    let mut ms = MenuInternalState::DisplaySettings { theme_custom_col: grey() };
    let st = ColorSubmitHandler::SetThemeMenuColor.handle(c, &mut ms, Theme::Custom(grey()), false);
    assert!(matches!(st.effect, Effect::SetTheme(Theme::Custom(x)) if x == c));
    let st = ColorSubmitHandler::SetThemeMenuColor.handle(c, &mut ms, Theme::Dark, false);
    assert!(matches!(st.effect, Effect::Nothing));

    let mut rm = MenuInternalState::RgbMenu { mode: LedMode::Solid(grey()), primary_col: grey(), secondary_col: grey() };
    let st = ColorSubmitHandler::SetLedPrimaryColor.handle(c, &mut rm, Theme::Dark, false);
    assert!(matches!(st.effect, Effect::SetLedMode(LedMode::Solid(x)) if x == c));
    let st = ColorSubmitHandler::SetLedSecondaryColor.handle(c, &mut rm, Theme::Dark, false);
    assert!(matches!(st.effect, Effect::Nothing));
    assert!(matches!(rm, MenuInternalState::RgbMenu { secondary_col, .. } if secondary_col == c));
}

#[test]
fn color_selector_editing() {
    let mut s = ColorSelector::new(RGB { r: 254, g: 0, b: 0 });
    s.mode = FocusMode::Highlighted;
    assert_eq!(s.click(), HandlerResult::Idle);
    assert_eq!(s.mode, FocusMode::Selected);
    assert_eq!(s.click(), HandlerResult::Idle);
    assert_eq!(s.slider_mode, SliderSetMode::ModifyChannel);
    s.turn(true);
    s.turn(true);
    assert_eq!(s.current_color.r, 255);
    s.click();
    s.turn(false);
    assert_eq!(s.channel, ColorChannel::Done);
    assert_eq!(s.click(), HandlerResult::ForceRedrawAndUnfocus);
    assert_eq!(s.mode, FocusMode::Highlighted);
}

#[test]
fn text_submits() {
    let mut ms = MenuInternalState::ServerDetails { ip: IpAddress::Ipv4([10, 0, 0, 1]), port: 80 };
    let mut entry = "8080".to_string();
    TextSubmitHandler::SetServerPort.handle(&mut entry, &mut ms, None);
    assert!(matches!(ms, MenuInternalState::ServerDetails { port: 8080, .. }));
    let mut bad = "80a".to_string();
    TextSubmitHandler::SetServerPort.handle(&mut bad, &mut ms, None);
    assert_eq!(bad, "8080");
    let mut ip = "nonsense".to_string();
    TextSubmitHandler::SetServerIP.handle(&mut ip, &mut ms, None);
    assert_eq!(ip, "10.0.0.1");
    TextSubmitHandler::SetServerIP.handle(&mut ip, &mut ms, Some(IpAddress::Ipv4([192, 168, 1, 2])));
    assert!(matches!(ms, MenuInternalState::ServerDetails { ip: IpAddress::Ipv4([192, 168, 1, 2]), .. }));

    let mut wm = MenuInternalState::WifiDetails { ap: AccessPoint::blank(), pass: String::new() };
    let mut name = "home".to_string();
    TextSubmitHandler::SetWifiSSID.handle(&mut name, &mut wm, None);
    let mut pw = "secret".to_string();
    TextSubmitHandler::SetWifiPassword.handle(&mut pw, &mut wm, None);
    assert!(matches!(&wm, MenuInternalState::WifiDetails { ap, pass } if ap.ssid == "home" && pass == "secret"));
}

#[test]
fn generators() {
    assert_eq!(InitialValueGenerator::BacklightBrightness.get(40, 7), 40);
    assert_eq!(InitialValueGenerator::Const(3).get(40, 7), 3);
    let wm = MenuInternalState::WifiDetails { ap: AccessPoint { ssid: String::new(), auth_method: Some(4) }, pass: String::new() };
    assert_eq!(OptionSwitchInitialOptionGenerator::WifiAuthMethod(vec![0, 3, 4, 4]).generate(&wm, LedMode::Off), 2);
    assert_eq!(OptionSwitchInitialOptionGenerator::WifiAuthMethod(vec![0, 3]).generate(&wm, LedMode::Off), 0);
    let rm = MenuInternalState::RgbMenu { mode: LedMode::Off, primary_col: grey(), secondary_col: grey() };
    assert_eq!(OptionSwitchInitialOptionGenerator::RGBMode.generate(&rm, LedMode::Rainbow), 3);
    assert_eq!(ButtonTextGenerator::WifiConnectDisconnect.generate(Lang::En, true), "Disconnect");
    assert_eq!(ButtonTextGenerator::WifiConnectDisconnect.generate(Lang::De, false), "Verbinden");
    let ls = LanguageString::const_string("same");
    assert_eq!(ButtonTextGenerator::LangStr(ls).generate(Lang::Jp, false), "same");
}

#[test]
fn options_generators() {
    let ssids = vec!["a".to_string(), "b".to_string()];
    let out = OptionsGenerator::WifiGenerator.generate(Lang::En, &ssids);
    assert_eq!(out, vec!["a".to_string(), "b".to_string(), "<Custom>".to_string()]);
    let out = OptionsGenerator::Const(vec!["x", "y"]).generate(Lang::Fr, &ssids);
    assert_eq!(out, vec!["x".to_string(), "y".to_string()]);
    let m = Menu::CustomMenu(CustomMenu::HomeMenu);
    let g = OptionsGenerator::Menus(vec![(LanguageString::const_string("Home"), m)]);
    assert_eq!(g.generate(Lang::Es, &ssids), vec!["Home".to_string()]);
    assert_eq!(g.targets(), Some(vec![m]));
}

#[test]
fn text_getters() {
    let server = ServerConnection { server_ip: IpAddress::Ipv4([1, 2, 3, 4]), server_port: 443 };
    let ms = MenuInternalState::Settings;
    assert_eq!(TextGetterSetter::ServerIP.get_owned(&ms, &server), "1.2.3.4");
    assert_eq!(TextGetterSetter::ServerPort.get_owned(&ms, &server), "443");
    assert_eq!(TextGetterSetter::WifiMenuPassword.get_owned(&ms, &server), "");
    assert_eq!(TextGetterSetter::WifiMenuSSIDName.get_owned(&ms, &server), "illegal TextGetterSetter");
    assert_eq!(TextGetterSetter::Const("abc").get_owned(&ms, &server), "abc");
}

#[test]
fn initial_states() {
    let mut st = PbGlobalSettings::new();
    st.lang = Lang::Es;
    st.theme = Theme::Custom(RGB { r: 9, g: 9, b: 9 });
    let wifis = vec![AccessPoint { ssid: "x".to_string(), auth_method: Some(1) }];
    let server = ServerConnection::new();
    assert!(matches!(ComponentMenu::Lang.initial_state(&st, &wifis, &server), MenuInternalState::Lang { language: 3 }));
    assert!(matches!(ComponentMenu::DisplaySettings.initial_state(&st, &wifis, &server),
        MenuInternalState::DisplaySettings { theme_custom_col } if theme_custom_col == RGB { r: 9, g: 9, b: 9 }));
    assert!(matches!(ComponentMenu::WifiDetails(0).initial_state(&st, &wifis, &server),
        MenuInternalState::WifiDetails { ap, .. } if ap.ssid == "x"));
    assert!(matches!(ComponentMenu::WifiDetails(5).initial_state(&st, &wifis, &server),
        MenuInternalState::WifiDetails { ap, .. } if ap.ssid.is_empty() && ap.auth_method.is_none()));
    assert!(matches!(ComponentMenu::PwmWizard.initial_state(&st, &wifis, &server),
        MenuInternalState::PwmWizard { voltage: 12, .. }));
    st.theme = Theme::Dark;
    assert!(matches!(ComponentMenu::DisplaySettings.initial_state(&st, &wifis, &server),
        MenuInternalState::DisplaySettings { theme_custom_col } if theme_custom_col == grey()));
}
