use pumpbot::layout::Point;
use pumpbot::pwm::PwmPinState;
use pumpbot::rgb::RGB;
use pumpbot::settings::Theme;
use pumpbot::button::ButtonEventKind;
use pumpbot::lang::Lang;
use pumpbot::menu::{ComponentMenu, Menu, MenuSignal};
use pumpbot::pwm::{Command, PwmAction, PwmNumber};
use pumpbot::screens::{
    percentage_text, BData, ButtonType, CombinedAction, CombinedMode, ComponentCombinedMenu, ComponentMenuError,
    ComponentSignal, HomeAction, HomeInput, HomeMenu, LanguageAction, LanguageState, MenuSelection,
    OutputCtl, RData, ScreenInput, SetupAction, SetupMethodState, TitleState, LANGUAGE_TIMEOUT_MS, TITLE_PERIOD_MS,
};
use pumpbot::wizard::{
    channel_label, element_type, voltage_label, ChannelState, MenuElementType, PwmMode, PwmWizardState, WizardAction,
    WizardMode, DEFAULT_VOLTAGE,
};

fn down(b: ButtonType) -> ScreenInput {
    ScreenInput::Button(b, ButtonEventKind::Down)
}

#[test]
fn title_cycles_languages_without_russian() {
    let mut t = TitleState::new();
    let mut seen = vec![];
    for _ in 0..9 {
        seen.push(t.next_frame());
    }
    assert_eq!(seen[0], Lang::En);
    assert_eq!(seen[6], Lang::Cn);
    assert_eq!(seen[7], Lang::De);
    assert_eq!(seen[8], Lang::En);
    assert!(!seen.contains(&Lang::Ru));
    assert_eq!(TitleState::on_button(ButtonType::Rotenc), Some(MenuSignal::Transition(Menu::ComponentMenu(ComponentMenu::Lang))));
    assert_eq!(TitleState::on_button(ButtonType::Left), None);
}

#[test]
fn setup_method_moves_and_finishes() {
    let mut s = SetupMethodState::new();
    assert_eq!(s.step(ScreenInput::Turn(1)), SetupAction::Redraw { selection: 1, cursor_y: 57, cursor_width: 44 });
    assert_eq!(s.step(ScreenInput::Turn(-3)), SetupAction::Redraw { selection: 0, cursor_y: 47, cursor_width: 34 });
    assert_eq!(s.step(ScreenInput::Turn(0)), SetupAction::Nothing);
    // the right button confirms the highlighted choice
    assert_eq!(s.step(down(ButtonType::Right)), SetupAction::StartWifiSetup);
    assert_eq!(s.step(ScreenInput::Turn(1)), SetupAction::Redraw { selection: 1, cursor_y: 57, cursor_width: 44 });
    assert_eq!(s.step(down(ButtonType::Right)),
        SetupAction::Finish(MenuSignal::Transition(Menu::ComponentMenu(ComponentMenu::Wifi))));
    assert_eq!(s.step(down(ButtonType::Left)), SetupAction::Finish(MenuSignal::Back));
    assert_eq!(s.step(ScreenInput::Button(ButtonType::Left, ButtonEventKind::Up)), SetupAction::Nothing);
}

#[test]
fn language_menu() {
    let mut s = LanguageState::new(Lang::En);
    assert_eq!(s.step(ScreenInput::Turn(-1)), LanguageAction::Redraw(Lang::De));
    assert_eq!(s.step(ScreenInput::Turn(1)), LanguageAction::Redraw(Lang::En));
    assert_eq!(s.step(ScreenInput::Button(ButtonType::Right, ButtonEventKind::Up)),
        LanguageAction::SaveAndGo(Lang::En, MenuSelection::SetupMethodMenu));
    assert_eq!(s.step(down(ButtonType::Left)), LanguageAction::Go(MenuSelection::TitleMenu));
    // the encoder's button selects the language shown, and the screen changes to it
    assert_eq!(s.step(ScreenInput::Turn(1)), LanguageAction::Redraw(Lang::Jp));
    assert_eq!(s.screen_lang, Lang::En);
    assert_eq!(s.step(down(ButtonType::Rotenc)), LanguageAction::Select(Lang::Jp));
    assert_eq!(s.screen_lang, Lang::Jp);
    assert_eq!(s.step(ScreenInput::Button(ButtonType::Rotenc, ButtonEventKind::Up)), LanguageAction::Nothing);
}

#[test]
fn home_menu_channel_and_duty() {
    let mut h = HomeMenu::new();
    assert_eq!(h.selected_channel, PwmNumber::Pwm0);
    // the encoder's button switches the controlled channel
    assert_eq!(h.step(HomeInput::Screen(down(ButtonType::Rotenc))), HomeAction::RedrawAll);
    assert_eq!(h.selected_channel, PwmNumber::Pwm1);
    // clockwise raises the duty, anticlockwise lowers it
    assert_eq!(h.step(HomeInput::Screen(ScreenInput::Turn(300))),
        HomeAction::Send(Command { action: PwmAction::IncDutyPct(PwmNumber::Pwm1, 255), time: 0 }));
    assert_eq!(h.step(HomeInput::Screen(ScreenInput::Turn(-3))),
        HomeAction::Send(Command { action: PwmAction::DecDutyPct(PwmNumber::Pwm1, 3), time: 0 }));
    assert_eq!(h.step(HomeInput::Screen(down(ButtonType::Left))),
        HomeAction::SendAwaitAndRedraw(Command { action: PwmAction::Toggle(PwmNumber::Pwm1), time: 0 }));
    assert_eq!(h.step(HomeInput::Screen(down(ButtonType::Right))),
        HomeAction::Finish(MenuSignal::Transition(Menu::ComponentMenu(ComponentMenu::Settings))));
    assert_eq!(h.step(HomeInput::PwmResult), HomeAction::RedrawAll);
    assert_eq!(h.step(HomeInput::Screen(down(ButtonType::Rotenc))), HomeAction::RedrawAll);
    assert_eq!(h.selected_channel, PwmNumber::Pwm0);
    assert_eq!(percentage_text(57), "57%");
}

#[test]
fn title_changes_language_after_period() {
    let mut t = TitleState::new();
    assert_eq!(TITLE_PERIOD_MS, 5000);
    assert_eq!(t.tick(4000), None);
    assert_eq!(t.cur_lang, Lang::En);
    assert_eq!(t.tick(999), None);
    assert_eq!(t.tick(1), Some(Lang::Jp));
    assert_eq!(t.shown_ms, 0);
    assert_eq!(t.tick(u64::MAX), Some(Lang::Fr));
}

#[test]
fn language_menu_times_out() {
    let mut s = LanguageState::new(Lang::En);
    assert_eq!(LANGUAGE_TIMEOUT_MS, 30000);
    assert_eq!(s.tick(29000), LanguageAction::Nothing);
    // an input starts the wait afresh
    assert_eq!(s.step(ScreenInput::Turn(1)), LanguageAction::Redraw(Lang::Jp));
    assert_eq!(s.tick(29000), LanguageAction::Nothing);
    assert_eq!(s.tick(1000), LanguageAction::Go(MenuSelection::TitleMenu));
}

#[test]
fn combined_menu() {
    let mut m = ComponentCombinedMenu::new(3);
    assert_eq!(m.mode, CombinedMode::Highlight);
    assert_eq!(m.step(ScreenInput::Turn(-1)), CombinedAction::MoveFocus { from: 0, to: 2 });
    assert_eq!(m.step(down(ButtonType::Rotenc)), CombinedAction::Click(2));
    assert_eq!(m.on_signal(ComponentSignal::Focus), None);
    assert_eq!(m.step(ScreenInput::Turn(4)), CombinedAction::Right(2));
    assert_eq!(m.on_signal(ComponentSignal::MenuSignal(MenuSignal::Back)), Some(MenuSignal::Back));
    assert_eq!(ComponentCombinedMenu::new(1).mode, CombinedMode::Focus);
    assert_eq!(ComponentMenuError::Error.message(), "Error!");
}

#[test]
fn simulator_data() {
    assert_eq!(BData { pin: 4 }.pin, 4);
    assert_eq!(RData {}, RData {});
    assert_eq!(OutputCtl::new(), OutputCtl {});
}

#[test]
fn wizard_browse_wraps() {
    let mut w = PwmWizardState::new();
    assert_eq!(w.voltage, DEFAULT_VOLTAGE);
    assert_eq!(w.step(ScreenInput::Turn(-1), 16383), WizardAction::RedrawTwo(0, 4));
    assert_eq!(w.step(ScreenInput::Turn(7), 16383), WizardAction::RedrawTwo(4, 1));
    assert_eq!(element_type(1), MenuElementType::Voltage);
}

#[test]
fn wizard_voltage_stays_in_range() {
    let mut w = PwmWizardState::new();
    w.step(ScreenInput::Turn(1), 16383);
    assert_eq!(w.step(down(ButtonType::Rotenc), 16383), WizardAction::Redraw(1));
    assert_eq!(w.mode, WizardMode::Edit);
    assert_eq!(w.step(ScreenInput::Turn(100), 16383), WizardAction::RedrawVoltage);
    assert_eq!(w.voltage, 48);
    w.step(ScreenInput::Turn(-1000), 16383);
    assert_eq!(w.voltage, 8);
    assert_eq!(voltage_label(25), "12.5V");
    assert_eq!(voltage_label(24), "12.0V");
}

#[test]
fn wizard_limits_keep_order() {
    let mut w = PwmWizardState::new();
    w.set_channel_state(ChannelState { min: 100, max: 200, solenoid: PwmMode::Pwm });
    w.step(ScreenInput::Turn(2), 1000);
    w.step(down(ButtonType::Rotenc), 1000);
    assert_eq!(w.step(ScreenInput::Turn(500), 1000), WizardAction::SetMinDuty(PwmNumber::Pwm0, 200));
    w.step(down(ButtonType::Rotenc), 1000);
    w.step(ScreenInput::Turn(1), 1000);
    w.step(down(ButtonType::Rotenc), 1000);
    assert_eq!(w.step(ScreenInput::Turn(30000), 1000), WizardAction::SetMaxDuty(PwmNumber::Pwm0, 1000));
    assert_eq!(w.step(ScreenInput::Turn(-5000), 1000), WizardAction::SetMaxDuty(PwmNumber::Pwm0, 200));
}

#[test]
fn wizard_channel_and_solenoid() {
    let mut w = PwmWizardState::new();
    w.step(down(ButtonType::Rotenc), 1000);
    assert_eq!(w.step(ScreenInput::Turn(1), 1000), WizardAction::LoadChannel(PwmNumber::Pwm1));
    assert_eq!(w.step(ScreenInput::Turn(1), 1000), WizardAction::LoadChannel(PwmNumber::Pwm0));
    w.step(down(ButtonType::Rotenc), 1000);
    w.step(ScreenInput::Turn(4), 1000);
    assert_eq!(w.step(down(ButtonType::Rotenc), 1000), WizardAction::SetOperatingMode(PwmNumber::Pwm0, PwmMode::Solenoid));
    assert_eq!(w.mode, WizardMode::Browse);
    assert_eq!(w.step(ScreenInput::Button(ButtonType::Right, ButtonEventKind::Up), 1000), WizardAction::Finish(MenuSignal::Back));
    // the left button is the back button
    assert_eq!(w.step(down(ButtonType::Left), 1000), WizardAction::Finish(MenuSignal::Back));
    assert_eq!(w.step(ScreenInput::Button(ButtonType::Left, ButtonEventKind::Up), 1000), WizardAction::Nothing);
    assert_eq!(channel_label(PwmNumber::Pwm3), "3");
}

#[test]
fn home_screen_geometry_and_colours() {
    assert_eq!(HomeMenu::channel_position(PwmNumber::Pwm0), Point { x: 24, y: 130 });
    assert_eq!(HomeMenu::channel_position(PwmNumber::Pwm3), Point { x: 64, y: 100 });
    let red = RGB { r: 255, g: 0, b: 0 };
    assert_eq!(HomeMenu::channel_color(&Theme::Dark, true), red);
    assert_eq!(HomeMenu::channel_color(&Theme::Dark, false), RGB { r: 255, g: 255, b: 255 });
    assert_eq!(HomeMenu::power_indicator_fill(&Theme::Light, PwmPinState::On), red);
    assert_eq!(HomeMenu::power_indicator_fill(&Theme::Light, PwmPinState::Off), RGB { r: 255, g: 240, b: 255 });
}
