use pumpbot::led::{apply_brightness, LedAnimator, LedFrame, LedMode, LedState};
use pumpbot::pwm::{
    execute_command, pct_to_duty, ChannelOp, Command, PwmAction, PwmNumber, PwmOutOfBounds, PwmPinInfo, PwmPinState,
    PwmRunner,
};
use pumpbot::pwm_timed::{ControllerError, PwmController, WorkerStep};
use pumpbot::rgb::{lerp, RGB};

fn rgb(r: u8, g: u8, b: u8) -> RGB {
    RGB { r, g, b }
}

#[test]
fn led_state_reads_back() {
    let mut s = LedState::new(LedMode::Off);
    assert_eq!(s.brightness, 255);
    assert_eq!(s.speed_ms, 10);
    s.set_mode(LedMode::Rainbow);
    s.set_brightness(12);
    s.set_speed(40);
    assert_eq!(s.get_mode(), LedMode::Rainbow);
    assert_eq!(s.get_brightness(), 12);
}

#[test]
fn led_fade_goes_up_and_back() {
    let mut a = LedAnimator::new();
    let mode = LedMode::Fade(rgb(0, 0, 0), rgb(255, 255, 255));
    assert_eq!(a.step(mode), LedFrame::Color(1, 1, 1));
    for _ in 0..254 {
        a.step(mode);
    }
    assert_eq!(a.tick, 255);
    assert_eq!(a.step(mode), LedFrame::Color(254, 254, 254));
    assert!(!a.goingup);
}

#[test]
fn led_rainbow_wraps_at_360() {
    let mut a = LedAnimator { tick: 359, goingup: true };
    assert_eq!(a.step(LedMode::Rainbow), LedFrame::Hue(0));
    assert_eq!(a.step(LedMode::Solid(rgb(1, 2, 3))), LedFrame::Color(1, 2, 3));
    assert_eq!(a.step(LedMode::Off), LedFrame::Color(0, 0, 0));
}

#[test]
fn brightness_scaling() {
    assert_eq!(apply_brightness(255, 255, 1000), 1000);
    assert_eq!(apply_brightness(0, 255, 1000), 0);
    assert_eq!(apply_brightness(255, 128, 8191), 4111);
}

#[test]
fn lerp_ends_and_middle() {
    assert_eq!(lerp(10, 200, 0), 10);
    assert_eq!(lerp(10, 200, 255), 200);
    assert_eq!(lerp(0, 255, 128), 128);
}

#[test]
fn pwm_number_from_byte() {
    assert_eq!(PwmNumber::try_from_u8(3), Ok(PwmNumber::Pwm3));
    assert_eq!(PwmNumber::try_from_u8(4), Err(PwmOutOfBounds));
    assert_eq!(PwmNumber::Pwm2.index(), 2);
}

#[test]
fn pwm_percentages() {
    assert_eq!(pct_to_duty(16383, 50), 8191);
    let p = PwmPinInfo::new();
    assert_eq!(p.get_duty_pct(), 100);
    assert_eq!(p.state, PwmPinState::Off);
}

#[test]
fn pwm_execute_toggle_and_set() {
    let p = PwmPinInfo::new();
    let (on, op) = execute_command(p, PwmAction::Toggle(PwmNumber::Pwm0), 16383);
    assert_eq!(on.state, PwmPinState::On);
    assert_eq!(op, Some(ChannelOp::SetDutyCycle(16383)));
    let (off, op) = execute_command(on, PwmAction::Toggle(PwmNumber::Pwm0), 16383);
    assert_eq!(off.state, PwmPinState::Off);
    assert_eq!(op, Some(ChannelOp::SetDutyCycle(0)));
    let (set, op) = execute_command(on, PwmAction::SetDutyPct(PwmNumber::Pwm0, 50), 16383);
    assert_eq!(set.duty, 8200);
    assert_eq!(op, Some(ChannelOp::SetDutyCycle(8191)));
    let (dec, op) = execute_command(set, PwmAction::DecDutyPct(PwmNumber::Pwm0, 60), 16383);
    assert_eq!(dec.duty, 0);
    assert_eq!(op, Some(ChannelOp::SetDutyPct(0)));
    let (frozen, op) = execute_command(p, PwmAction::FreezePin(PwmNumber::Pwm0, 500), 16383);
    assert!(frozen.frozen);
    assert_eq!(op, None);
}

#[test]
fn pwm_runner_runs_earliest_first() {
    let mut r = PwmRunner::new(16383);
    r.receive(Command::new(PwmAction::On(PwmNumber::Pwm1), 50), 100);
    r.receive(Command::new(PwmAction::On(PwmNumber::Pwm2), 10), 100);
    assert_eq!(r.next_delay(100), Some(10));
    let (c, op) = r.run_due();
    assert_eq!(c, PwmNumber::Pwm2);
    assert_eq!(op, Some(ChannelOp::SetDutyCycle(16383)));
    assert_eq!(r.pin_state(PwmNumber::Pwm2).state, PwmPinState::On);
    assert_eq!(r.next_delay(200), Some(0));
}

#[test]
fn timed_controller_refuses_bad_channel() {
    let mut c = PwmController::new();
    assert_eq!(c.set_duty(4, 10, false, 0), Err(ControllerError::InvalidChannel));
    assert_eq!(ControllerError::InvalidChannel.message(), "Invalid channel number");
    assert!(c.queue.is_empty());
}

#[test]
fn timed_controller_takes_latest_first() {
    let mut c = PwmController::new();
    c.turn_on(0, 512, 1000).unwrap();
    c.turn_off_at(1, 2000, 1000).unwrap();
    c.set_duty_at(2, 768, 1000, false, 1000).unwrap();
    match c.worker_step(1500) {
        WorkerStep::Run { action, wait } => {
            assert_eq!(action.channel, 1);
            assert_eq!(action.duty, 0);
            assert_eq!(wait, 1500);
        },
        _ => panic!("an action was queued"),
    }
    assert_eq!(c.queue.len(), 2);
    c.stop();
    assert_eq!(c.worker_step(0), WorkerStep::Stop);
    let mut e = PwmController::new();
    assert_eq!(e.worker_step(0), WorkerStep::Idle);
}
