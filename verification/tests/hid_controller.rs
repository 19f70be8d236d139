use shiny_hunter::pico_timer::hid::{
    press_steps, AfterRelease, HidAction, HidController, HidEvent, HidLogMessage, HidPhase,
    KeyEvent, CHAR_CREATION_DELAY_MS,
};
use shiny_hunter::pico_timer::switch_descriptor::{
    SwitchButton, SwitchGamepadDescriptor, SwitchHatValues,
};

fn neutral() -> SwitchGamepadDescriptor {
    SwitchGamepadDescriptor::neutral()
}

fn with_button(b: SwitchButton) -> SwitchGamepadDescriptor {
    let mut r = neutral();
    r.buttons = b.bits();
    r
}

/// Answers every action with success and records the actions, until `n` actions.
fn run_ok(c: &mut HidController, n: usize) -> Vec<HidAction> {
    let mut seen = Vec::new();
    for _ in 0..n {
        let a = c.pending();
        seen.push(a);
        let e = match a {
            HidAction::Log(_) => HidEvent::Logged,
            HidAction::WaitHostReady => HidEvent::HostReady,
            HidAction::Send(_) => HidEvent::Sent,
            HidAction::Sleep(_) => HidEvent::Slept,
            HidAction::AwaitKey(_) => HidEvent::TimedOut,
            HidAction::ReadClock => HidEvent::Clock(0),
        };
        c.advance(e);
    }
    seen
}

fn listening() -> HidController {
    let mut c = HidController::new();
    run_ok(&mut c, 9);
    assert_eq!(c.phase, HidPhase::Listening);
    c
}

#[test]
fn press_steps_values() {
    assert_eq!(press_steps(0), 1);
    assert_eq!(press_steps(4), 1);
    assert_eq!(press_steps(5), 1);
    assert_eq!(press_steps(12), 2);
    assert_eq!(press_steps(50), 10);
    assert_eq!(press_steps(2000), 400);
}

#[test]
fn starts_by_logging_and_waiting_for_host() {
    let mut c = HidController::new();
    assert_eq!(c.pending(), HidAction::Log(HidLogMessage::UsbWaiting));
    assert_eq!(c.report, neutral());
    c.advance(HidEvent::Logged);
    assert_eq!(c.pending(), HidAction::WaitHostReady);
    c.advance(HidEvent::HostReady);
    assert_eq!(c.pending(), HidAction::Log(HidLogMessage::UsbReady));
}

#[test]
fn greeting_presses_l_then_r() {
    let mut c = HidController::new();
    let actions = run_ok(&mut c, 10);
    assert_eq!(
        actions,
        vec![
            HidAction::Log(HidLogMessage::UsbWaiting),
            HidAction::WaitHostReady,
            HidAction::Log(HidLogMessage::UsbReady),
            HidAction::Send(with_button(SwitchButton::BtnL)),
            HidAction::Sleep(120),
            HidAction::Send(neutral()),
            HidAction::Send(with_button(SwitchButton::BtnR)),
            HidAction::Sleep(120),
            HidAction::Send(neutral()),
            HidAction::AwaitKey(5),
        ]
    );
}

#[test]
fn greeting_ignores_failed_sends() {
    let mut c = HidController::new();
    run_ok(&mut c, 3);
    c.advance(HidEvent::SendFailed);
    assert_eq!(c.pending(), HidAction::Sleep(120));
}

#[test]
fn tap_sends_ten_pressed_reports_then_neutral() {
    let mut c = listening();
    c.advance(HidEvent::Key(KeyEvent::Tap(SwitchButton::BtnA)));
    let actions = run_ok(&mut c, 24);
    assert_eq!(actions[0], HidAction::Log(HidLogMessage::CmdRecv));
    assert_eq!(actions[1], HidAction::Log(HidLogMessage::CmdTap));
    for j in 0..10 {
        assert_eq!(actions[2 + 2 * j], HidAction::Send(with_button(SwitchButton::BtnA)));
        assert_eq!(actions[3 + 2 * j], HidAction::Sleep(5));
    }
    assert_eq!(actions[22], HidAction::Send(neutral()));
    assert_eq!(actions[23], HidAction::AwaitKey(5));
    assert_eq!(c.report, neutral());
}

#[test]
fn hold_sends_one_report_per_interval() {
    let mut c = listening();
    c.advance(HidEvent::Key(KeyEvent::Hold(SwitchButton::BtnB, 2000)));
    assert_eq!(run_ok(&mut c, 1), vec![HidAction::Log(HidLogMessage::CmdRecv)]);
    let actions = run_ok(&mut c, 802);
    let pressed = actions
        .iter()
        .filter(|a| **a == HidAction::Send(with_button(SwitchButton::BtnB)))
        .count();
    assert_eq!(pressed, 400);
    assert_eq!(actions[800], HidAction::Send(neutral()));
    assert_eq!(actions[801], HidAction::AwaitKey(5));
}

#[test]
fn short_hold_sends_one_report() {
    let mut c = listening();
    c.advance(HidEvent::Key(KeyEvent::Hold(SwitchButton::BtnX, 3)));
    c.advance(HidEvent::Logged);
    let actions = run_ok(&mut c, 4);
    assert_eq!(
        actions,
        vec![
            HidAction::Send(with_button(SwitchButton::BtnX)),
            HidAction::Sleep(5),
            HidAction::Send(neutral()),
            HidAction::AwaitKey(5),
        ]
    );
}

#[test]
fn dpad_sets_hat() {
    let mut c = listening();
    c.advance(HidEvent::Key(KeyEvent::DPad(SwitchHatValues::Up, 10)));
    c.advance(HidEvent::Logged);
    let mut up = neutral();
    up.hat = 0;
    let actions = run_ok(&mut c, 6);
    assert_eq!(
        actions,
        vec![
            HidAction::Send(up),
            HidAction::Sleep(5),
            HidAction::Send(up),
            HidAction::Sleep(5),
            HidAction::Send(neutral()),
            HidAction::AwaitKey(5),
        ]
    );
}

#[test]
fn failed_send_during_press_releases() {
    let mut c = listening();
    c.advance(HidEvent::Key(KeyEvent::Hold(SwitchButton::BtnA, 100)));
    c.advance(HidEvent::Logged);
    c.advance(HidEvent::Sent);
    c.advance(HidEvent::Slept);
    c.advance(HidEvent::SendFailed);
    assert_eq!(c.pending(), HidAction::Send(neutral()));
    c.advance(HidEvent::SendFailed);
    assert_eq!(c.pending(), HidAction::AwaitKey(5));
}

#[test]
fn keep_alive_sends_neutral() {
    let mut c = listening();
    c.advance(HidEvent::TimedOut);
    assert_eq!(c.pending(), HidAction::Send(neutral()));
    c.advance(HidEvent::Sent);
    assert_eq!(c.pending(), HidAction::AwaitKey(5));
}

#[test]
fn failed_keep_alive_waits_for_host_again() {
    let mut c = listening();
    c.advance(HidEvent::TimedOut);
    c.advance(HidEvent::SendFailed);
    assert_eq!(c.pending(), HidAction::Log(HidLogMessage::UsbKeepaliveErr));
    c.advance(HidEvent::Logged);
    assert_eq!(c.pending(), HidAction::Log(HidLogMessage::UsbWaiting));
    c.advance(HidEvent::Logged);
    assert_eq!(c.phase, HidPhase::AwaitingHost);
    assert_eq!(c.pending(), HidAction::WaitHostReady);
    // The greeting is written again before any other report.
    let actions = run_ok(&mut c, 3);
    assert_eq!(actions[0], HidAction::WaitHostReady);
    assert_eq!(actions[1], HidAction::Log(HidLogMessage::UsbReady));
    assert_eq!(actions[2], HidAction::Send(with_button(SwitchButton::BtnL)));
}

#[test]
fn unexpected_event_changes_nothing() {
    let mut c = listening();
    let before = c;
    c.advance(HidEvent::Slept);
    assert_eq!(c, before);
    c.advance(HidEvent::Clock(3));
    assert_eq!(c, before);
}

#[test]
fn char_creation_presses_a_twice_around_deadline() {
    let mut c = listening();
    c.advance(HidEvent::Key(KeyEvent::CharCreation));
    assert_eq!(c.pending(), HidAction::Log(HidLogMessage::CmdRecv));
    c.advance(HidEvent::Logged);
    assert_eq!(c.pending(), HidAction::ReadClock);
    c.advance(HidEvent::Clock(1000));
    let deadline = 1000 + CHAR_CREATION_DELAY_MS;
    assert_eq!(
        c.phase,
        HidPhase::Holding { left: 10, next: AfterRelease::FillUntil(deadline) }
    );
    let first = run_ok(&mut c, 21);
    for j in 0..10 {
        assert_eq!(first[2 * j], HidAction::Send(with_button(SwitchButton::BtnA)));
    }
    assert_eq!(first[20], HidAction::Send(neutral()));
    assert_eq!(c.phase, HidPhase::Filling { deadline });
    // Before the deadline: neutral filler reports.
    c.advance(HidEvent::Clock(deadline - 1));
    assert_eq!(c.pending(), HidAction::Send(neutral()));
    c.advance(HidEvent::Sent);
    assert_eq!(c.pending(), HidAction::Sleep(5));
    c.advance(HidEvent::Slept);
    assert_eq!(c.pending(), HidAction::ReadClock);
    // At the deadline: the second press.
    c.advance(HidEvent::Clock(deadline));
    assert_eq!(c.pending(), HidAction::Send(with_button(SwitchButton::BtnA)));
    let second = run_ok(&mut c, 22);
    assert_eq!(second[20], HidAction::Send(neutral()));
    assert_eq!(second[21], HidAction::AwaitKey(5));
}

#[test]
fn char_creation_deadline_saturates() {
    let mut c = listening();
    c.advance(HidEvent::Key(KeyEvent::CharCreation));
    c.advance(HidEvent::Logged);
    c.advance(HidEvent::Clock(u64::MAX - 3));
    assert_eq!(
        c.phase,
        HidPhase::Holding { left: 10, next: AfterRelease::FillUntil(u64::MAX) }
    );
}

#[test]
fn failed_filler_send_starts_second_press() {
    let mut c = listening();
    c.advance(HidEvent::Key(KeyEvent::CharCreation));
    c.advance(HidEvent::Logged);
    c.advance(HidEvent::Clock(0));
    run_ok(&mut c, 21);
    c.advance(HidEvent::Clock(5));
    c.advance(HidEvent::SendFailed);
    assert_eq!(c.pending(), HidAction::Send(with_button(SwitchButton::BtnA)));
}

#[test]
fn root_path_taps_a_on_the_gamepad() {
    let cmd = shiny_hunter::pico_timer::router::route_path("/").unwrap().command.unwrap();
    let mut c = listening();
    c.advance(HidEvent::Key(cmd));
    let actions = run_ok(&mut c, 24);
    let a_reports = actions
        .iter()
        .filter(|a| **a == HidAction::Send(with_button(SwitchButton::BtnA)))
        .count();
    assert_eq!(a_reports, 10);
    assert_eq!(actions[22], HidAction::Send(neutral()));
}

#[test]
fn log_texts() {
    assert_eq!(HidLogMessage::UsbWaiting.text(), "USB_WAITING");
    assert_eq!(HidLogMessage::UsbReady.text(), "USB_READY");
    assert_eq!(HidLogMessage::CmdRecv.text(), "CMD_RECV");
    assert_eq!(HidLogMessage::CmdTap.text(), "CMD_TAP");
    assert_eq!(HidLogMessage::UsbKeepaliveErr.text(), "USB_KEEPALIVE_ERR");
}

#[test]
fn every_sent_report_is_well_shaped() {
    let keys = [
        KeyEvent::Tap(SwitchButton::BtnY),
        KeyEvent::Hold(SwitchButton::BtnHome, 20),
        KeyEvent::DPad(SwitchHatValues::Right, 15),
        KeyEvent::DPad(SwitchHatValues::Left, 0),
    ];
    for k in keys {
        let mut c = listening();
        c.advance(HidEvent::Key(k));
        for a in run_ok(&mut c, 40) {
            if let HidAction::Send(r) = a {
                assert_eq!((r.x, r.y, r.z, r.rz, r.vendor), (128, 128, 128, 128, 0));
                assert!([0u8, 2, 4, 6, 8].contains(&r.hat));
                assert!(r.buttons.count_ones() <= 1);
                assert!(r.buttons == 0 || r.hat == 8);
            }
        }
    }
}
