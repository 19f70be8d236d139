use shiny_hunter::pico_timer::startup::{
    startup_begin, startup_step, usb_identity, StartupAction, StartupEvent, StartupPhase,
};

#[test]
fn startup_order_when_all_succeeds() {
    let (mut phase, first) = startup_begin();
    let mut actions = vec![first];
    for _ in 0..10 {
        let (p, a) = startup_step(phase, StartupEvent::Done);
        phase = p;
        actions.push(a);
    }
    assert_eq!(
        actions,
        vec![
            StartupAction::InitRadio { power_save: false },
            StartupAction::Blink(1),
            StartupAction::JoinWifi,
            StartupAction::Blink(2),
            StartupAction::WaitLinkUp,
            StartupAction::WaitConfigUp,
            StartupAction::Blink(3),
            StartupAction::StartUsb,
            StartupAction::StartServices { web_tasks: 4 },
            StartupAction::Sleep(3_600_000),
            StartupAction::Sleep(3_600_000),
        ]
    );
    assert_eq!(phase, StartupPhase::Running);
}

#[test]
fn failed_joins_are_retried_every_second() {
    let (p, a) = startup_step(StartupPhase::Joining, StartupEvent::JoinFailed);
    assert_eq!(a, StartupAction::Sleep(1000));
    let (p, a) = startup_step(p, StartupEvent::Done);
    assert_eq!(a, StartupAction::JoinWifi);
    let (p, a) = startup_step(p, StartupEvent::JoinFailed);
    assert_eq!(a, StartupAction::Sleep(1000));
    let (p, _) = startup_step(p, StartupEvent::Done);
    let (_, a) = startup_step(p, StartupEvent::Done);
    assert_eq!(a, StartupAction::Blink(2));
}

#[test]
fn join_failure_elsewhere_changes_nothing() {
    let (p, a) = startup_step(StartupPhase::LinkWait, StartupEvent::JoinFailed);
    assert_eq!((p, a), (StartupPhase::LinkWait, StartupAction::WaitLinkUp));
}

#[test]
fn usb_identity_is_a_pokken_controller() {
    let id = usb_identity();
    assert_eq!((id.vendor_id, id.product_id), (0x0F0D, 0x0092));
    assert_eq!(id.manufacturer, "HORI CO.,LTD.");
    assert_eq!(id.product, "POKKEN CONTROLLER");
    assert_eq!(id.serial_number, None);
    assert_eq!(id.max_power, 250);
    assert_eq!(id.max_packet_size_0, 64);
    assert_eq!(id.device_release, 0x0100);
    assert_eq!(id.bcd_usb, 0x0200);
    assert_eq!(id.hid_poll_ms, 5);
    assert_eq!(id.hid_max_packet_size, 64);
}
