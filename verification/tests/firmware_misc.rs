use shiny_hunter::pico_timer::request_handler::{ReportAnswer, SwitchHidHandler};
use shiny_hunter::pico_timer::switch_descriptor::DESCRIPTOR;
use shiny_hunter::pico_timer::status_led::{blink, LedStep};

#[test]
fn get_report_zero_fills_buffer() {
    let mut h = SwitchHidHandler;
    let mut buf = [7u8; 8];
    assert_eq!(h.get_report(&mut buf), Some(8));
    assert_eq!(buf, [0u8; 8]);
    let mut empty: [u8; 0] = [];
    assert_eq!(h.get_report(&mut empty), Some(0));
}

#[test]
fn blink_two_times() {
    assert_eq!(
        blink(2),
        vec![
            LedStep::Switch(true),
            LedStep::Wait(400),
            LedStep::Switch(false),
            LedStep::Wait(400),
            LedStep::Switch(true),
            LedStep::Wait(400),
            LedStep::Switch(false),
            LedStep::Wait(400),
            LedStep::Wait(800),
        ]
    );
}

#[test]
fn blink_zero_times_only_pauses() {
    assert_eq!(blink(0), vec![LedStep::Wait(800)]);
    assert_eq!(blink(3).len(), 13);
}

#[test]
fn set_report_is_accepted() {
    let mut h = SwitchHidHandler;
    assert_eq!(h.set_report(&[1, 2, 3]), ReportAnswer::Accepted);
    assert_eq!(h.set_report(&[]), ReportAnswer::Accepted);
}

#[test]
fn descriptor_frames_a_joystick_collection() {
    assert_eq!(DESCRIPTOR.len(), 85);
    assert_eq!(&DESCRIPTOR[..6], &[0x05, 0x01, 0x09, 0x05, 0xA1, 0x01]);
    assert_eq!(DESCRIPTOR[84], 0xC0);
    // Output report: 8 vendor bytes.
    assert_eq!(&DESCRIPTOR[78..84], &[0x09, 0x21, 0x95, 0x08, 0x91, 0x02]);
}
