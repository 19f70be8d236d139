use shiny_hunter::pico_timer::switch_descriptor::{
    SwitchButton, SwitchGamepadDescriptor, SwitchHatValues,
};

const ALL_BUTTONS: [SwitchButton; 14] = [
    SwitchButton::BtnY,
    SwitchButton::BtnB,
    SwitchButton::BtnA,
    SwitchButton::BtnX,
    SwitchButton::BtnL,
    SwitchButton::BtnR,
    SwitchButton::BtnZL,
    SwitchButton::BtnZR,
    SwitchButton::BtnMinus,
    SwitchButton::BtnPlus,
    SwitchButton::BtnLS,
    SwitchButton::BtnRS,
    SwitchButton::BtnHome,
    SwitchButton::BtnCap,
];

#[test]
fn neutral_report_is_idle() {
    let n = SwitchGamepadDescriptor::neutral();
    assert_eq!(n.buttons, 0);
    assert_eq!(n.hat, 8);
    assert_eq!((n.x, n.y, n.z, n.rz), (128, 128, 128, 128));
    assert_eq!(n.vendor, 0);
}

#[test]
fn neutral_report_bytes() {
    assert_eq!(SwitchGamepadDescriptor::neutral().as_bytes(), [0, 0, 8, 128, 128, 128, 128, 0]);
}

#[test]
fn buttons_are_little_endian_in_report() {
    let mut r = SwitchGamepadDescriptor::neutral();
    r.buttons = SwitchButton::BtnMinus.bits() | SwitchButton::BtnA.bits();
    assert_eq!(r.as_bytes(), [0x04, 0x01, 8, 128, 128, 128, 128, 0]);
    r.buttons = SwitchButton::BtnCap.bits();
    r.hat = SwitchHatValues::Left.value();
    r.x = 0;
    r.rz = 255;
    r.vendor = 7;
    assert_eq!(r.as_bytes(), [0x00, 0x20, 6, 0, 128, 128, 255, 7]);
}

#[test]
fn button_bits_follow_declaration_order() {
    for (i, b) in ALL_BUTTONS.iter().enumerate() {
        assert_eq!(b.index() as usize, i);
        assert_eq!(b.bits(), 1u16 << i);
    }
    assert_eq!(SwitchButton::BtnL.bits(), 0x10);
    assert_eq!(SwitchButton::BtnR.bits(), 0x20);
    assert_eq!(SwitchButton::BtnMinus.bits(), 0x100);
}

#[test]
fn button_bits_are_disjoint() {
    for (i, a) in ALL_BUTTONS.iter().enumerate() {
        for (j, b) in ALL_BUTTONS.iter().enumerate() {
            if i != j {
                assert_eq!(a.bits() & b.bits(), 0);
            }
        }
        assert_ne!(a.bits(), 0);
    }
}

#[test]
fn hat_values() {
    assert_eq!(SwitchHatValues::Up.value(), 0);
    assert_eq!(SwitchHatValues::Right.value(), 2);
    assert_eq!(SwitchHatValues::Down.value(), 4);
    assert_eq!(SwitchHatValues::Left.value(), 6);
    assert_eq!(SwitchHatValues::Neutral.value(), 8);
}
