//! The USB HID gamepad report of a HORI Pokken controller, as the Switch reads it.
//!
//! Report layout (8 bytes):
//!   [0-1] buttons: 16 button bits, little endian
//!   [2]   hat:     hat switch (0 = Up, 2 = Right, 4 = Down, 6 = Left, 8 = Neutral)
//!   [3]   x:       left stick X  (0-255, 128 = center)
//!   [4]   y:       left stick Y  (0-255, 128 = center)
//!   [5]   z:       right stick X (0-255, 128 = center)
//!   [6]   rz:      right stick Y (0-255, 128 = center)
//!   [7]   vendor:  reserved, always 0
use vstd::prelude::*;

verus! {

/// The USB HID report descriptor of the HORI Pokken Controller (VID 0x0F0D,
/// PID 0x0092). It describes the 8-byte input report that `as_bytes` lays out,
/// and the 8-byte output report that the Switch requires of this device class.
pub const DESCRIPTOR: [u8; 85] = [
    0x05, 0x01,        // Usage Page (Generic Desktop)
    0x09, 0x05,        // Usage (Joystick)
    0xA1, 0x01,        // Collection (Application)
    0x15, 0x00,        //   Logical Minimum (0)
    0x25, 0x01,        //   Logical Maximum (1)
    0x35, 0x00,        //   Physical Minimum (0)
    0x45, 0x01,        //   Physical Maximum (1)
    0x75, 0x01,        //   Report Size (1)
    0x95, 0x10,        //   Report Count (16) — 16 bits, fills 2 bytes with no padding
    0x05, 0x09,        //   Usage Page (Button)
    0x19, 0x01,        //   Usage Minimum (Button 1)
    0x29, 0x10,        //   Usage Maximum (Button 16)
    0x81, 0x02,        //   Input (Data, Variable, Absolute)
    0x05, 0x01,        //   Usage Page (Generic Desktop)
    0x25, 0x07,        //   Logical Maximum (7)
    0x46, 0x3B, 0x01,  //   Physical Maximum (315)
    0x75, 0x04,        //   Report Size (4)
    0x95, 0x01,        //   Report Count (1)
    0x65, 0x14,        //   Unit (English Rotation)
    0x09, 0x39,        //   Usage (Hat switch)
    0x81, 0x42,        //   Input (Data, Variable, Absolute, Null state)
    0x65, 0x00,        //   Unit (None)
    0x95, 0x01,        //   Report Count (1) — 4 padding bits
    0x81, 0x01,        //   Input (Constant)
    0x26, 0xFF, 0x00,  //   Logical Maximum (255)
    0x46, 0xFF, 0x00,  //   Physical Maximum (255)
    0x09, 0x30,        //   Usage (X)
    0x09, 0x31,        //   Usage (Y)
    0x09, 0x32,        //   Usage (Z)
    0x09, 0x35,        //   Usage (Rz)
    0x75, 0x08,        //   Report Size (8)
    0x95, 0x04,        //   Report Count (4)
    0x81, 0x02,        //   Input (Data, Variable, Absolute)
    0x06, 0x00, 0xFF,  //   Usage Page (Vendor Defined 0xFF00)
    0x09, 0x20,        //   Usage (0x20)
    0x95, 0x01,        //   Report Count (1)
    0x81, 0x02,        //   Input (Data, Variable, Absolute)
    // Output report (8 bytes) required by Switch for this device class.
    0x09, 0x21,        //   Usage (Vendor)
    0x95, 0x08,        //   Report Count (8)
    0x91, 0x02,        //   Output (Data, Variable, Absolute)
    0xC0,              // End Collection
];

/// The centre position of each analog stick.
pub const STICK_CENTER: u8 = 128;

/// One gamepad input report.
#[derive(Clone, Copy, Debug, PartialEq, Eq, Structural)]
pub struct SwitchGamepadDescriptor {
    pub buttons: u16,
    pub hat: u8,
    pub x: u8,
    pub y: u8,
    pub z: u8,
    pub rz: u8,
    pub vendor: u8,
}

/// The buttons of the controller; each one owns one bit of the report's
/// `buttons` field.
#[derive(Clone, Copy, Debug, PartialEq, Eq, Structural)]
pub enum SwitchButton {
    BtnY,
    BtnB,
    BtnA,
    BtnX,
    BtnL,
    BtnR,
    BtnZL,
    BtnZR,
    BtnMinus,
    BtnPlus,
    BtnLS,
    BtnRS,
    BtnHome,
    BtnCap,
}

/// The positions of the hat switch (the d-pad).
#[derive(Clone, Copy, Debug, PartialEq, Eq, Structural)]
pub enum SwitchHatValues {
    Up,
    Right,
    Down,
    Left,
    Neutral,
}

impl SwitchButton {
    /// The position of the button's bit in the `buttons` field.
    pub open spec fn bit_index(self) -> u16 {
        match self {
            SwitchButton::BtnY => 0,
            SwitchButton::BtnB => 1,
            SwitchButton::BtnA => 2,
            SwitchButton::BtnX => 3,
            SwitchButton::BtnL => 4,
            SwitchButton::BtnR => 5,
            SwitchButton::BtnZL => 6,
            SwitchButton::BtnZR => 7,
            SwitchButton::BtnMinus => 8,
            SwitchButton::BtnPlus => 9,
            SwitchButton::BtnLS => 10,
            SwitchButton::BtnRS => 11,
            SwitchButton::BtnHome => 12,
            SwitchButton::BtnCap => 13,
        }
    }

    /// The value of the `buttons` field while this button alone is held.
    pub open spec fn mask(self) -> u16 {
        match self {
            SwitchButton::BtnY => 0x0001,
            SwitchButton::BtnB => 0x0002,
            SwitchButton::BtnA => 0x0004,
            SwitchButton::BtnX => 0x0008,
            SwitchButton::BtnL => 0x0010,
            SwitchButton::BtnR => 0x0020,
            SwitchButton::BtnZL => 0x0040,
            SwitchButton::BtnZR => 0x0080,
            SwitchButton::BtnMinus => 0x0100,
            SwitchButton::BtnPlus => 0x0200,
            SwitchButton::BtnLS => 0x0400,
            SwitchButton::BtnRS => 0x0800,
            SwitchButton::BtnHome => 0x1000,
            SwitchButton::BtnCap => 0x2000,
        }
    }

    /// Each button's mask is the single bit at its index.
    pub proof fn lemma_mask_is_bit(self)
        ensures
            self.mask() == 1u16 << self.bit_index(),
            self.bit_index() < 14,
    {
        assert({
            &&& 1u16 << 0u16 == 0x0001u16
            &&& 1u16 << 1u16 == 0x0002u16
            &&& 1u16 << 2u16 == 0x0004u16
            &&& 1u16 << 3u16 == 0x0008u16
            &&& 1u16 << 4u16 == 0x0010u16
            &&& 1u16 << 5u16 == 0x0020u16
            &&& 1u16 << 6u16 == 0x0040u16
            &&& 1u16 << 7u16 == 0x0080u16
            &&& 1u16 << 8u16 == 0x0100u16
            &&& 1u16 << 9u16 == 0x0200u16
            &&& 1u16 << 10u16 == 0x0400u16
            &&& 1u16 << 11u16 == 0x0800u16
            &&& 1u16 << 12u16 == 0x1000u16
            &&& 1u16 << 13u16 == 0x2000u16
        }) by (bit_vector);
    }

    /// Exec form of `bit_index`.
    pub fn index(self) -> (r: u16)
        ensures
            r == self.bit_index(),
    {
        match self {
            SwitchButton::BtnY => 0,
            SwitchButton::BtnB => 1,
            SwitchButton::BtnA => 2,
            SwitchButton::BtnX => 3,
            SwitchButton::BtnL => 4,
            SwitchButton::BtnR => 5,
            SwitchButton::BtnZL => 6,
            SwitchButton::BtnZR => 7,
            SwitchButton::BtnMinus => 8,
            SwitchButton::BtnPlus => 9,
            SwitchButton::BtnLS => 10,
            SwitchButton::BtnRS => 11,
            SwitchButton::BtnHome => 12,
            SwitchButton::BtnCap => 13,
        }
    }

    /// The `buttons` field value of this button: `1 << index`.
    pub fn bits(self) -> (r: u16)
        ensures
            r == self.mask(),
    {
        let i = self.index();
        proof {
            self.lemma_mask_is_bit();
        }
        1u16 << i
    }
}

/// Distinct buttons own distinct bits: their masks share no bit, so any set of
/// buttons can be held together in one report.
pub proof fn lemma_button_masks_disjoint(a: SwitchButton, b: SwitchButton)
    requires
        a != b,
    ensures
        a.mask() & b.mask() == 0,
        a.mask() != 0,
{
    a.lemma_mask_is_bit();
    b.lemma_mask_is_bit();
    let i = a.bit_index();
    let j = b.bit_index();
    assert(i != j);
    assert(i < 16 && j < 16 && i != j ==> (1u16 << i) & (1u16 << j) == 0 && (1u16 << i) != 0)
        by (bit_vector);
}

impl SwitchHatValues {
    /// The hat field value of a position.
    pub open spec fn spec_value(self) -> u8 {
        match self {
            SwitchHatValues::Up => 0x00,
            SwitchHatValues::Right => 0x02,
            SwitchHatValues::Down => 0x04,
            SwitchHatValues::Left => 0x06,
            SwitchHatValues::Neutral => 0x08,
        }
    }

    /// The hat field value of a position.
    pub fn value(self) -> (r: u8)
        ensures
            r == self.spec_value(),
    {
        match self {
            SwitchHatValues::Up => 0x00,
            SwitchHatValues::Right => 0x02,
            SwitchHatValues::Down => 0x04,
            SwitchHatValues::Left => 0x06,
            SwitchHatValues::Neutral => 0x08,
        }
    }
}

/// Whether `h` is a position of the hat switch.
pub open spec fn is_hat_value(h: u8) -> bool {
    h == 0 || h == 2 || h == 4 || h == 6 || h == 8
}

/// Whether `m` is the mask of exactly one button.
pub open spec fn is_button_mask(m: u16) -> bool {
    exists|b: SwitchButton| #[trigger] b.mask() == m
}

impl SwitchGamepadDescriptor {
    /// A report as the firmware sends it: sticks centred, vendor byte zero, the
    /// hat in one of its positions, and at most one button held, never
    /// together with a non-neutral hat.
    pub open spec fn well_shaped(self) -> bool {
        &&& self.x == STICK_CENTER && self.y == STICK_CENTER
        &&& self.z == STICK_CENTER && self.rz == STICK_CENTER
        &&& self.vendor == 0
        &&& is_hat_value(self.hat)
        &&& self.buttons == 0 || (is_button_mask(self.buttons) && self.hat == 8)
    }

    /// The report of an idle controller: no button, hat neutral, sticks centred.
    pub open spec fn spec_neutral() -> SwitchGamepadDescriptor {
        SwitchGamepadDescriptor {
            buttons: 0,
            hat: SwitchHatValues::Neutral.spec_value(),
            x: STICK_CENTER,
            y: STICK_CENTER,
            z: STICK_CENTER,
            rz: STICK_CENTER,
            vendor: 0,
        }
    }

    /// The report of an idle controller: no button, hat neutral, sticks centred.
    pub fn neutral() -> (r: Self)
        ensures
            r == Self::spec_neutral(),
            r.buttons == 0,
            r.hat == 8,
            r.x == 128 && r.y == 128 && r.z == 128 && r.rz == 128,
            r.vendor == 0,
    {
        Self {
            buttons: 0,
            hat: SwitchHatValues::Neutral.value(),
            x: STICK_CENTER,
            y: STICK_CENTER,
            z: STICK_CENTER,
            rz: STICK_CENTER,
            vendor: 0,
        }
    }

    /// The 8 bytes that the host reads, in the layout given at the top of this file.
    pub open spec fn wire_bytes(self) -> Seq<u8> {
        seq![
            (self.buttons % 256) as u8,
            (self.buttons / 256) as u8,
            self.hat,
            self.x,
            self.y,
            self.z,
            self.rz,
            self.vendor,
        ]
    }

    /// The report as the bytes sent to the host.
    pub fn as_bytes(&self) -> (r: [u8; 8])
        ensures
            r@ == self.wire_bytes(),
            r@[0] + 256 * r@[1] == self.buttons,
            r@[2] == self.hat,
            r@[3] == self.x,
            r@[4] == self.y,
            r@[5] == self.z,
            r@[6] == self.rz,
            r@[7] == self.vendor,
    {
        let lo = (self.buttons % 256) as u8;
        let hi = (self.buttons / 256) as u8;
        let r = [lo, hi, self.hat, self.x, self.y, self.z, self.rz, self.vendor];
        assert(r@ =~= self.wire_bytes());
        r
    }
}

/// The wire bytes carry every field of the report in the descriptor's order:
/// the 16 button bits little endian in bytes 0 and 1, then the hat, the left
/// stick X and Y, the right stick X (Z) and Y (Rz), and the vendor byte; two
/// reports with the same bytes are the same report.
pub proof fn law_wire_bytes_field_order(r: SwitchGamepadDescriptor, q: SwitchGamepadDescriptor)
    ensures
        r.wire_bytes().len() == 8,
        r.wire_bytes()[0] + 256 * r.wire_bytes()[1] == r.buttons,
        r.wire_bytes()[2] == r.hat,
        r.wire_bytes()[3] == r.x,
        r.wire_bytes()[4] == r.y,
        r.wire_bytes()[5] == r.z,
        r.wire_bytes()[6] == r.rz,
        r.wire_bytes()[7] == r.vendor,
        r.wire_bytes() == q.wire_bytes() ==> r == q,
{
    if r.wire_bytes() == q.wire_bytes() {
        assert(r.wire_bytes()[0] == q.wire_bytes()[0]);
        assert(r.wire_bytes()[1] == q.wire_bytes()[1]);
        assert(r.wire_bytes()[2] == q.wire_bytes()[2]);
        assert(r.wire_bytes()[3] == q.wire_bytes()[3]);
        assert(r.wire_bytes()[4] == q.wire_bytes()[4]);
        assert(r.wire_bytes()[5] == q.wire_bytes()[5]);
        assert(r.wire_bytes()[6] == q.wire_bytes()[6]);
        assert(r.wire_bytes()[7] == q.wire_bytes()[7]);
    }
}

} // verus!
