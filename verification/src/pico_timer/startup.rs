//! The firmware's start-up sequence, as a state machine, and the USB identity
//! it presents.
//!
//! The radio comes up first, with power saving off so that HTTP requests are
//! answered promptly; the WiFi join is retried every second until it succeeds;
//! USB starts only once the network link and its DHCP configuration are up.
//! The status LED blinks once, twice and three times at the checkpoints.
use vstd::prelude::*;

verus! {

/// Pause between two WiFi join attempts, in milliseconds.
pub const JOIN_RETRY_MS: u64 = 1000;

/// Number of HTTP server tasks.
pub const WEB_TASK_POOL_SIZE: usize = 4;

/// How long the start-up task sleeps at a time once everything runs, in milliseconds.
pub const IDLE_SLEEP_MS: u64 = 3_600_000;

/// Where the start-up sequence stands.
#[derive(Clone, Copy, Debug, PartialEq, Eq, Structural)]
pub enum StartupPhase {
    RadioInit,
    /// Blinking checkpoint 1: the radio is up.
    Checkpoint1,
    Joining,
    JoinRetryWait,
    /// Blinking checkpoint 2: WiFi joined.
    Checkpoint2,
    LinkWait,
    ConfigWait,
    /// Blinking checkpoint 3: DHCP configuration up.
    Checkpoint3,
    UsbStart,
    ServicesStart,
    Running,
}

/// What the start-up task must do next.
#[derive(Clone, Copy, Debug, PartialEq, Eq, Structural)]
pub enum StartupAction {
    /// Bring up the radio with the given power-saving setting.
    InitRadio { power_save: bool },
    /// Show blink code `n` on the status LED.
    Blink(u32),
    /// Try to join the WiFi network; answer `Done` or `JoinFailed`.
    JoinWifi,
    /// Sleep for the given milliseconds.
    Sleep(u64),
    /// Wait until the network link is up.
    WaitLinkUp,
    /// Wait until the DHCP configuration is up.
    WaitConfigUp,
    /// Build the USB device with `usb_identity` and start it and the HID task.
    StartUsb,
    /// Start the log task and this many HTTP server tasks.
    StartServices { web_tasks: usize },
}

/// The outcome of the last start-up action.
#[derive(Clone, Copy, Debug, PartialEq, Eq, Structural)]
pub enum StartupEvent {
    /// The action completed (for a join: the join succeeded).
    Done,
    /// The WiFi join failed.
    JoinFailed,
}

/// The action of each phase.
pub open spec fn spec_startup_action(phase: StartupPhase) -> StartupAction {
    match phase {
        StartupPhase::RadioInit => StartupAction::InitRadio { power_save: false },
        StartupPhase::Checkpoint1 => StartupAction::Blink(1),
        StartupPhase::Joining => StartupAction::JoinWifi,
        StartupPhase::JoinRetryWait => StartupAction::Sleep(JOIN_RETRY_MS),
        StartupPhase::Checkpoint2 => StartupAction::Blink(2),
        StartupPhase::LinkWait => StartupAction::WaitLinkUp,
        StartupPhase::ConfigWait => StartupAction::WaitConfigUp,
        StartupPhase::Checkpoint3 => StartupAction::Blink(3),
        StartupPhase::UsbStart => StartupAction::StartUsb,
        StartupPhase::ServicesStart => StartupAction::StartServices { web_tasks: WEB_TASK_POOL_SIZE },
        StartupPhase::Running => StartupAction::Sleep(IDLE_SLEEP_MS),
    }
}

/// The phase after an event. Only a join can fail; `JoinFailed` anywhere else
/// leaves the phase unchanged.
pub open spec fn spec_startup_next(phase: StartupPhase, event: StartupEvent) -> StartupPhase {
    match event {
        StartupEvent::JoinFailed => match phase {
            StartupPhase::Joining => StartupPhase::JoinRetryWait,
            _ => phase,
        },
        StartupEvent::Done => match phase {
            StartupPhase::RadioInit => StartupPhase::Checkpoint1,
            StartupPhase::Checkpoint1 => StartupPhase::Joining,
            StartupPhase::Joining => StartupPhase::Checkpoint2,
            StartupPhase::JoinRetryWait => StartupPhase::Joining,
            StartupPhase::Checkpoint2 => StartupPhase::LinkWait,
            StartupPhase::LinkWait => StartupPhase::ConfigWait,
            StartupPhase::ConfigWait => StartupPhase::Checkpoint3,
            StartupPhase::Checkpoint3 => StartupPhase::UsbStart,
            StartupPhase::UsbStart => StartupPhase::ServicesStart,
            StartupPhase::ServicesStart => StartupPhase::Running,
            StartupPhase::Running => StartupPhase::Running,
        },
    }
}

/// One step: the next phase and its action.
pub open spec fn spec_startup_step(phase: StartupPhase, event: StartupEvent) -> (
    StartupPhase,
    StartupAction,
) {
    let next = spec_startup_next(phase, event);
    (next, spec_startup_action(next))
}

/// The first phase and its action.
pub fn startup_begin() -> (r: (StartupPhase, StartupAction))
    ensures
        r == (StartupPhase::RadioInit, spec_startup_action(StartupPhase::RadioInit)),
{
    (StartupPhase::RadioInit, startup_action(StartupPhase::RadioInit))
}

fn startup_action(phase: StartupPhase) -> (r: StartupAction)
    ensures
        r == spec_startup_action(phase),
{
    match phase {
        StartupPhase::RadioInit => StartupAction::InitRadio { power_save: false },
        StartupPhase::Checkpoint1 => StartupAction::Blink(1),
        StartupPhase::Joining => StartupAction::JoinWifi,
        StartupPhase::JoinRetryWait => StartupAction::Sleep(JOIN_RETRY_MS),
        StartupPhase::Checkpoint2 => StartupAction::Blink(2),
        StartupPhase::LinkWait => StartupAction::WaitLinkUp,
        StartupPhase::ConfigWait => StartupAction::WaitConfigUp,
        StartupPhase::Checkpoint3 => StartupAction::Blink(3),
        StartupPhase::UsbStart => StartupAction::StartUsb,
        StartupPhase::ServicesStart => StartupAction::StartServices { web_tasks: WEB_TASK_POOL_SIZE },
        StartupPhase::Running => StartupAction::Sleep(IDLE_SLEEP_MS),
    }
}

/// Hands the outcome of the last action to the sequence: the next phase and
/// its action.
pub fn startup_step(phase: StartupPhase, event: StartupEvent) -> (r: (StartupPhase, StartupAction))
    ensures
        r == spec_startup_step(phase, event),
{
    let next = match event {
        StartupEvent::JoinFailed => match phase {
            StartupPhase::Joining => StartupPhase::JoinRetryWait,
            _ => phase,
        },
        StartupEvent::Done => match phase {
            StartupPhase::RadioInit => StartupPhase::Checkpoint1,
            StartupPhase::Checkpoint1 => StartupPhase::Joining,
            StartupPhase::Joining => StartupPhase::Checkpoint2,
            StartupPhase::JoinRetryWait => StartupPhase::Joining,
            StartupPhase::Checkpoint2 => StartupPhase::LinkWait,
            StartupPhase::LinkWait => StartupPhase::ConfigWait,
            StartupPhase::ConfigWait => StartupPhase::Checkpoint3,
            StartupPhase::Checkpoint3 => StartupPhase::UsbStart,
            StartupPhase::UsbStart => StartupPhase::ServicesStart,
            StartupPhase::ServicesStart => StartupPhase::Running,
            StartupPhase::Running => StartupPhase::Running,
        },
    };
    (next, startup_action(next))
}

/// The phase after `n` actions that all succeed.
pub open spec fn startup_run_ok(phase: StartupPhase, n: nat) -> StartupPhase
    decreases n,
{
    if n == 0 {
        phase
    } else {
        startup_run_ok(spec_startup_next(phase, StartupEvent::Done), (n - 1) as nat)
    }
}

/// When every action succeeds, the start-up sequence brings up the radio with
/// power saving off, blinks once, joins WiFi, blinks twice, waits for the
/// link and then for DHCP, blinks three times, and only then starts USB, then
/// the log and web tasks, and then sleeps an hour at a time.
pub proof fn law_startup_order()
    ensures
        spec_startup_action(startup_run_ok(StartupPhase::RadioInit, 0))
            == (StartupAction::InitRadio { power_save: false }),
        spec_startup_action(startup_run_ok(StartupPhase::RadioInit, 1)) == StartupAction::Blink(1),
        spec_startup_action(startup_run_ok(StartupPhase::RadioInit, 2)) == StartupAction::JoinWifi,
        spec_startup_action(startup_run_ok(StartupPhase::RadioInit, 3)) == StartupAction::Blink(2),
        spec_startup_action(startup_run_ok(StartupPhase::RadioInit, 4))
            == StartupAction::WaitLinkUp,
        spec_startup_action(startup_run_ok(StartupPhase::RadioInit, 5))
            == StartupAction::WaitConfigUp,
        spec_startup_action(startup_run_ok(StartupPhase::RadioInit, 6)) == StartupAction::Blink(3),
        spec_startup_action(startup_run_ok(StartupPhase::RadioInit, 7)) == StartupAction::StartUsb,
        spec_startup_action(startup_run_ok(StartupPhase::RadioInit, 8))
            == (StartupAction::StartServices { web_tasks: WEB_TASK_POOL_SIZE }),
        startup_run_ok(StartupPhase::RadioInit, 9) == StartupPhase::Running,
        spec_startup_step(StartupPhase::Running, StartupEvent::Done) == (
            StartupPhase::Running,
            StartupAction::Sleep(IDLE_SLEEP_MS),
        ),
{
    reveal_with_fuel(startup_run_ok, 10);
}

/// A failed WiFi join is retried after a pause of `JOIN_RETRY_MS`, as often
/// as it fails; nothing else happens until a join succeeds.
pub proof fn law_join_retried()
    ensures
        spec_startup_step(StartupPhase::Joining, StartupEvent::JoinFailed) == (
            StartupPhase::JoinRetryWait,
            StartupAction::Sleep(JOIN_RETRY_MS),
        ),
        spec_startup_step(StartupPhase::JoinRetryWait, StartupEvent::Done) == (
            StartupPhase::Joining,
            StartupAction::JoinWifi,
        ),
{
}

/// USB is started only right after the third checkpoint, which comes only
/// right after the DHCP configuration is up, which comes only after the link.
pub proof fn law_usb_after_network(phase: StartupPhase, event: StartupEvent)
    ensures
        spec_startup_next(phase, event) == StartupPhase::UsbStart ==> phase
            == StartupPhase::Checkpoint3 || phase == StartupPhase::UsbStart,
        spec_startup_next(phase, event) == StartupPhase::Checkpoint3 ==> phase
            == StartupPhase::ConfigWait || phase == StartupPhase::Checkpoint3,
        spec_startup_next(phase, event) == StartupPhase::ConfigWait ==> phase
            == StartupPhase::LinkWait || phase == StartupPhase::ConfigWait,
{
}

/// The USB device the firmware presents: a HORI Pokken Controller.
#[derive(Clone, Copy, Debug)]
pub struct UsbIdentity {
    pub vendor_id: u16,
    pub product_id: u16,
    pub manufacturer: &'static str,
    pub product: &'static str,
    pub serial_number: Option<&'static str>,
    /// Maximum bus power draw, in milliamps.
    pub max_power: u16,
    pub max_packet_size_0: u8,
    /// Device release number, in binary-coded decimal.
    pub device_release: u16,
    /// USB specification release, in binary-coded decimal.
    pub bcd_usb: u16,
    /// Interval at which the host polls the HID endpoint, in milliseconds.
    pub hid_poll_ms: u8,
    pub hid_max_packet_size: u16,
}

pub open spec fn spec_usb_identity() -> UsbIdentity {
    UsbIdentity {
        vendor_id: 0x0F0D,
        product_id: 0x0092,
        manufacturer: "HORI CO.,LTD.",
        product: "POKKEN CONTROLLER",
        serial_number: None,
        max_power: 250,
        max_packet_size_0: 64,
        device_release: 0x0100,
        bcd_usb: 0x0200,
        hid_poll_ms: 5,
        hid_max_packet_size: 64,
    }
}

/// The USB identity of the device.
pub fn usb_identity() -> (r: UsbIdentity)
    ensures
        r == spec_usb_identity(),
{
    UsbIdentity {
        vendor_id: 0x0F0D,
        product_id: 0x0092,
        manufacturer: "HORI CO.,LTD.",
        product: "POKKEN CONTROLLER",
        serial_number: None,
        max_power: 250,
        max_packet_size_0: 64,
        device_release: 0x0100,
        bcd_usb: 0x0200,
        hid_poll_ms: 5,
        hid_max_packet_size: 64,
    }
}

} // verus!
