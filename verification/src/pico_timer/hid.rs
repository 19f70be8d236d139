//! The decisions of the firmware's HID task, as a state machine.
//!
//! The task that drives the USB endpoint asks the controller for its pending
//! action (`HidController::pending`), performs it (waits for the host, sends a
//! report, sleeps, waits for a key command, reads the clock) and hands the
//! outcome back as an event (`HidController::advance`). Every decision of the
//! task is made here; the driver only performs the I/O.
use vstd::prelude::*;
use super::switch_descriptor::{SwitchButton, SwitchGamepadDescriptor, SwitchHatValues};

verus! {

/// Interval between two reports while a key is held, and between keep-alive
/// reports while idle, in milliseconds.
pub const REPORT_INTERVAL_MS: u64 = 5;

/// How long a tap holds its button, in milliseconds.
pub const TAP_DURATION_MS: u64 = 50;

/// Pause after each shoulder press of the greeting sequence, in milliseconds.
pub const GREETING_PAUSE_MS: u64 = 120;

/// Time from the first to the second A press of character creation, in milliseconds.
pub const CHAR_CREATION_DELAY_MS: u64 = 25114;

/// A command received from the HTTP interface.
#[derive(Clone, Copy, Debug, PartialEq, Eq, Structural)]
pub enum KeyEvent {
    /// Press a button for `TAP_DURATION_MS`.
    Tap(SwitchButton),
    /// Hold a button for the given milliseconds.
    Hold(SwitchButton, u64),
    /// Hold the d-pad in a direction for the given milliseconds.
    DPad(SwitchHatValues, u64),
    /// Press A, wait `CHAR_CREATION_DELAY_MS`, press A again.
    CharCreation,
}

/// A diagnostic message of the HID task. The driver offers it to the log
/// without waiting: a full log drops it, and no report is delayed by it.
#[derive(Clone, Copy, Debug, PartialEq, Eq, Structural)]
pub enum HidLogMessage {
    /// About to wait for the USB host.
    UsbWaiting,
    /// The USB host has configured the device.
    UsbReady,
    /// A key command was received.
    CmdRecv,
    /// The received command is a tap.
    CmdTap,
    /// A keep-alive report could not be sent.
    UsbKeepaliveErr,
}

impl HidLogMessage {
    pub open spec fn spec_text(self) -> Seq<char> {
        match self {
            HidLogMessage::UsbWaiting => "USB_WAITING"@,
            HidLogMessage::UsbReady => "USB_READY"@,
            HidLogMessage::CmdRecv => "CMD_RECV"@,
            HidLogMessage::CmdTap => "CMD_TAP"@,
            HidLogMessage::UsbKeepaliveErr => "USB_KEEPALIVE_ERR"@,
        }
    }

    /// The message's text in the log.
    pub fn text(&self) -> (r: &'static str)
        ensures
            r@ == self.spec_text(),
    {
        match self {
            HidLogMessage::UsbWaiting => "USB_WAITING",
            HidLogMessage::UsbReady => "USB_READY",
            HidLogMessage::CmdRecv => "CMD_RECV",
            HidLogMessage::CmdTap => "CMD_TAP",
            HidLogMessage::UsbKeepaliveErr => "USB_KEEPALIVE_ERR",
        }
    }
}

/// What the driver must do next.
#[derive(Clone, Copy, Debug, PartialEq, Eq, Structural)]
pub enum HidAction {
    /// Offer the message to the log without waiting; answer `Logged`.
    Log(HidLogMessage),
    /// Wait until the USB host has configured the device; answer `HostReady`.
    WaitHostReady,
    /// Send the report; answer `Sent` or `SendFailed`.
    Send(SwitchGamepadDescriptor),
    /// Sleep for the given milliseconds; answer `Slept`.
    Sleep(u64),
    /// Wait for a key command for at most the given milliseconds; answer
    /// `Key(..)` or `TimedOut`.
    AwaitKey(u64),
    /// Read the monotonic clock in milliseconds; answer `Clock(now)`.
    ReadClock,
}

/// The outcome of the last action.
#[derive(Clone, Copy, Debug, PartialEq, Eq, Structural)]
pub enum HidEvent {
    Logged,
    HostReady,
    Sent,
    SendFailed,
    Slept,
    Key(KeyEvent),
    TimedOut,
    Clock(u64),
}

/// Where a press goes once its button is released.
#[derive(Clone, Copy, Debug, PartialEq, Eq, Structural)]
pub enum AfterRelease {
    /// Back to waiting for key commands.
    Listen,
    /// Keep the controller alive with neutral reports until the deadline
    /// (clock milliseconds), then press A again.
    FillUntil(u64),
}

/// The phase of the controller; each phase has exactly one pending action.
#[derive(Clone, Copy, Debug, PartialEq, Eq, Structural)]
pub enum HidPhase {
    /// Logging that the host is about to be waited for.
    AnnouncingWait,
    /// Waiting for the host to configure the device.
    AwaitingHost,
    /// Logging that the host is ready.
    AnnouncingReady,
    /// Logging that the key command was received.
    Received(KeyEvent),
    /// Logging that the received key command is a tap.
    NotingTap(KeyEvent),
    /// Logging that the keep-alive report failed.
    ReportingKeepAliveError,
    /// Step `i` (0 to 5) of the greeting: L, pause, release, R, pause, release.
    Greeting(u8),
    /// Waiting for a key command or the keep-alive tick.
    Listening,
    /// Sending the keep-alive report.
    KeepingAlive,
    /// Reading the clock to fix the character creation deadline.
    StartingCharCreation,
    /// Sending a pressed report; `left` pressed reports remain, this one included.
    Holding { left: u64, next: AfterRelease },
    /// Pausing after a pressed report; `left` pressed reports remain.
    Pausing { left: u64, next: AfterRelease },
    /// Sending the neutral report that releases the press.
    Releasing { next: AfterRelease },
    /// Reading the clock while waiting for the deadline.
    Filling { deadline: u64 },
    /// Sending a neutral filler report.
    FillSending { deadline: u64 },
    /// Pausing after a filler report.
    FillPausing { deadline: u64 },
}

/// The state of the HID task: the current report and the phase.
#[derive(Clone, Copy, Debug, PartialEq, Eq, Structural)]
pub struct HidController {
    pub report: SwitchGamepadDescriptor,
    pub phase: HidPhase,
}

/// Number of pressed reports sent for a press of `ms` milliseconds: one per
/// report interval, at least one.
pub open spec fn spec_press_steps(ms: u64) -> u64 {
    if ms / REPORT_INTERVAL_MS >= 1 {
        (ms / REPORT_INTERVAL_MS) as u64
    } else {
        1
    }
}

/// Number of pressed reports sent for a press of `ms` milliseconds.
pub fn press_steps(ms: u64) -> (r: u64)
    ensures
        r == spec_press_steps(ms),
        r >= 1,
        r * REPORT_INTERVAL_MS <= ms || r == 1,
{
    let s = ms / REPORT_INTERVAL_MS;
    if s >= 1 {
        s
    } else {
        1
    }
}

/// The report with only `b` held.
pub open spec fn pressed_button(b: SwitchButton) -> SwitchGamepadDescriptor {
    SwitchGamepadDescriptor { buttons: b.mask(), ..SwitchGamepadDescriptor::spec_neutral() }
}

/// The report with the hat in direction `d`.
pub open spec fn pressed_hat(d: SwitchHatValues) -> SwitchGamepadDescriptor {
    SwitchGamepadDescriptor { hat: d.spec_value(), ..SwitchGamepadDescriptor::spec_neutral() }
}

/// The action of each step of the greeting, which presses L then R, one at a time.
pub open spec fn greeting_action(i: u8) -> HidAction {
    if i == 0 {
        HidAction::Send(pressed_button(SwitchButton::BtnL))
    } else if i == 1 || i == 4 {
        HidAction::Sleep(GREETING_PAUSE_MS)
    } else if i == 3 {
        HidAction::Send(pressed_button(SwitchButton::BtnR))
    } else {
        HidAction::Send(SwitchGamepadDescriptor::spec_neutral())
    }
}

/// Whether `e` is the outcome of action `a`.
pub open spec fn answers(a: HidAction, e: HidEvent) -> bool {
    match a {
        HidAction::Log(_) => e == HidEvent::Logged,
        HidAction::WaitHostReady => e == HidEvent::HostReady,
        HidAction::Send(_) => e == HidEvent::Sent || e == HidEvent::SendFailed,
        HidAction::Sleep(_) => e == HidEvent::Slept,
        HidAction::AwaitKey(_) => e is Key || e == HidEvent::TimedOut,
        HidAction::ReadClock => e is Clock,
    }
}

impl HidController {
    /// The action that the controller waits on.
    pub open spec fn spec_pending(self) -> HidAction {
        match self.phase {
            HidPhase::AnnouncingWait => HidAction::Log(HidLogMessage::UsbWaiting),
            HidPhase::AwaitingHost => HidAction::WaitHostReady,
            HidPhase::AnnouncingReady => HidAction::Log(HidLogMessage::UsbReady),
            HidPhase::Received(_) => HidAction::Log(HidLogMessage::CmdRecv),
            HidPhase::NotingTap(_) => HidAction::Log(HidLogMessage::CmdTap),
            HidPhase::ReportingKeepAliveError => HidAction::Log(HidLogMessage::UsbKeepaliveErr),
            HidPhase::Greeting(i) => greeting_action(i),
            HidPhase::Listening => HidAction::AwaitKey(REPORT_INTERVAL_MS),
            HidPhase::KeepingAlive => HidAction::Send(self.report),
            HidPhase::StartingCharCreation => HidAction::ReadClock,
            HidPhase::Holding { .. } => HidAction::Send(self.report),
            HidPhase::Pausing { .. } => HidAction::Sleep(REPORT_INTERVAL_MS),
            HidPhase::Releasing { .. } => HidAction::Send(self.report),
            HidPhase::Filling { .. } => HidAction::ReadClock,
            HidPhase::FillSending { .. } => HidAction::Send(self.report),
            HidPhase::FillPausing { .. } => HidAction::Sleep(REPORT_INTERVAL_MS),
        }
    }

    /// Release the press: the report goes back to neutral and is sent.
    pub open spec fn release(self, next: AfterRelease) -> HidController {
        HidController {
            report: SwitchGamepadDescriptor::spec_neutral(),
            phase: HidPhase::Releasing { next },
        }
    }

    /// Start a press of A held for a tap, followed by `next`.
    pub open spec fn press_a(self, next: AfterRelease) -> HidController {
        HidController {
            report: SwitchGamepadDescriptor { buttons: SwitchButton::BtnA.mask(), ..self.report },
            phase: HidPhase::Holding { left: spec_press_steps(TAP_DURATION_MS), next },
        }
    }

    /// The reaction to a key command received while listening.
    pub open spec fn start_key(self, k: KeyEvent) -> HidController {
        match k {
            KeyEvent::Tap(b) => HidController {
                report: SwitchGamepadDescriptor { buttons: b.mask(), ..self.report },
                phase: HidPhase::Holding {
                    left: spec_press_steps(TAP_DURATION_MS),
                    next: AfterRelease::Listen,
                },
            },
            KeyEvent::Hold(b, ms) => HidController {
                report: SwitchGamepadDescriptor { buttons: b.mask(), ..self.report },
                phase: HidPhase::Holding { left: spec_press_steps(ms), next: AfterRelease::Listen },
            },
            KeyEvent::DPad(d, ms) => HidController {
                report: SwitchGamepadDescriptor { hat: d.spec_value(), ..self.report },
                phase: HidPhase::Holding { left: spec_press_steps(ms), next: AfterRelease::Listen },
            },
            KeyEvent::CharCreation => HidController {
                report: SwitchGamepadDescriptor { buttons: SwitchButton::BtnA.mask(), ..self.report },
                phase: HidPhase::StartingCharCreation,
            },
        }
    }

    /// The state after event `e`. An event that does not answer the pending
    /// action leaves the state unchanged.
    pub open spec fn spec_advance(self, e: HidEvent) -> HidController {
        if !answers(self.spec_pending(), e) {
            self
        } else {
            match self.phase {
                HidPhase::AnnouncingWait => HidController { phase: HidPhase::AwaitingHost, ..self },
                HidPhase::AwaitingHost => HidController {
                    report: SwitchGamepadDescriptor::spec_neutral(),
                    phase: HidPhase::AnnouncingReady,
                },
                HidPhase::AnnouncingReady => HidController { phase: HidPhase::Greeting(0), ..self },
                HidPhase::Received(k) => match k {
                    KeyEvent::Tap(_) => HidController { phase: HidPhase::NotingTap(k), ..self },
                    _ => self.start_key(k),
                },
                HidPhase::NotingTap(k) => self.start_key(k),
                HidPhase::ReportingKeepAliveError => HidController {
                    phase: HidPhase::AnnouncingWait,
                    ..self
                },
                HidPhase::Greeting(i) => if i >= 5 {
                    HidController {
                        report: SwitchGamepadDescriptor::spec_neutral(),
                        phase: HidPhase::Listening,
                    }
                } else {
                    HidController { phase: HidPhase::Greeting((i + 1) as u8), ..self }
                },
                HidPhase::Listening => match e {
                    HidEvent::Key(k) => HidController { phase: HidPhase::Received(k), ..self },
                    _ => HidController { phase: HidPhase::KeepingAlive, ..self },
                },
                HidPhase::KeepingAlive => if e == HidEvent::Sent {
                    HidController { phase: HidPhase::Listening, ..self }
                } else {
                    HidController { phase: HidPhase::ReportingKeepAliveError, ..self }
                },
                HidPhase::StartingCharCreation => match e {
                    HidEvent::Clock(now) => self.press_a(
                        AfterRelease::FillUntil(now.saturating_add(CHAR_CREATION_DELAY_MS)),
                    ),
                    _ => self,
                },
                HidPhase::Holding { left, next } => if e == HidEvent::Sent {
                    HidController {
                        phase: HidPhase::Pausing { left: if left >= 1 { (left - 1) as u64 } else { 0 }, next },
                        ..self
                    }
                } else {
                    self.release(next)
                },
                HidPhase::Pausing { left, next } => if left > 0 {
                    HidController { phase: HidPhase::Holding { left, next }, ..self }
                } else {
                    self.release(next)
                },
                HidPhase::Releasing { next } => match next {
                    AfterRelease::Listen => HidController { phase: HidPhase::Listening, ..self },
                    AfterRelease::FillUntil(deadline) => HidController {
                        phase: HidPhase::Filling { deadline },
                        ..self
                    },
                },
                HidPhase::Filling { deadline } => match e {
                    HidEvent::Clock(now) => if now < deadline {
                        HidController { phase: HidPhase::FillSending { deadline }, ..self }
                    } else {
                        self.press_a(AfterRelease::Listen)
                    },
                    _ => self,
                },
                HidPhase::FillSending { deadline } => if e == HidEvent::Sent {
                    HidController { phase: HidPhase::FillPausing { deadline }, ..self }
                } else {
                    self.press_a(AfterRelease::Listen)
                },
                HidPhase::FillPausing { deadline } => HidController {
                    phase: HidPhase::Filling { deadline },
                    ..self
                },
            }
        }
    }

    /// A controller about to log that it waits for the USB host.
    pub open spec fn spec_new() -> HidController {
        HidController {
            report: SwitchGamepadDescriptor::spec_neutral(),
            phase: HidPhase::AnnouncingWait,
        }
    }

    /// The controller's invariant: outside a press its report is neutral,
    /// during a press it is a well-shaped report, the greeting step is in range,
    /// and a press has a report left to send.
    pub open spec fn wf(self) -> bool {
        match self.phase {
            HidPhase::Greeting(i) => i <= 5 && self.report == SwitchGamepadDescriptor::spec_neutral(),
            HidPhase::Holding { left, .. } => left >= 1 && self.report.well_shaped(),
            HidPhase::Pausing { .. } => self.report.well_shaped(),
            HidPhase::StartingCharCreation => self.report == pressed_button(SwitchButton::BtnA),
            _ => self.report == SwitchGamepadDescriptor::spec_neutral(),
        }
    }

    /// A controller that first logs that it waits for the USB host.
    pub fn new() -> (r: Self)
        ensures
            r == Self::spec_new(),
            r.wf(),
    {
        HidController {
            report: SwitchGamepadDescriptor::neutral(),
            phase: HidPhase::AnnouncingWait,
        }
    }

    /// The action that the driver must perform next.
    pub fn pending(&self) -> (r: HidAction)
        ensures
            r == self.spec_pending(),
    {
        match self.phase {
            HidPhase::AnnouncingWait => HidAction::Log(HidLogMessage::UsbWaiting),
            HidPhase::AwaitingHost => HidAction::WaitHostReady,
            HidPhase::AnnouncingReady => HidAction::Log(HidLogMessage::UsbReady),
            HidPhase::Received(_) => HidAction::Log(HidLogMessage::CmdRecv),
            HidPhase::NotingTap(_) => HidAction::Log(HidLogMessage::CmdTap),
            HidPhase::ReportingKeepAliveError => HidAction::Log(HidLogMessage::UsbKeepaliveErr),
            HidPhase::Greeting(i) => greeting_step(i),
            HidPhase::Listening => HidAction::AwaitKey(REPORT_INTERVAL_MS),
            HidPhase::KeepingAlive => HidAction::Send(self.report),
            HidPhase::StartingCharCreation => HidAction::ReadClock,
            HidPhase::Holding { .. } => HidAction::Send(self.report),
            HidPhase::Pausing { .. } => HidAction::Sleep(REPORT_INTERVAL_MS),
            HidPhase::Releasing { .. } => HidAction::Send(self.report),
            HidPhase::Filling { .. } => HidAction::ReadClock,
            HidPhase::FillSending { .. } => HidAction::Send(self.report),
            HidPhase::FillPausing { .. } => HidAction::Sleep(REPORT_INTERVAL_MS),
        }
    }

    /// Hands the outcome of the pending action to the controller.
    pub fn advance(&mut self, e: HidEvent)
        ensures
            *final(self) == old(self).spec_advance(e),
    {
        let pending = self.pending();
        if !answers_exec(pending, e) {
            return;
        }
        let neutral = SwitchGamepadDescriptor::neutral();
        match self.phase {
            HidPhase::AnnouncingWait => {
                self.phase = HidPhase::AwaitingHost;
            },
            HidPhase::AwaitingHost => {
                self.report = neutral;
                self.phase = HidPhase::AnnouncingReady;
            },
            HidPhase::AnnouncingReady => {
                self.phase = HidPhase::Greeting(0);
            },
            HidPhase::Received(k) => {
                match k {
                    KeyEvent::Tap(_) => self.phase = HidPhase::NotingTap(k),
                    _ => self.start_key_exec(k),
                }
            },
            HidPhase::NotingTap(k) => {
                self.start_key_exec(k);
            },
            HidPhase::ReportingKeepAliveError => {
                self.phase = HidPhase::AnnouncingWait;
            },
            HidPhase::Greeting(i) => {
                if i >= 5 {
                    self.report = neutral;
                    self.phase = HidPhase::Listening;
                } else {
                    self.phase = HidPhase::Greeting(i + 1);
                }
            },
            HidPhase::Listening => {
                match e {
                    HidEvent::Key(k) => self.phase = HidPhase::Received(k),
                    _ => self.phase = HidPhase::KeepingAlive,
                }
            },
            HidPhase::KeepingAlive => {
                if e == HidEvent::Sent {
                    self.phase = HidPhase::Listening;
                } else {
                    self.phase = HidPhase::ReportingKeepAliveError;
                }
            },
            HidPhase::StartingCharCreation => {
                if let HidEvent::Clock(now) = e {
                    let deadline = now.saturating_add(CHAR_CREATION_DELAY_MS);
                    self.press_a_exec(AfterRelease::FillUntil(deadline));
                }
            },
            HidPhase::Holding { left, next } => {
                if e == HidEvent::Sent {
                    let rest = if left >= 1 { left - 1 } else { 0 };
                    self.phase = HidPhase::Pausing { left: rest, next };
                } else {
                    self.report = neutral;
                    self.phase = HidPhase::Releasing { next };
                }
            },
            HidPhase::Pausing { left, next } => {
                if left > 0 {
                    self.phase = HidPhase::Holding { left, next };
                } else {
                    self.report = neutral;
                    self.phase = HidPhase::Releasing { next };
                }
            },
            HidPhase::Releasing { next } => {
                match next {
                    AfterRelease::Listen => self.phase = HidPhase::Listening,
                    AfterRelease::FillUntil(deadline) => self.phase = HidPhase::Filling { deadline },
                }
            },
            HidPhase::Filling { deadline } => {
                if let HidEvent::Clock(now) = e {
                    if now < deadline {
                        self.phase = HidPhase::FillSending { deadline };
                    } else {
                        self.press_a_exec(AfterRelease::Listen);
                    }
                }
            },
            HidPhase::FillSending { deadline } => {
                if e == HidEvent::Sent {
                    self.phase = HidPhase::FillPausing { deadline };
                } else {
                    self.press_a_exec(AfterRelease::Listen);
                }
            },
            HidPhase::FillPausing { deadline } => {
                self.phase = HidPhase::Filling { deadline };
            },
        }
    }

    fn press_a_exec(&mut self, next: AfterRelease)
        ensures
            *final(self) == old(self).press_a(next),
    {
        self.report.buttons = SwitchButton::BtnA.bits();
        self.phase = HidPhase::Holding { left: press_steps(TAP_DURATION_MS), next };
    }

    fn start_key_exec(&mut self, k: KeyEvent)
        ensures
            *final(self) == old(self).start_key(k),
    {
        match k {
            KeyEvent::Tap(b) => {
                self.report.buttons = b.bits();
                self.phase = HidPhase::Holding {
                    left: press_steps(TAP_DURATION_MS),
                    next: AfterRelease::Listen,
                };
            },
            KeyEvent::Hold(b, ms) => {
                self.report.buttons = b.bits();
                self.phase = HidPhase::Holding { left: press_steps(ms), next: AfterRelease::Listen };
            },
            KeyEvent::DPad(d, ms) => {
                self.report.hat = d.value();
                self.phase = HidPhase::Holding { left: press_steps(ms), next: AfterRelease::Listen };
            },
            KeyEvent::CharCreation => {
                self.report.buttons = SwitchButton::BtnA.bits();
                self.phase = HidPhase::StartingCharCreation;
            },
        }
    }
}

fn greeting_step(i: u8) -> (r: HidAction)
    ensures
        r == greeting_action(i),
{
    if i == 0 {
        let mut press = SwitchGamepadDescriptor::neutral();
        press.buttons = SwitchButton::BtnL.bits();
        HidAction::Send(press)
    } else if i == 1 || i == 4 {
        HidAction::Sleep(GREETING_PAUSE_MS)
    } else if i == 3 {
        let mut press = SwitchGamepadDescriptor::neutral();
        press.buttons = SwitchButton::BtnR.bits();
        HidAction::Send(press)
    } else {
        HidAction::Send(SwitchGamepadDescriptor::neutral())
    }
}

fn answers_exec(a: HidAction, e: HidEvent) -> (r: bool)
    ensures
        r == answers(a, e),
{
    match a {
        HidAction::Log(_) => e == HidEvent::Logged,
        HidAction::WaitHostReady => e == HidEvent::HostReady,
        HidAction::Send(_) => e == HidEvent::Sent || e == HidEvent::SendFailed,
        HidAction::Sleep(_) => e == HidEvent::Slept,
        HidAction::AwaitKey(_) => match e {
            HidEvent::Key(_) => true,
            HidEvent::TimedOut => true,
            _ => false,
        },
        HidAction::ReadClock => match e {
            HidEvent::Clock(_) => true,
            _ => false,
        },
    }
}

} // verus!
