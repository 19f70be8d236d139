//! Properties of the HID controller over whole runs.
use vstd::prelude::*;
use super::hid::{
    greeting_action, pressed_button, pressed_hat, spec_press_steps, AfterRelease, HidAction,
    HidController, HidEvent, HidLogMessage, HidPhase, KeyEvent, CHAR_CREATION_DELAY_MS,
    GREETING_PAUSE_MS, REPORT_INTERVAL_MS, TAP_DURATION_MS,
};
use super::switch_descriptor::{is_button_mask, is_hat_value, SwitchButton, SwitchGamepadDescriptor};

verus! {

/// The outcome of an action when everything succeeds (no key command arrives
/// while listening, and the clock reads zero).
pub open spec fn ok_answer(a: HidAction) -> HidEvent {
    match a {
        HidAction::Log(_) => HidEvent::Logged,
        HidAction::WaitHostReady => HidEvent::HostReady,
        HidAction::Send(_) => HidEvent::Sent,
        HidAction::Sleep(_) => HidEvent::Slept,
        HidAction::AwaitKey(_) => HidEvent::TimedOut,
        HidAction::ReadClock => HidEvent::Clock(0),
    }
}

/// The controller after `n` actions that all succeed.
pub open spec fn run_ok(c: HidController, n: nat) -> HidController
    decreases n,
{
    if n == 0 {
        c
    } else {
        run_ok(c.spec_advance(ok_answer(c.spec_pending())), (n - 1) as nat)
    }
}

/// The controller after the events `es`, in order, from `c`.
pub open spec fn run_events(c: HidController, es: Seq<HidEvent>) -> HidController
    decreases es.len(),
{
    if es.len() == 0 {
        c
    } else {
        run_events(c, es.drop_last()).spec_advance(es.last())
    }
}

/// How many log messages a key command produces before its first report.
pub open spec fn key_log_count(k: KeyEvent) -> nat {
    if k is Tap {
        2
    } else {
        1
    }
}

/// The report that a tap, hold or d-pad command holds.
pub open spec fn key_report(k: KeyEvent) -> SwitchGamepadDescriptor {
    match k {
        KeyEvent::Tap(b) => pressed_button(b),
        KeyEvent::Hold(b, _) => pressed_button(b),
        KeyEvent::DPad(d, _) => pressed_hat(d),
        KeyEvent::CharCreation => pressed_button(SwitchButton::BtnA),
    }
}

/// The number of pressed reports that a command sends.
pub open spec fn key_steps(k: KeyEvent) -> u64 {
    match k {
        KeyEvent::Tap(_) => spec_press_steps(TAP_DURATION_MS),
        KeyEvent::Hold(_, ms) => spec_press_steps(ms),
        KeyEvent::DPad(_, ms) => spec_press_steps(ms),
        KeyEvent::CharCreation => spec_press_steps(TAP_DURATION_MS),
    }
}

proof fn lemma_run_ok_split(c: HidController, a: nat, b: nat)
    ensures
        run_ok(c, a + b) == run_ok(run_ok(c, a), b),
    decreases a,
{
    if a > 0 {
        let c1 = c.spec_advance(ok_answer(c.spec_pending()));
        lemma_run_ok_split(c1, (a - 1) as nat, b);
        assert((a + b - 1) as nat == (a - 1) as nat + b);
    }
}

/// Two successful actions of a press with more than one report left.
proof fn lemma_hold_two_steps(c: HidController, left: u64, next: AfterRelease)
    requires
        c.phase == (HidPhase::Holding { left, next }),
        left >= 1,
    ensures
        left > 1 ==> run_ok(c, 2) == (HidController {
            report: c.report,
            phase: HidPhase::Holding { left: (left - 1) as u64, next },
        }),
        left == 1 ==> run_ok(c, 2) == c.release(next),
        run_ok(c, 1) == (HidController {
            report: c.report,
            phase: HidPhase::Pausing { left: (left - 1) as u64, next },
        }),
{
    reveal_with_fuel(run_ok, 3);
}

/// A press of `left` reports: its first `2 * j` successful actions leave it
/// holding with `left - j` reports to go.
proof fn lemma_hold_prefix(c: HidController, left: u64, next: AfterRelease, j: nat)
    requires
        c.phase == (HidPhase::Holding { left, next }),
        left >= 1,
        j < left,
    ensures
        run_ok(c, 2 * j) == (HidController {
            report: c.report,
            phase: HidPhase::Holding { left: (left - j) as u64, next },
        }),
    decreases j,
{
    if j > 0 {
        lemma_hold_prefix(c, left, next, (j - 1) as nat);
        let mid = run_ok(c, 2 * (j - 1) as nat);
        lemma_run_ok_split(c, 2 * (j - 1) as nat, 2);
        assert(2 * (j - 1) as nat + 2 == 2 * j);
        lemma_hold_two_steps(mid, (left - (j - 1)) as u64, next);
    }
}

/// Where a whole press leads: after `2 * left` successful actions it sends the
/// neutral report, and one action later it continues as `next` says.
proof fn lemma_hold_complete(c: HidController, left: u64, next: AfterRelease)
    requires
        c.phase == (HidPhase::Holding { left, next }),
        left >= 1,
    ensures
        forall|j: nat|
            j < left ==> #[trigger] run_ok(c, 2 * j) == (HidController {
                report: c.report,
                phase: HidPhase::Holding { left: (left - j) as u64, next },
            }),
        forall|j: nat|
            j < left ==> (#[trigger] run_ok(c, 2 * j + 1)).spec_pending() == HidAction::Sleep(
                REPORT_INTERVAL_MS,
            ),
        run_ok(c, 2 * left as nat) == c.release(next),
        run_ok(c, 2 * left as nat + 1) == (match next {
            AfterRelease::Listen => HidController {
                report: SwitchGamepadDescriptor::spec_neutral(),
                phase: HidPhase::Listening,
            },
            AfterRelease::FillUntil(deadline) => HidController {
                report: SwitchGamepadDescriptor::spec_neutral(),
                phase: HidPhase::Filling { deadline },
            },
        }),
{
    assert forall|j: nat| j < left implies #[trigger] run_ok(c, 2 * j) == (HidController {
        report: c.report,
        phase: HidPhase::Holding { left: (left - j) as u64, next },
    }) by {
        lemma_hold_prefix(c, left, next, j);
    }
    assert forall|j: nat| j < left implies (#[trigger] run_ok(c, 2 * j + 1)).spec_pending()
        == HidAction::Sleep(REPORT_INTERVAL_MS) by {
        lemma_hold_prefix(c, left, next, j);
        lemma_run_ok_split(c, 2 * j, 1);
        lemma_hold_two_steps(run_ok(c, 2 * j), (left - j) as u64, next);
    }
    let last = (left - 1) as nat;
    lemma_hold_prefix(c, left, next, last);
    lemma_run_ok_split(c, 2 * last, 2);
    assert(2 * last + 2 == 2 * left as nat);
    lemma_hold_two_steps(run_ok(c, 2 * last), 1, next);
    lemma_run_ok_split(c, 2 * left as nat, 1);
    reveal_with_fuel(run_ok, 2);
}

/// The controller's invariant holds in every reachable state: every event
/// keeps it.
pub proof fn law_advance_keeps_wf(c: HidController, e: HidEvent)
    requires
        c.wf(),
    ensures
        c.spec_advance(e).wf(),
{
    let a = SwitchButton::BtnA;
    assert(is_button_mask(a.mask()));
    match c.phase {
        HidPhase::Received(k) => lemma_key_report_well_shaped(k),
        HidPhase::NotingTap(k) => lemma_key_report_well_shaped(k),
        _ => {},
    }
}

/// The report of a key command, pressed over the neutral report, is well shaped.
proof fn lemma_key_report_well_shaped(k: KeyEvent)
    ensures
        key_report(k).well_shaped(),
        SwitchGamepadDescriptor::spec_neutral().well_shaped(),
{
    match k {
        KeyEvent::Tap(b) => assert(is_button_mask(b.mask())),
        KeyEvent::Hold(b, _) => assert(is_button_mask(b.mask())),
        KeyEvent::DPad(d, _) => assert(is_hat_value(d.spec_value())),
        KeyEvent::CharCreation => assert(is_button_mask(SwitchButton::BtnA.mask())),
    }
}

proof fn lemma_pending_report_well_shaped(c: HidController)
    requires
        c.wf(),
    ensures
        c.spec_pending() matches HidAction::Send(r) ==> r.well_shaped(),
{
    let l = SwitchButton::BtnL;
    let r = SwitchButton::BtnR;
    assert(l.mask() == 0x10 && r.mask() == 0x20);
}

/// Every report the controller ever sends, after any history of events from
/// its start, has centred sticks, vendor byte zero, a hat in one of its
/// positions, and at most one button held, never together with a
/// non-neutral hat.
pub proof fn law_sent_reports_well_shaped(es: Seq<HidEvent>)
    ensures
        run_events(HidController::spec_new(), es).wf(),
        run_events(HidController::spec_new(), es).spec_pending() matches HidAction::Send(r)
            ==> r.well_shaped(),
    decreases es.len(),
{
    if es.len() > 0 {
        law_sent_reports_well_shaped(es.drop_last());
        law_advance_keeps_wf(run_events(HidController::spec_new(), es.drop_last()), es.last());
    }
    lemma_pending_report_well_shaped(run_events(HidController::spec_new(), es));
}

/// Between key commands the keep-alive tick sends the neutral report; when it
/// succeeds the controller listens again; when it fails the controller logs
/// the failure, logs that it waits for the host, and waits for the host.
pub proof fn law_keep_alive(c: HidController)
    requires
        c.wf(),
        c.phase == HidPhase::Listening,
    ensures
        ({
            let k = c.spec_advance(HidEvent::TimedOut);
            let f = k.spec_advance(HidEvent::SendFailed);
            &&& k.spec_pending() == HidAction::Send(SwitchGamepadDescriptor::spec_neutral())
            &&& k.spec_advance(HidEvent::Sent) == c
            &&& f.spec_pending() == HidAction::Log(HidLogMessage::UsbKeepaliveErr)
            &&& f.spec_advance(HidEvent::Logged).spec_pending() == HidAction::Log(
                HidLogMessage::UsbWaiting,
            )
            &&& f.spec_advance(HidEvent::Logged).spec_advance(HidEvent::Logged).phase
                == HidPhase::AwaitingHost
        }),
{
}

/// The controller logs that it waits for the host, waits for it, and logs
/// that it is ready; then it presses L and releases it, then presses R and
/// releases it, pausing after each press, and then listens.
pub proof fn law_greeting(c: HidController)
    requires
        c.phase == HidPhase::AnnouncingWait,
    ensures
        ({
            let w = c.spec_advance(HidEvent::Logged);
            let g = w.spec_advance(HidEvent::HostReady);
            let neutral = SwitchGamepadDescriptor::spec_neutral();
            &&& c.spec_pending() == HidAction::Log(HidLogMessage::UsbWaiting)
            &&& w.spec_pending() == HidAction::WaitHostReady
            &&& g.spec_pending() == HidAction::Log(HidLogMessage::UsbReady)
            &&& run_ok(g, 1).spec_pending() == HidAction::Send(pressed_button(SwitchButton::BtnL))
            &&& run_ok(g, 2).spec_pending() == HidAction::Sleep(GREETING_PAUSE_MS)
            &&& run_ok(g, 3).spec_pending() == HidAction::Send(neutral)
            &&& run_ok(g, 4).spec_pending() == HidAction::Send(pressed_button(SwitchButton::BtnR))
            &&& run_ok(g, 5).spec_pending() == HidAction::Sleep(GREETING_PAUSE_MS)
            &&& run_ok(g, 6).spec_pending() == HidAction::Send(neutral)
            &&& run_ok(g, 7) == (HidController { report: neutral, phase: HidPhase::Listening })
        }),
{
    reveal_with_fuel(run_ok, 8);
}

/// A received key command is logged, and a tap is logged as such. Then a
/// tap, hold or d-pad command sends its pressed report `n` times, each
/// followed by a pause of one report interval, where `n` is the duration over
/// the report interval and at least one; then it sends the neutral report and
/// listens again.
pub proof fn law_press_sequence(c: HidController, k: KeyEvent, j: nat)
    requires
        c.wf(),
        c.phase == HidPhase::Listening,
        !(k is CharCreation),
    ensures
        ({
            let r = c.spec_advance(HidEvent::Key(k));
            let p = run_ok(r, key_log_count(k));
            let n = key_steps(k) as nat;
            &&& r.spec_pending() == HidAction::Log(HidLogMessage::CmdRecv)
            &&& k is Tap ==> run_ok(r, 1).spec_pending() == HidAction::Log(HidLogMessage::CmdTap)
            &&& j < n ==> run_ok(p, 2 * j).spec_pending() == HidAction::Send(key_report(k))
            &&& j < n ==> run_ok(p, 2 * j + 1).spec_pending() == HidAction::Sleep(
                REPORT_INTERVAL_MS,
            )
            &&& run_ok(p, 2 * n).spec_pending() == HidAction::Send(
                SwitchGamepadDescriptor::spec_neutral(),
            )
            &&& run_ok(p, 2 * n + 1) == (HidController {
                report: SwitchGamepadDescriptor::spec_neutral(),
                phase: HidPhase::Listening,
            })
        }),
{
    let r = c.spec_advance(HidEvent::Key(k));
    reveal_with_fuel(run_ok, 3);
    let p = run_ok(r, key_log_count(k));
    assert(p.report == key_report(k));
    lemma_hold_complete(p, key_steps(k), AfterRelease::Listen);
    if j < key_steps(k) {
        assert(run_ok(p, 2 * j).spec_pending() == HidAction::Send(key_report(k)));
        assert(run_ok(p, 2 * j + 1).spec_pending() == HidAction::Sleep(REPORT_INTERVAL_MS));
    }
}

/// A send that fails during a press ends the press: the next action sends the
/// neutral report.
pub proof fn law_failed_press_releases(c: HidController)
    requires
        c.phase is Holding,
    ensures
        c.spec_advance(HidEvent::SendFailed).spec_pending() == HidAction::Send(
            SwitchGamepadDescriptor::spec_neutral(),
        ),
{
}

/// Character creation presses A as a tap, fixes its deadline at the clock
/// reading plus `CHAR_CREATION_DELAY_MS`, and after the tap sends neutral
/// filler reports until the deadline.
pub proof fn law_char_creation_first_press(c: HidController, now: u64)
    requires
        c.wf(),
        c.phase == HidPhase::Listening,
    ensures
        ({
            let r = c.spec_advance(HidEvent::Key(KeyEvent::CharCreation));
            let s = r.spec_advance(HidEvent::Logged);
            let p = s.spec_advance(HidEvent::Clock(now));
            let deadline = now.saturating_add(CHAR_CREATION_DELAY_MS);
            let n = spec_press_steps(TAP_DURATION_MS) as nat;
            &&& r.spec_pending() == HidAction::Log(HidLogMessage::CmdRecv)
            &&& s.spec_pending() == HidAction::ReadClock
            &&& p.spec_pending() == HidAction::Send(pressed_button(SwitchButton::BtnA))
            &&& run_ok(p, 2 * n).spec_pending() == HidAction::Send(
                SwitchGamepadDescriptor::spec_neutral(),
            )
            &&& run_ok(p, 2 * n + 1) == (HidController {
                report: SwitchGamepadDescriptor::spec_neutral(),
                phase: HidPhase::Filling { deadline },
            })
        }),
{
    let r = c.spec_advance(HidEvent::Key(KeyEvent::CharCreation));
    let s = r.spec_advance(HidEvent::Logged);
    let p = s.spec_advance(HidEvent::Clock(now));
    let deadline = now.saturating_add(CHAR_CREATION_DELAY_MS);
    assert(p.phase == HidPhase::Holding {
        left: spec_press_steps(TAP_DURATION_MS),
        next: AfterRelease::FillUntil(deadline),
    });
    lemma_hold_complete(p, spec_press_steps(TAP_DURATION_MS), AfterRelease::FillUntil(deadline));
}

/// While waiting for the character creation deadline, a clock reading before
/// the deadline yields a neutral filler report, and one at or after it starts
/// the second A press, which then ends like a tap: `n` pressed A reports, each
/// followed by a pause of one report interval, then the neutral report, and
/// the controller listens again.
pub proof fn law_char_creation_second_press(c: HidController, deadline: u64, now: u64, j: nat)
    requires
        c.wf(),
        c.phase == (HidPhase::Filling { deadline }),
    ensures
        now < deadline ==> c.spec_advance(HidEvent::Clock(now)).spec_pending() == HidAction::Send(
            SwitchGamepadDescriptor::spec_neutral(),
        ),
        now >= deadline ==> ({
            let p = c.spec_advance(HidEvent::Clock(now));
            let n = spec_press_steps(TAP_DURATION_MS) as nat;
            &&& p.phase == (HidPhase::Holding {
                left: spec_press_steps(TAP_DURATION_MS),
                next: AfterRelease::Listen,
            })
            &&& j < n ==> run_ok(p, 2 * j).spec_pending() == HidAction::Send(
                pressed_button(SwitchButton::BtnA),
            )
            &&& j < n ==> run_ok(p, 2 * j + 1).spec_pending() == HidAction::Sleep(
                REPORT_INTERVAL_MS,
            )
            &&& run_ok(p, 2 * n).spec_pending() == HidAction::Send(
                SwitchGamepadDescriptor::spec_neutral(),
            )
            &&& run_ok(p, 2 * n + 1) == (HidController {
                report: SwitchGamepadDescriptor::spec_neutral(),
                phase: HidPhase::Listening,
            })
        }),
{
    if now >= deadline {
        let p = c.spec_advance(HidEvent::Clock(now));
        let n = spec_press_steps(TAP_DURATION_MS);
        assert(p.report == pressed_button(SwitchButton::BtnA));
        lemma_hold_complete(p, n, AfterRelease::Listen);
        if j < n {
            assert(run_ok(p, 2 * j).spec_pending() == HidAction::Send(
                pressed_button(SwitchButton::BtnA),
            ));
            assert(run_ok(p, 2 * j + 1).spec_pending() == HidAction::Sleep(REPORT_INTERVAL_MS));
        }
    }
}

/// The controller is waiting out the character creation deadline `deadline`
/// with the neutral report: reading the clock, sending a filler, or pausing.
pub open spec fn filling_until(c: HidController, deadline: u64) -> bool {
    &&& c.report == SwitchGamepadDescriptor::spec_neutral()
    &&& (c.phase == HidPhase::Filling { deadline } || c.phase == HidPhase::FillSending { deadline }
        || c.phase == HidPhase::FillPausing { deadline })
}

/// A filler cycle keeps the deadline: from a clock reading before it, a
/// successful filler send and its pause lead back to reading the clock for
/// the very same deadline, with the neutral report.
pub proof fn law_filler_cycle_keeps_deadline(c: HidController, deadline: u64, now: u64)
    requires
        c.wf(),
        c.phase == (HidPhase::Filling { deadline }),
        now < deadline,
    ensures
        c.spec_advance(HidEvent::Clock(now)).spec_advance(HidEvent::Sent).spec_advance(
            HidEvent::Slept,
        ) == (HidController {
            report: SwitchGamepadDescriptor::spec_neutral(),
            phase: HidPhase::Filling { deadline },
        }),
{
}

/// No second A press before the deadline: from waiting out the deadline, as
/// long as every filler send succeeds and every clock reading is before the
/// deadline, whatever the events, the controller keeps waiting for that same
/// deadline, and all it ever sends is the neutral report.
pub proof fn law_no_second_press_before_deadline(c: HidController, deadline: u64, es: Seq<HidEvent>)
    requires
        filling_until(c, deadline),
        forall|i: int| 0 <= i < es.len() ==> #[trigger] es[i] != HidEvent::SendFailed,
        forall|i: int| 0 <= i < es.len() ==> (#[trigger] es[i] matches HidEvent::Clock(t) ==> t
            < deadline),
    ensures
        filling_until(run_events(c, es), deadline),
        run_events(c, es).spec_pending() matches HidAction::Send(r) ==> r
            == SwitchGamepadDescriptor::spec_neutral(),
    decreases es.len(),
{
    if es.len() > 0 {
        let prefix = es.drop_last();
        assert forall|i: int| 0 <= i < prefix.len() implies #[trigger] prefix[i]
            != HidEvent::SendFailed by {
            assert(prefix[i] == es[i]);
        }
        assert forall|i: int| 0 <= i < prefix.len() implies (#[trigger] prefix[i] matches HidEvent::Clock(
            t,
        ) ==> t < deadline) by {
            assert(prefix[i] == es[i]);
        }
        law_no_second_press_before_deadline(c, deadline, prefix);
        let e = es.last();
        assert(e == es[es.len() - 1]);
        assert(e != HidEvent::SendFailed);
    }
}

} // verus!
