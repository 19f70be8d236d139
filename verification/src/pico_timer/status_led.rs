//! The status LED's blink codes, which mark the firmware's start-up checkpoints.
use vstd::prelude::*;

verus! {

/// How long the LED stays on, and then off, in each blink, in milliseconds.
pub const BLINK_HALF_PERIOD_MS: u64 = 400;

/// The pause after a blink code, in milliseconds.
pub const BLINK_CODE_GAP_MS: u64 = 800;

/// One step of a blink code.
#[derive(Clone, Copy, Debug, PartialEq, Eq, Structural)]
pub enum LedStep {
    /// Switch the LED on (`true`) or off.
    Switch(bool),
    /// Wait for the given milliseconds.
    Wait(u64),
}

/// The steps of the blink code for checkpoint `times`: `times` blinks of
/// on, wait, off, wait, then a longer pause.
pub open spec fn spec_blink_code(times: nat) -> Seq<LedStep>
    decreases times,
{
    if times == 0 {
        seq![LedStep::Wait(BLINK_CODE_GAP_MS)]
    } else {
        seq![
            LedStep::Switch(true),
            LedStep::Wait(BLINK_HALF_PERIOD_MS),
            LedStep::Switch(false),
            LedStep::Wait(BLINK_HALF_PERIOD_MS),
        ] + spec_blink_code((times - 1) as nat)
    }
}

proof fn lemma_blink_code_len(times: nat)
    ensures
        spec_blink_code(times).len() == 4 * times + 1,
    decreases times,
{
    if times > 0 {
        lemma_blink_code_len((times - 1) as nat);
    }
}

/// The steps of the blink code that signals checkpoint `times`.
pub fn blink(times: u32) -> (r: Vec<LedStep>)
    ensures
        r@ == spec_blink_code(times as nat),
        r@.len() == 4 * times + 1,
{
    let mut r: Vec<LedStep> = Vec::new();
    let mut k: u32 = 0;
    while k < times
        invariant
            k <= times,
            r@ + spec_blink_code((times - k) as nat) == spec_blink_code(times as nat),
        decreases times - k,
    {
        let ghost before = r@;
        r.push(LedStep::Switch(true));
        r.push(LedStep::Wait(BLINK_HALF_PERIOD_MS));
        r.push(LedStep::Switch(false));
        r.push(LedStep::Wait(BLINK_HALF_PERIOD_MS));
        proof {
            let rest = spec_blink_code((times - k - 1) as nat);
            assert(spec_blink_code((times - k) as nat) == seq![
                LedStep::Switch(true),
                LedStep::Wait(BLINK_HALF_PERIOD_MS),
                LedStep::Switch(false),
                LedStep::Wait(BLINK_HALF_PERIOD_MS),
            ] + rest);
            assert(r@ + rest =~= before + spec_blink_code((times - k) as nat));
        }
        k = k + 1;
    }
    r.push(LedStep::Wait(BLINK_CODE_GAP_MS));
    proof {
        assert(r@ =~= spec_blink_code(times as nat)) by {
            assert(spec_blink_code(0) == seq![LedStep::Wait(BLINK_CODE_GAP_MS)]);
        }
        lemma_blink_code_len(times as nat);
    }
    r
}

} // verus!
