//! Answers to the host's HID class requests.
use vstd::prelude::*;

verus! {

/// The answer to a request that carries data from the host.
#[derive(Clone, Copy, Debug, PartialEq, Eq, Structural)]
pub enum ReportAnswer {
    Accepted,
    Rejected,
}

/// The handler of HID class requests of the gamepad.
#[derive(Clone, Copy, Debug, PartialEq, Eq, Structural)]
pub struct SwitchHidHandler;

impl SwitchHidHandler {
    /// A GET_REPORT request is answered with an all-zero report filling the
    /// whole buffer.
    pub fn get_report(&mut self, buf: &mut [u8]) -> (r: Option<usize>)
        ensures
            final(buf)@.len() == old(buf)@.len(),
            forall|i: int| 0 <= i < final(buf)@.len() ==> final(buf)@[i] == 0,
            r == Some(old(buf)@.len() as usize),
    {
        let n = buf.len();
        let mut i: usize = 0;
        while i < n
            invariant
                n == buf@.len(),
                n == old(buf)@.len(),
                i <= n,
                forall|j: int| 0 <= j < i ==> buf@[j] == 0,
            decreases n - i,
        {
            buf[i] = 0;
            i = i + 1;
        }
        Some(n)
    }

    /// A SET_REPORT request is accepted, whatever it carries.
    pub fn set_report(&mut self, data: &[u8]) -> (r: ReportAnswer)
        ensures
            r == ReportAnswer::Accepted,
    {
        ReportAnswer::Accepted
    }
}

} // verus!
