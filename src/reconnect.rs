use vstd::prelude::*;

verus! {

/// How long a loop sleeps after a failed attempt before it tries again.
pub const RETRY_DELAY_MS: u64 = 2000;

/// The retry policy shared by every connection loop: retry for ever after a
/// fixed delay, and report a failure only when it starts a run of failures.
pub struct Reconnect {
    /// Whether the last attempt failed.
    pub failing: bool,
}

impl Reconnect {
    /// A loop that has not failed yet.
    pub fn new() -> (r: Self)
        ensures
            !r.failing,
    {
        Reconnect { failing: false }
    }

    /// Records a failed attempt; returns whether the failure is to be reported.
    pub fn connect_failed(&mut self) -> (report: bool)
        ensures
            report == !old(self).failing,
            final(self).failing,
    {
        let report = !self.failing;
        self.failing = true;
        report
    }

    /// Records a successful attempt: the next failure is reported again.
    pub fn connected(&mut self)
        ensures
            !final(self).failing,
    {
        self.failing = false;
    }
}

} // verus!
