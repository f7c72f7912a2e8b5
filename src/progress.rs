//! The side loop that republishes an image job's progress.
use vstd::prelude::*;

verus! {

/// The pause between two progress polls, in milliseconds.
pub const POLL_INTERVAL_MS: u64 = 500;

/// The most polls of one job: ten minutes at the poll interval.
pub const DEFAULT_MAX_POLLS: u32 = 1200;

/// The state of the progress loop of one image job.
pub struct ProgressPoller {
    /// The last percentage published, 0 to 100.
    pub percent: u32,
    /// The polls that answered so far.
    pub attempts: u32,
    /// The polls after which the loop gives up.
    pub max_attempts: u32,
    /// Whether the loop is to poll again.
    pub active: bool,
}

impl ProgressPoller {
    pub open spec fn wf(&self) -> bool {
        self.percent <= 100
    }

    pub fn new(max_attempts: u32) -> (r: ProgressPoller)
        ensures
            r.wf(),
            r.percent == 0,
            r.attempts == 0,
            r.max_attempts == max_attempts,
            r.active == (max_attempts > 0),
    {
        ProgressPoller { percent: 0, attempts: 0, max_attempts, active: max_attempts > 0 }
    }

    /// Takes the answer of one poll, a percentage, or `None` where the poll
    /// failed, and says whether to poll again. A failed poll ends the loop
    /// quietly and keeps the last percentage. A percentage is capped at 100
    /// and published; the loop ends at 100 or after the last attempt.
    pub fn on_poll(&mut self, result: Option<u32>) -> (again: bool)
        requires
            old(self).wf(),
        ensures
            final(self).wf(),
            again == final(self).active,
            final(self).max_attempts == old(self).max_attempts,
            !old(self).active ==> *final(self) == *old(self),
            old(self).active && result is None ==> (final(self).percent == old(self).percent
                && final(self).attempts == old(self).attempts && !final(self).active),
            old(self).active ==> (result matches Some(p) ==> ({
                &&& final(self).percent == if p > 100 { 100 } else { p }
                &&& final(self).attempts == if old(self).attempts == u32::MAX {
                    u32::MAX as int
                } else {
                    old(self).attempts + 1
                }
                &&& final(self).active == (final(self).percent < 100 && final(self).attempts
                    < final(self).max_attempts)
            })),
    {
        if !self.active {
            return false;
        }
        match result {
            None => {
                self.active = false;
            },
            Some(p) => {
                self.percent = if p > 100 {
                    100
                } else {
                    p
                };
                self.attempts = self.attempts.saturating_add(1);
                self.active = self.percent < 100 && self.attempts < self.max_attempts;
            },
        }
        self.active
    }
}

} // verus!
