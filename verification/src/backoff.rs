//! The backoff schedule for one connect cycle.
//!
//! A fresh schedule is created at the start of every outer connect cycle.
//! Attempt `n` (counting from 1) waits `2 * n` seconds; after five attempts
//! the schedule is exhausted and yields nothing further.

use vstd::prelude::*;

verus! {

/// The delay in seconds granted before retry attempt `n` (1-indexed):
/// `2 * n` for `n` in `[1, 5]`, nothing once the schedule is exhausted.
pub open spec fn backoff_delay(n: int) -> Option<u64> {
    if 1 <= n <= 5 {
        Some((2 * n) as u64)
    } else {
        None
    }
}

/// Every delay one schedule yields, in order.
pub open spec fn backoff_delays() -> Seq<u64> {
    seq![2u64, 4u64, 6u64, 8u64, 10u64]
}

/// The full schedule holds exactly five delays, and the `n`-th delay is
/// `2 * n` seconds; past the fifth attempt the schedule yields no value.
pub proof fn lemma_backoff_schedule()
    ensures
        backoff_delays().len() == 5,
        forall|n: int| 1 <= n <= 5 ==> backoff_delay(n) == Some(backoff_delays()[n - 1]),
        forall|n: int| 1 <= n <= 5 ==> backoff_delay(n) == Some((2 * n) as u64),
        forall|n: int| n > 5 ==> backoff_delay(n) is None,
{
}

/// One connect cycle's supply of retry delays.
#[derive(Clone, Copy)]
pub struct BackoffSchedule {
    /// The attempt number the next call accounts for; starts at 1.
    attempt: u32,
}

impl View for BackoffSchedule {
    type V = int;

    /// A schedule is abstracted by the attempt number it will charge next.
    closed spec fn view(&self) -> int {
        self.attempt as int
    }
}

impl BackoffSchedule {
    /// The attempt counter starts at 1 and never runs past the first
    /// exhausted attempt.
    pub open spec fn wf(self) -> bool {
        1 <= self@ <= 6
    }

    /// A fresh schedule, positioned before its first delay.
    pub fn new() -> (schedule: Self)
        ensures
            schedule.wf(),
            schedule@ == 1,
    {
        BackoffSchedule { attempt: 1 }
    }

    /// Yields the delay for the current attempt and advances, or reports
    /// exhaustion once five delays have been handed out.
    pub fn next_delay(&mut self) -> (delay: Option<u64>)
        requires
            old(self).wf(),
        ensures
            final(self).wf(),
            delay == backoff_delay(old(self)@),
            old(self)@ <= 5 ==> final(self)@ == old(self)@ + 1,
            old(self)@ > 5 ==> final(self)@ == old(self)@,
    {
        if self.attempt <= 5 {
            let delay: u64 = 2 * (self.attempt as u64);
            self.attempt = self.attempt + 1;
            Some(delay)
        } else {
            None
        }
    }
}

} // verus!
