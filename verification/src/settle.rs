//! Waiting for a page to settle: the completion signal is read at a fixed
//! interval until it is set or a ceiling of elapsed time is passed. Passing
//! the ceiling is no failure: the page is then rendered as it is.

use vstd::prelude::*;

verus! {

/// Time between two readings of the completion signal, in milliseconds.
pub const SETTLE_INTERVAL_MS: u64 = 50;

/// Elapsed time after which the signal is no longer waited for, in
/// milliseconds.
pub const SETTLE_CEILING_MS: u64 = 5000;

/// The value of the completion signal once the page has set it.
pub const SIGNAL_SET: &'static str = "1";

/// How often and how long the completion signal is read.
#[derive(Clone, Copy, Debug, PartialEq, Eq, Structural)]
pub struct PollPolicy {
    pub interval_ms: u64,
    pub ceiling_ms: u64,
}

/// How the wait ended. Both are good outcomes.
#[derive(Clone, Copy, Debug, PartialEq, Eq, Structural)]
pub enum SettleOutcome {
    /// The signal was read as set.
    SettledInTime,
    /// The ceiling was passed first.
    SettledByDeadline,
}

/// What to do next while waiting.
#[derive(Clone, Copy, Debug, PartialEq, Eq, Structural)]
pub enum PollDecision {
    /// Read the signal.
    Probe,
    /// Sleep for so many milliseconds, then look at the clock.
    Sleep(u64),
    /// Stop waiting.
    Finished(SettleOutcome),
}

impl PollPolicy {
    /// The policy of every conversion.
    pub open spec fn standard_policy() -> PollPolicy {
        PollPolicy { interval_ms: SETTLE_INTERVAL_MS, ceiling_ms: SETTLE_CEILING_MS }
    }

    /// Makes `standard_policy`.
    pub fn standard() -> (policy: PollPolicy)
        ensures
            policy == Self::standard_policy(),
    {
        PollPolicy { interval_ms: SETTLE_INTERVAL_MS, ceiling_ms: SETTLE_CEILING_MS }
    }

    /// The decision after a reading of the signal.
    pub open spec fn reading_decision(self, signal_set: bool) -> PollDecision {
        if signal_set {
            PollDecision::Finished(SettleOutcome::SettledInTime)
        } else {
            PollDecision::Sleep(self.interval_ms)
        }
    }

    /// The decision on waking up with `elapsed_ms` gone since the wait began.
    pub open spec fn wake_decision(self, elapsed_ms: u64) -> PollDecision {
        if elapsed_ms > self.ceiling_ms {
            PollDecision::Finished(SettleOutcome::SettledByDeadline)
        } else {
            PollDecision::Probe
        }
    }

    /// Decides after a reading of the signal: done if it was set, else sleep
    /// for the interval.
    pub fn after_reading(&self, signal_set: bool) -> (decision: PollDecision)
        ensures
            decision == self.reading_decision(signal_set),
    {
        if signal_set {
            PollDecision::Finished(SettleOutcome::SettledInTime)
        } else {
            PollDecision::Sleep(self.interval_ms)
        }
    }

    /// Decides on waking up: done if the ceiling is passed, else read the
    /// signal again.
    pub fn after_sleep(&self, elapsed_ms: u64) -> (decision: PollDecision)
        ensures
            decision == self.wake_decision(elapsed_ms),
    {
        if elapsed_ms > self.ceiling_ms {
            PollDecision::Finished(SettleOutcome::SettledByDeadline)
        } else {
            PollDecision::Probe
        }
    }
}

/// Time gone from `started_ms` to `now_ms` on a clock that does not run
/// backwards; a reading before the start counts as no time.
pub open spec fn elapsed(started_ms: u64, now_ms: u64) -> u64 {
    if now_ms >= started_ms {
        (now_ms - started_ms) as u64
    } else {
        0
    }
}

/// Computes `elapsed`.
pub fn elapsed_since(started_ms: u64, now_ms: u64) -> (gone: u64)
    ensures
        gone == elapsed(started_ms, now_ms),
{
    if now_ms >= started_ms {
        now_ms - started_ms
    } else {
        0
    }
}

/// Whether a reading of the completion signal shows it set.
pub fn signal_is_set(reading: &str) -> (set: bool)
    ensures
        set == (reading@ == SIGNAL_SET@),
{
    proof {
        reveal_strlit("1");
    }
    if reading.unicode_len() == 1 {
        let set = reading.get_char(0) == '1';
        assert(set == (reading@ =~= SIGNAL_SET@));
        set
    } else {
        false
    }
}

/// The wait with a signal that is never set: `wakes[k]` is the elapsed time
/// at the `k`-th waking. The wait goes on at a waking only while the ceiling
/// is not passed.
pub open spec fn still_waiting(policy: PollPolicy, wakes: Seq<u64>, k: int) -> bool {
    forall|j: int| 0 <= j <= k ==> policy.wake_decision(#[trigger] wakes[j]) == PollDecision::Probe
}

/// Forward progress. Where every sleep lasts at least the interval, a wait
/// whose signal is never set is over after at most `ceiling / interval + 1`
/// wakings.
pub proof fn lemma_settle_rounds_bounded(policy: PollPolicy, wakes: Seq<u64>)
    requires
        policy.interval_ms > 0,
        wakes.len() > policy.ceiling_ms / policy.interval_ms,
        forall|k: int| 0 <= k < wakes.len() ==> #[trigger] wakes[k] >= (k + 1) * policy.interval_ms,
    ensures
        !still_waiting(policy, wakes, policy.ceiling_ms as int / policy.interval_ms as int),
{
    let c = policy.ceiling_ms as int;
    let i = policy.interval_ms as int;
    let k = c / i;
    assert((k + 1) * i > c) by (nonlinear_arith)
        requires
            i > 0,
            c >= 0,
            k == c / i,
    ;
    assert(wakes[k] >= (k + 1) * i);
    assert(policy.wake_decision(wakes[k]) != PollDecision::Probe);
}

/// The bound in time. Where the first waking comes at most `interval + slack`
/// after the start and each later one at most `interval + slack` after the
/// one before, the waking that ends a wait whose signal is never set comes at
/// most `ceiling + interval + slack` after the start. With an engine that
/// answers at once and sleeps that last exactly the interval, `slack` is 0.
pub proof fn lemma_settle_time_bounded(policy: PollPolicy, wakes: Seq<u64>, k: int, slack: nat)
    requires
        0 <= k < wakes.len(),
        wakes[0] <= policy.interval_ms + slack,
        forall|j: int| 0 < j < wakes.len() ==> #[trigger] wakes[j] <= wakes[j - 1] + policy.interval_ms + slack,
        k > 0 ==> still_waiting(policy, wakes, k - 1),
        policy.wake_decision(wakes[k]) == PollDecision::Finished(SettleOutcome::SettledByDeadline),
    ensures
        wakes[k] <= policy.ceiling_ms + policy.interval_ms + slack,
{
    if k > 0 {
        assert(policy.wake_decision(wakes[k - 1]) == PollDecision::Probe);
        assert(wakes[k] <= wakes[k - 1] + policy.interval_ms + slack);
    }
}

} // verus!
