//! Readiness polling: connect to the driver's port; on failure sleep one poll
//! interval and try again, until a connection succeeds or the deadline passes.
//! The deadline cuts short both a connection attempt and a sleep, and no attempt
//! starts once it has passed.
use vstd::prelude::*;

verus! {

/// The pause between two connection attempts, in milliseconds.
pub const POLL_INTERVAL_MS: u64 = 100;

/// What the poller has just seen.
#[derive(Clone, Copy, Debug, PartialEq, Eq, Structural)]
pub enum ProbeEvent {
    /// Polling begins.
    Started,
    /// The attempt just made connected.
    Connected,
    /// The attempt just made did not connect.
    Refused,
    /// The sleep after a failed attempt has ended.
    Woke,
}

/// What the poller does next.
#[derive(Clone, Copy, Debug, PartialEq, Eq, Structural)]
pub enum ProbeDecision {
    /// The port accepted a connection: the driver is reachable.
    Ready,
    /// Attempt a connection, giving up on it after this many milliseconds.
    Connect(u64),
    /// Sleep this many milliseconds: one poll interval, cut at the deadline.
    Sleep(u64),
    /// The deadline has passed without a successful connection.
    TimedOut,
}

/// How long a step started `elapsed_ms` into polling may last: one poll
/// interval, but never past the deadline.
pub open spec fn budget_of(elapsed_ms: u64, timeout_ms: u64) -> u64 {
    if elapsed_ms >= timeout_ms {
        0
    } else if timeout_ms - elapsed_ms < POLL_INTERVAL_MS {
        (timeout_ms - elapsed_ms) as u64
    } else {
        POLL_INTERVAL_MS
    }
}

/// The decision taken `elapsed_ms` after polling began, with a deadline of
/// `timeout_ms`, on event `e`.
pub open spec fn decision(elapsed_ms: u64, timeout_ms: u64, e: ProbeEvent) -> ProbeDecision {
    if e == ProbeEvent::Connected {
        ProbeDecision::Ready
    } else if elapsed_ms >= timeout_ms {
        ProbeDecision::TimedOut
    } else if e == ProbeEvent::Refused {
        ProbeDecision::Sleep(budget_of(elapsed_ms, timeout_ms))
    } else {
        ProbeDecision::Connect(budget_of(elapsed_ms, timeout_ms))
    }
}

/// How long the step that a decision starts may last (zero for a final one).
pub open spec fn allotted(d: ProbeDecision) -> u64 {
    match d {
        ProbeDecision::Connect(b) => b,
        ProbeDecision::Sleep(b) => b,
        _ => 0,
    }
}

/// How long a step started `elapsed_ms` into polling may last; see [`budget_of`].
pub fn step_budget(elapsed_ms: u64, timeout_ms: u64) -> (r: u64)
    ensures
        r == budget_of(elapsed_ms, timeout_ms),
        elapsed_ms < timeout_ms ==> 0 < r <= POLL_INTERVAL_MS && elapsed_ms + r <= timeout_ms,
{
    if elapsed_ms >= timeout_ms {
        0
    } else if timeout_ms - elapsed_ms < POLL_INTERVAL_MS {
        timeout_ms - elapsed_ms
    } else {
        POLL_INTERVAL_MS
    }
}

/// Decides what follows event `e`; see [`decision`].
pub fn decide(elapsed_ms: u64, timeout_ms: u64, e: ProbeEvent) -> (r: ProbeDecision)
    ensures
        r == decision(elapsed_ms, timeout_ms, e),
        r == ProbeDecision::Ready <==> e == ProbeEvent::Connected,
        r == ProbeDecision::TimedOut ==> elapsed_ms >= timeout_ms,
        r is Connect || r is Sleep ==> 0 < allotted(r) <= POLL_INTERVAL_MS && elapsed_ms
            + allotted(r) <= timeout_ms,
{
    match e {
        ProbeEvent::Connected => ProbeDecision::Ready,
        _ => if elapsed_ms >= timeout_ms {
            ProbeDecision::TimedOut
        } else if e == ProbeEvent::Refused {
            ProbeDecision::Sleep(step_budget(elapsed_ms, timeout_ms))
        } else {
            ProbeDecision::Connect(step_budget(elapsed_ms, timeout_ms))
        },
    }
}

/// A timeout is never reported before the deadline, and never later than one
/// poll interval after it: every step (an attempt or a sleep) starts before the
/// deadline and is allotted time that ends by it, so if the step decided at
/// `started_ms` overruns its allotment by at most one poll interval and ends at
/// `now_ms`, where the deadline is found to have passed, then `now_ms` lies
/// between the deadline and the deadline plus one interval.
pub proof fn lemma_timeout_fidelity(
    timeout_ms: u64,
    started_ms: u64,
    before: ProbeEvent,
    now_ms: u64,
    after: ProbeEvent,
)
    requires
        decision(started_ms, timeout_ms, before) is Connect || decision(
            started_ms,
            timeout_ms,
            before,
        ) is Sleep,
        now_ms <= started_ms + allotted(decision(started_ms, timeout_ms, before))
            + POLL_INTERVAL_MS,
        decision(now_ms, timeout_ms, after) == ProbeDecision::TimedOut,
    ensures
        timeout_ms <= now_ms <= timeout_ms + POLL_INTERVAL_MS,
{
}

/// Attempts are a full poll interval apart: a sleep that ends with another
/// attempt (rather than the timeout) was never cut short by the deadline.
pub proof fn lemma_attempts_spaced(timeout_ms: u64, refused_ms: u64, woke_ms: u64)
    requires
        decision(refused_ms, timeout_ms, ProbeEvent::Refused) is Sleep,
        woke_ms >= refused_ms + allotted(decision(refused_ms, timeout_ms, ProbeEvent::Refused)),
        decision(woke_ms, timeout_ms, ProbeEvent::Woke) is Connect,
    ensures
        allotted(decision(refused_ms, timeout_ms, ProbeEvent::Refused)) == POLL_INTERVAL_MS,
        woke_ms >= refused_ms + POLL_INTERVAL_MS,
{
}

proof fn lemma_spaced_starts_grow(starts: Seq<int>, i: int)
    requires
        0 <= i < starts.len(),
        starts.len() > 0 && starts[0] >= 0,
        forall|j: int| 0 <= j < starts.len() - 1 ==> #[trigger] starts[j + 1] >= starts[j]
            + POLL_INTERVAL_MS,
    ensures
        starts[i] >= i * POLL_INTERVAL_MS,
    decreases i,
{
    if i > 0 {
        lemma_spaced_starts_grow(starts, i - 1);
        assert(starts[(i - 1) + 1] >= starts[i - 1] + POLL_INTERVAL_MS);
    }
}

/// Attempts that all start before the deadline, each a full poll interval
/// after the one before, number at most `timeout_ms / POLL_INTERVAL_MS + 1`.
pub proof fn lemma_attempt_count(timeout_ms: u64, starts: Seq<int>)
    requires
        forall|i: int| 0 <= i < starts.len() ==> 0 <= #[trigger] starts[i] < timeout_ms,
        forall|i: int| 0 <= i < starts.len() - 1 ==> #[trigger] starts[i + 1] >= starts[i]
            + POLL_INTERVAL_MS,
    ensures
        starts.len() <= timeout_ms / POLL_INTERVAL_MS + 1,
{
    if starts.len() > 0 {
        let last = starts.len() - 1;
        assert(starts[0] >= 0);
        lemma_spaced_starts_grow(starts, last);
        assert(starts[last] < timeout_ms);
        let t = timeout_ms as int;
        assert(last <= t / 100) by (nonlinear_arith)
            requires last * 100 < t, last >= 0;
    }
}

/// No attempt starts once the deadline has passed.
pub proof fn lemma_no_attempt_after_deadline(elapsed_ms: u64, timeout_ms: u64, e: ProbeEvent)
    requires
        elapsed_ms >= timeout_ms,
    ensures
        !(decision(elapsed_ms, timeout_ms, e) is Connect),
{
}

/// A failure before the deadline never ends the polling.
pub proof fn lemma_no_early_timeout(elapsed_ms: u64, timeout_ms: u64, e: ProbeEvent)
    requires
        elapsed_ms < timeout_ms,
    ensures
        decision(elapsed_ms, timeout_ms, e) != ProbeDecision::TimedOut,
{
}

/// A connection that succeeds ends the polling with success.
pub proof fn lemma_connection_means_ready(elapsed_ms: u64, timeout_ms: u64)
    ensures
        decision(elapsed_ms, timeout_ms, ProbeEvent::Connected) == ProbeDecision::Ready,
{
}

} // verus!
