//! Loopback port negotiation: starting from a hint, walk upwards (wrapping at
//! the top of the 16-bit range) until a probe finds a port that can be bound.
//!
//! The probe binds and at once releases the port, so another process may take
//! it before the driver server binds it. That window is inherent to the design:
//! the operating system offers no way to reserve a port for a child process.
use vstd::prelude::*;

verus! {

/// The number of distinct TCP ports.
pub const PORT_COUNT: u32 = 65536;

/// The port `k` steps after `start`, wrapping at the top of the range.
pub open spec fn nth_candidate(start: u16, k: nat) -> u16 {
    ((start as nat + k) % (PORT_COUNT as nat)) as u16
}

/// How many steps upwards (wrapping) lead from `from` to `to`.
pub open spec fn forward_distance(from: u16, to: u16) -> nat {
    ((to as int - from as int) % (PORT_COUNT as int)) as nat
}

/// What the caller does after reporting a probe.
#[derive(Clone, Copy, Debug, PartialEq, Eq, Structural)]
pub enum ScanStep {
    /// The probed port could be bound: use it.
    Found(u16),
    /// The port `busy` could not be bound: probe `next`.
    Next { busy: u16, next: u16 },
    /// The attempt cap was reached without finding a free port.
    Exhausted,
}

/// The state of a port search.
///
/// Without a cap the search never gives up, as a scan over a range where no
/// port is ever free does not end; with a cap it stops after that many probes.
pub struct PortScan {
    start: u16,
    candidate: u16,
    remaining: Option<u64>,
    skipped: Ghost<nat>,
    finished: bool,
}

impl PortScan {
    /// The port the search started from.
    pub closed spec fn start_port(&self) -> u16 {
        self.start
    }

    /// How many busy ports the search has passed over.
    pub closed spec fn skipped_count(&self) -> nat {
        self.skipped@
    }

    /// How many more probes may be reported; `None` for no limit.
    pub closed spec fn probes_left(&self) -> Option<u64> {
        self.remaining
    }

    /// Whether the search has ended, by a free port or by the cap.
    pub closed spec fn is_finished(&self) -> bool {
        self.finished
    }

    /// The port to probe next.
    pub closed spec fn next_port(&self) -> u16 {
        self.candidate
    }

    pub closed spec fn wf(&self) -> bool {
        &&& self.candidate == nth_candidate(self.start, self.skipped@)
        &&& (self.remaining matches Some(n) ==> n > 0 || self.finished)
    }

    /// A search that starts at `hint`; `max_probes` caps the number of
    /// probes, `None` leaves it unbounded.
    pub fn new(hint: u16, max_probes: Option<u64>) -> (r: PortScan)
        ensures
            r.wf(),
            r.start_port() == hint,
            r.next_port() == hint,
            r.skipped_count() == 0,
            r.probes_left() == max_probes,
            r.is_finished() == (max_probes == Some(0u64)),
    {
        let finished = match max_probes {
            Some(n) => n == 0,
            None => false,
        };
        PortScan { start: hint, candidate: hint, remaining: max_probes, skipped: Ghost(0), finished }
    }

    /// The port to probe next.
    pub fn candidate(&self) -> (r: u16)
        ensures
            r == self.next_port(),
    {
        self.candidate
    }

    /// Whether the search has ended.
    pub fn finished(&self) -> (r: bool)
        ensures
            r == self.is_finished(),
    {
        self.finished
    }

    /// Takes the result of probing `candidate()` and says what comes next.
    /// A bindable port ends the search with that port; a busy one moves the
    /// search to the following port, unless the cap is used up.
    pub fn record(&mut self, bindable: bool) -> (r: ScanStep)
        requires
            old(self).wf(),
            !old(self).is_finished(),
        ensures
            final(self).wf(),
            final(self).start_port() == old(self).start_port(),
            bindable ==> {
                &&& r == ScanStep::Found(old(self).next_port())
                &&& final(self).is_finished()
                &&& final(self).skipped_count() == old(self).skipped_count()
                &&& final(self).next_port() == old(self).next_port()
            },
            !bindable ==> {
                &&& final(self).skipped_count() == old(self).skipped_count() + 1
                &&& final(self).next_port() == nth_candidate(
                    old(self).start_port(),
                    old(self).skipped_count() + 1,
                )
                &&& final(self).probes_left() == match old(self).probes_left() {
                    Some(n) => Some((n - 1) as u64),
                    None => None,
                }
                &&& final(self).is_finished() == (old(self).probes_left() == Some(1u64))
                &&& r == if final(self).is_finished() {
                    ScanStep::Exhausted
                } else {
                    ScanStep::Next { busy: old(self).next_port(), next: final(self).next_port() }
                }
            },
    {
        if bindable {
            self.finished = true;
            return ScanStep::Found(self.candidate);
        }
        let busy = self.candidate;
        self.candidate = busy.wrapping_add(1);
        self.skipped = Ghost(self.skipped@ + 1);
        proof {
            let s = self.start as nat;
            let k = self.skipped@;
            assert(busy as nat == (s + (k - 1)) % 65536);
            assert(((s + (k - 1)) % 65536 + 1) % 65536 == (s + k) % 65536) by (nonlinear_arith)
                requires k >= 1;
        }
        match self.remaining {
            Some(n) => {
                self.remaining = Some(n - 1);
                if n == 1 {
                    self.finished = true;
                    return ScanStep::Exhausted;
                }
            },
            None => {},
        }
        ScanStep::Next { busy, next: self.candidate }
    }
}

/// A search that started at `start` and has passed over `skipped` busy
/// ports proposes the port `skipped` steps above `start`. So once the
/// starting port was found busy, every port the search goes on to return lies
/// strictly above it (counting upwards with wrap-around), until the whole
/// range has been tried.
pub proof fn lemma_scan_moves_upward(scan: PortScan)
    requires
        scan.wf(),
        1 <= scan.skipped_count() < PORT_COUNT,
    ensures
        scan.next_port() != scan.start_port(),
        forward_distance(scan.start_port(), scan.next_port()) == scan.skipped_count(),
        forward_distance(scan.start_port(), scan.next_port()) >= 1,
{
    let s = scan.start_port() as int;
    let k = scan.skipped_count() as int;
    let c = scan.next_port() as int;
    assert(c == (s + k) % 65536);
    assert((c - s) % 65536 == k) by (nonlinear_arith)
        requires c == (s + k) % 65536, 0 <= s < 65536, 1 <= k < 65536;
}

} // verus!
