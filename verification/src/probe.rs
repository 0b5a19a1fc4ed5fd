//! The readiness probe: deadline accounting for the startup barrier.
//!
//! After a strategy starts a resource, setup blocks until the endpoint
//! accepts a connection or a deadline elapses.  The connection attempts
//! themselves are outside work; this module verifies the accounting
//! around them: a probe keeps attempting at a fixed interval until an
//! attempt succeeds, and reports a timeout — fatal to the launch — once
//! the elapsed time would pass the deadline.  The elapsed counter never
//! runs past the deadline, so the arithmetic can never overflow.

use vstd::prelude::*;

verus! {

/// What the probe decides after one connection attempt.
#[derive(PartialEq, Eq, Structural, Clone, Copy, Debug)]
pub enum ProbeStep {
    /// The endpoint accepted a connection: the dependency is ready.
    Ready,
    /// The attempt failed but time remains: sleep one interval and try
    /// again.
    Retry,
    /// The attempt failed and the deadline is spent.  Fatal: an
    /// unreachable dependency must not be returned as ready.
    TimedOut,
}

/// The deadline accounting of one readiness probe: how much of the
/// timeout is spent, and how much each failed attempt costs.
pub struct ReadinessProbe {
    elapsed_ms: u64,
    timeout_ms: u64,
    interval_ms: u64,
}

/// What a whole probe run decides, where `attempts[i]` tells whether the
/// `i`-th connection attempt succeeded: the first success is `Ready`, a
/// spent deadline is `TimedOut`, and `None` means the attempts given ran
/// out while the probe would still retry.
pub open spec fn spec_probe_outcome(
    elapsed_ms: nat,
    timeout_ms: nat,
    interval_ms: nat,
    attempts: Seq<bool>,
) -> Option<ProbeStep>
    decreases attempts.len(),
{
    if attempts.len() == 0 {
        None
    } else if attempts[0] {
        Some(ProbeStep::Ready)
    } else if timeout_ms - elapsed_ms <= interval_ms {
        Some(ProbeStep::TimedOut)
    } else {
        spec_probe_outcome(elapsed_ms + interval_ms, timeout_ms, interval_ms, attempts.drop_first())
    }
}

impl ReadinessProbe {
    pub closed spec fn spec_elapsed_ms(self) -> nat {
        self.elapsed_ms as nat
    }

    pub closed spec fn spec_timeout_ms(self) -> nat {
        self.timeout_ms as nat
    }

    pub closed spec fn spec_interval_ms(self) -> nat {
        self.interval_ms as nat
    }

    /// The interval is positive, so every failed attempt spends time and
    /// the probe cannot retry forever; the spent time never passes the
    /// deadline.
    pub open spec fn wf(self) -> bool {
        &&& self.spec_interval_ms() >= 1
        &&& self.spec_elapsed_ms() <= self.spec_timeout_ms()
    }

    /// A fresh probe: nothing of the timeout is spent yet.  The interval
    /// is short (sub-second) relative to the timeout, but correctness
    /// only needs it positive.
    pub fn new(timeout_ms: u64, interval_ms: u64) -> (r: Self)
        requires
            interval_ms >= 1,
        ensures
            r.wf(),
            r.spec_elapsed_ms() == 0,
            r.spec_timeout_ms() == timeout_ms,
            r.spec_interval_ms() == interval_ms,
    {
        ReadinessProbe { elapsed_ms: 0, timeout_ms, interval_ms }
    }

    /// Account for one connection attempt.
    ///
    /// A successful attempt ends the probe at once with `Ready`.  A
    /// failed one spends one interval; if that reaches the deadline the
    /// probe ends with `TimedOut`, otherwise the driver sleeps the
    /// interval and attempts again.
    pub fn step(&mut self, connected: bool) -> (r: ProbeStep)
        requires
            old(self).wf(),
        ensures
            final(self).wf(),
            final(self).spec_timeout_ms() == old(self).spec_timeout_ms(),
            final(self).spec_interval_ms() == old(self).spec_interval_ms(),
            connected ==> r == ProbeStep::Ready && *final(self) == *old(self),
            !connected && old(self).spec_timeout_ms() - old(self).spec_elapsed_ms() <= old(
                self,
            ).spec_interval_ms() ==> r == ProbeStep::TimedOut && final(self).spec_elapsed_ms()
                == final(self).spec_timeout_ms(),
            !connected && old(self).spec_timeout_ms() - old(self).spec_elapsed_ms() > old(
                self,
            ).spec_interval_ms() ==> r == ProbeStep::Retry && final(self).spec_elapsed_ms() == old(
                self,
            ).spec_elapsed_ms() + old(self).spec_interval_ms(),
    {
        if connected {
            ProbeStep::Ready
        } else if self.timeout_ms - self.elapsed_ms <= self.interval_ms {
            self.elapsed_ms = self.timeout_ms;
            ProbeStep::TimedOut
        } else {
            self.elapsed_ms = self.elapsed_ms + self.interval_ms;
            ProbeStep::Retry
        }
    }
}

/// An endpoint that never becomes reachable cannot outlast the deadline:
/// once the failed attempts cover the remaining time, the probe decides
/// `TimedOut` — never `Ready`, and never anything at all short of a
/// verdict.
pub proof fn lemma_unreachable_endpoint_times_out(
    elapsed_ms: nat,
    timeout_ms: nat,
    interval_ms: nat,
    attempts: Seq<bool>,
)
    requires
        interval_ms >= 1,
        elapsed_ms <= timeout_ms,
        forall|i: int| 0 <= i < attempts.len() ==> !attempts[i],
        attempts.len() * interval_ms >= timeout_ms - elapsed_ms,
        attempts.len() >= 1,
    ensures
        spec_probe_outcome(elapsed_ms, timeout_ms, interval_ms, attempts) == Some(
            ProbeStep::TimedOut,
        ),
    decreases attempts.len(),
{
    if timeout_ms - elapsed_ms <= interval_ms {
        // the first failed attempt already spends the deadline
    } else {
        assert((attempts.len() - 1) * interval_ms == attempts.len() * interval_ms - interval_ms)
            by (nonlinear_arith);
        assert(1 * interval_ms == interval_ms) by (nonlinear_arith);
        assert(attempts.len() != 1);
        lemma_unreachable_endpoint_times_out(
            elapsed_ms + interval_ms,
            timeout_ms,
            interval_ms,
            attempts.drop_first(),
        );
    }
}

} // verus!
