//! Waiting for the worker: repeated connection attempts on the loopback
//! address, a fixed pause between them, and an overall deadline.
//!
//! The caller makes each attempt, measures the time since the probe began,
//! and reports both; the probe decides whether to finish or to try again.

use vstd::prelude::*;

verus! {

/// The pause between two attempts, in milliseconds.
pub const POLL_INTERVAL_MS: u64 = 200;

/// How long one connection attempt may take, in milliseconds.
pub const CONNECT_TIMEOUT_MS: u64 = 500;

/// The time budgets of a probe, in milliseconds.
#[derive(Clone, Copy, Debug, PartialEq, Eq, Structural)]
pub struct ProbeTiming {
    /// The overall deadline, counted from the start of the probe.
    pub timeout_ms: u64,
    /// The pause after a failed attempt.
    pub interval_ms: u64,
    /// The limit on one connection attempt.
    pub connect_timeout_ms: u64,
}

/// How a probe ended.
#[derive(Clone, Copy, Debug, PartialEq, Eq, Structural)]
pub enum ReadinessOutcome {
    Ready,
    TimedOut,
}

/// What the caller does next.
#[derive(Clone, Copy, Debug, PartialEq, Eq, Structural)]
pub enum ProbeAction {
    /// Try to connect to the loopback address at `port`, for at most
    /// `timeout_ms`, then report the result.
    Connect { port: u16, timeout_ms: u64 },
    /// Pause for this many milliseconds, then connect as above and report.
    PauseThenConnect { pause_ms: u64, port: u16, timeout_ms: u64 },
    /// The probe is over.
    Finish(ReadinessOutcome),
}

impl ProbeTiming {
    /// The standard pause and attempt limit with the given deadline.
    pub fn with_timeout(timeout_ms: u64) -> (r: ProbeTiming)
        ensures
            r.timeout_ms == timeout_ms,
            r.interval_ms == POLL_INTERVAL_MS,
            r.connect_timeout_ms == CONNECT_TIMEOUT_MS,
    {
        ProbeTiming { timeout_ms, interval_ms: POLL_INTERVAL_MS, connect_timeout_ms: CONNECT_TIMEOUT_MS }
    }
}

/// A readiness probe of one port.
pub struct ReadinessProbe {
    pub port: u16,
    pub timing: ProbeTiming,
    /// Set once, by the attempt that ends the probe.
    pub outcome: Option<ReadinessOutcome>,
}

impl ReadinessProbe {
    /// The outcome after an attempt that connected or not, reported
    /// `elapsed_ms` after the probe began. Once set, the outcome stays.
    pub open spec fn after_attempt(&self, connected: bool, elapsed_ms: u64) -> ReadinessProbe {
        if self.outcome is Some {
            *self
        } else if connected {
            ReadinessProbe { outcome: Some(ReadinessOutcome::Ready), ..*self }
        } else if elapsed_ms >= self.timing.timeout_ms {
            ReadinessProbe { outcome: Some(ReadinessOutcome::TimedOut), ..*self }
        } else {
            *self
        }
    }

    /// The action that follows a reported attempt.
    pub open spec fn next_action(&self) -> ProbeAction {
        match self.outcome {
            Some(o) => ProbeAction::Finish(o),
            None => ProbeAction::PauseThenConnect {
                pause_ms: self.timing.interval_ms,
                port: self.port,
                timeout_ms: self.timing.connect_timeout_ms,
            },
        }
    }

    /// A probe of `port` that has made no attempt.
    pub fn new(port: u16, timing: ProbeTiming) -> (r: ReadinessProbe)
        ensures
            r.port == port,
            r.timing == timing,
            r.outcome is None,
    {
        ReadinessProbe { port, timing, outcome: None }
    }

    /// The first action: an attempt at once, with no pause before it.
    pub fn begin(&self) -> (r: ProbeAction)
        ensures
            r == (match self.outcome {
                Some(o) => ProbeAction::Finish(o),
                None => ProbeAction::Connect { port: self.port, timeout_ms: self.timing.connect_timeout_ms },
            }),
    {
        match self.outcome {
            Some(o) => ProbeAction::Finish(o),
            None => ProbeAction::Connect { port: self.port, timeout_ms: self.timing.connect_timeout_ms },
        }
    }

    /// Takes the result of an attempt and the time since the probe began:
    /// a connection ends the probe `Ready`; a failure at or past the deadline
    /// ends it `TimedOut`; any other failure asks for a pause and a new attempt.
    pub fn on_attempt(&mut self, connected: bool, elapsed_ms: u64) -> (r: ProbeAction)
        ensures
            *final(self) == old(self).after_attempt(connected, elapsed_ms),
            r == final(self).next_action(),
    {
        if self.outcome.is_none() {
            if connected {
                self.outcome = Some(ReadinessOutcome::Ready);
            } else if elapsed_ms >= self.timing.timeout_ms {
                self.outcome = Some(ReadinessOutcome::TimedOut);
            }
        }
        match self.outcome {
            Some(o) => ProbeAction::Finish(o),
            None => ProbeAction::PauseThenConnect {
                pause_ms: self.timing.interval_ms,
                port: self.port,
                timeout_ms: self.timing.connect_timeout_ms,
            },
        }
    }
}

/// The probe after a run of failed attempts, reported at the times `es`.
pub open spec fn after_failures(p: ReadinessProbe, es: Seq<u64>) -> ReadinessProbe
    decreases es.len(),
{
    if es.len() == 0 {
        p
    } else {
        after_failures(p, es.drop_last()).after_attempt(false, es.last())
    }
}

/// Where a listener already accepts, the first attempt of a fresh probe
/// connects and the probe finishes `Ready`, with no pause before it.
pub proof fn lemma_ready_on_first_attempt(p: ReadinessProbe, elapsed_ms: u64)
    requires
        p.outcome is None,
    ensures
        p.after_attempt(true, elapsed_ms).outcome == Some(ReadinessOutcome::Ready),
        p.after_attempt(true, elapsed_ms).next_action() == ProbeAction::Finish(
            ReadinessOutcome::Ready,
        ),
{
}

/// No run of failed attempts, all reported before the deadline, ends a
/// fresh probe.
pub proof fn lemma_no_timeout_before_deadline(p: ReadinessProbe, es: Seq<u64>)
    requires
        p.outcome is None,
        forall|i: int| 0 <= i < es.len() ==> #[trigger] es[i] < p.timing.timeout_ms,
    ensures
        after_failures(p, es) == p,
    decreases es.len(),
{
    if es.len() > 0 {
        lemma_no_timeout_before_deadline(p, es.drop_last());
    }
}

/// Where no listener ever opens, a fresh probe ends `TimedOut` at the first
/// attempt reported at or past the deadline. Where each attempt takes at most
/// the attempt limit, and each pause at most the interval, that attempt is
/// reported no later than deadline plus interval plus attempt limit.
pub proof fn lemma_timeout_window(p: ReadinessProbe, es: Seq<u64>)
    requires
        p.outcome is None,
        es.len() > 0,
        forall|i: int| 0 <= i < es.len() - 1 ==> #[trigger] es[i] < p.timing.timeout_ms,
        es.last() >= p.timing.timeout_ms,
    ensures
        after_failures(p, es).outcome == Some(ReadinessOutcome::TimedOut),
        after_failures(p, es).next_action() == ProbeAction::Finish(ReadinessOutcome::TimedOut),
        es.len() == 1 && es[0] <= p.timing.connect_timeout_ms ==> es.last() <= p.timing.timeout_ms
            + p.timing.interval_ms + p.timing.connect_timeout_ms,
        es.len() > 1 && es.last() <= es[es.len() - 2] + p.timing.interval_ms
            + p.timing.connect_timeout_ms ==> es.last() < p.timing.timeout_ms
            + p.timing.interval_ms + p.timing.connect_timeout_ms,
{
    let prefix = es.drop_last();
    assert forall|i: int| 0 <= i < prefix.len() implies #[trigger] prefix[i]
        < p.timing.timeout_ms by {
        assert(prefix[i] == es[i]);
    }
    lemma_no_timeout_before_deadline(p, prefix);
    if es.len() > 1 {
        assert(es[es.len() - 2] < p.timing.timeout_ms);
    }
}

} // verus!
