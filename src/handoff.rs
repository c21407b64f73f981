//! The start-up sequence: splash, port, worker, readiness wait, then either
//! the worker's page or the error page.
//!
//! The controller only decides. The caller performs each action and reports
//! how it went as the next event.

use vstd::prelude::*;
use crate::diagnostic::{diagnostic_of, page_of, url_of, ready_url, DiagnosticContext};
use crate::port_scan::AllocError;
use crate::probe::{ProbeTiming, ReadinessOutcome, CONNECT_TIMEOUT_MS, POLL_INTERVAL_MS};

verus! {

/// A failure that ends the start-up.
#[derive(Clone, Copy, Debug, PartialEq, Eq, Structural)]
pub enum StartupError {
    /// No port of the range could be bound.
    NoFreePort { start: u16, end: u16 },
    /// The worker could not be launched.
    SpawnFailure,
}

/// Where the sequence stands.
#[derive(Clone, Copy, Debug, PartialEq, Eq, Structural)]
pub enum Phase {
    Idle,
    ShowingSplash,
    Allocating,
    Spawning(u16),
    Probing(u16),
    Finished(ReadinessOutcome),
    Aborted(StartupError),
}

/// What the caller reports.
#[derive(Clone, Copy, Debug, PartialEq, Eq, Structural)]
pub enum HandoffEvent {
    /// The application has started.
    Launched,
    /// The splash surface is displayed.
    SplashShown,
    /// The port scan chose this port.
    PortChosen(u16),
    /// The port scan found no free port.
    PortUnavailable(AllocError),
    /// The worker was launched, or could not be.
    WorkerSpawned(bool),
    /// The readiness probe ended.
    ProbeFinished(ReadinessOutcome),
}

/// What the caller does next.
#[derive(Debug, PartialEq, Eq)]
pub enum HandoffAction {
    /// Display the splash surface.
    ShowSplash,
    /// Choose a port of `[start, end)`.
    AllocatePort { start: u16, end: u16 },
    /// Launch the worker with `--port <port>`.
    SpawnWorker(u16),
    /// Run the readiness probe of `port` in the background.
    StartProbe { port: u16, timing: ProbeTiming },
    /// Point the window at this address.
    Navigate(String),
    /// Replace the window's content by this page.
    Render(String),
    /// Give up the start-up.
    Abort(StartupError),
    /// The event does not fit the present phase: nothing to do.
    Nothing,
}

/// The fixed settings of a start-up.
pub struct HandoffConfig {
    pub range_start: u16,
    pub range_end: u16,
    pub timeout_secs: u32,
    pub os: String,
    pub arch: String,
}

/// The start-up controller.
pub struct Handoff {
    pub config: HandoffConfig,
    pub phase: Phase,
}

/// The probe timing for a deadline in seconds.
pub open spec fn timing_for(timeout_secs: u32) -> ProbeTiming {
    ProbeTiming {
        timeout_ms: (timeout_secs * 1000) as u64,
        interval_ms: POLL_INTERVAL_MS,
        connect_timeout_ms: CONNECT_TIMEOUT_MS,
    }
}

/// The phase after `ev` in phase `ph`; an event that does not fit leaves it.
pub open spec fn next_phase(ph: Phase, ev: HandoffEvent) -> Phase {
    match (ph, ev) {
        (Phase::Idle, HandoffEvent::Launched) => Phase::ShowingSplash,
        (Phase::ShowingSplash, HandoffEvent::SplashShown) => Phase::Allocating,
        (Phase::Allocating, HandoffEvent::PortChosen(p)) => Phase::Spawning(p),
        (Phase::Allocating, HandoffEvent::PortUnavailable(AllocError::NoFreePort { start, end })) =>
            Phase::Aborted(StartupError::NoFreePort { start, end }),
        (Phase::Spawning(p), HandoffEvent::WorkerSpawned(ok)) => if ok {
            Phase::Probing(p)
        } else {
            Phase::Aborted(StartupError::SpawnFailure)
        },
        (Phase::Probing(_), HandoffEvent::ProbeFinished(o)) => Phase::Finished(o),
        _ => ph,
    }
}

/// `a` is the action for `ev` in phase `ph` under `cfg`.
pub open spec fn action_for(cfg: &HandoffConfig, ph: Phase, ev: HandoffEvent, a: &HandoffAction) -> bool {
    match (ph, ev) {
        (Phase::Idle, HandoffEvent::Launched) => *a == HandoffAction::ShowSplash,
        (Phase::ShowingSplash, HandoffEvent::SplashShown) => *a == (HandoffAction::AllocatePort {
            start: cfg.range_start,
            end: cfg.range_end,
        }),
        (Phase::Allocating, HandoffEvent::PortChosen(p)) => *a == HandoffAction::SpawnWorker(p),
        (Phase::Allocating, HandoffEvent::PortUnavailable(AllocError::NoFreePort { start, end })) =>
            *a == HandoffAction::Abort(StartupError::NoFreePort { start, end }),
        (Phase::Spawning(p), HandoffEvent::WorkerSpawned(ok)) => if ok {
            *a == (HandoffAction::StartProbe { port: p, timing: timing_for(cfg.timeout_secs) })
        } else {
            *a == HandoffAction::Abort(StartupError::SpawnFailure)
        },
        (Phase::Probing(p), HandoffEvent::ProbeFinished(ReadinessOutcome::Ready)) =>
            a matches HandoffAction::Navigate(u) && u@ == url_of(p as nat),
        (Phase::Probing(p), HandoffEvent::ProbeFinished(ReadinessOutcome::TimedOut)) =>
            a matches HandoffAction::Render(h) && h@ == page_of(
                diagnostic_of(p as nat, cfg.timeout_secs as nat, cfg.os@, cfg.arch@),
            ),
        _ => *a == HandoffAction::Nothing,
    }
}

impl Handoff {
    /// A controller that has not started.
    pub fn new(config: HandoffConfig) -> (r: Handoff)
        ensures
            r.config == config,
            r.phase == Phase::Idle,
    {
        Handoff { config, phase: Phase::Idle }
    }

    /// Takes the next event and says what to do. The window is pointed at the
    /// worker, or given the error page, only in answer to the end of the
    /// readiness probe, and only once.
    pub fn step(&mut self, ev: HandoffEvent) -> (r: HandoffAction)
        ensures
            final(self).config == old(self).config,
            final(self).phase == next_phase(old(self).phase, ev),
            action_for(&old(self).config, old(self).phase, ev, &r),
            (r is Navigate || r is Render) ==> old(self).phase is Probing && ev is ProbeFinished,
    {
        match (self.phase, ev) {
            (Phase::Idle, HandoffEvent::Launched) => {
                self.phase = Phase::ShowingSplash;
                HandoffAction::ShowSplash
            },
            (Phase::ShowingSplash, HandoffEvent::SplashShown) => {
                self.phase = Phase::Allocating;
                HandoffAction::AllocatePort { start: self.config.range_start, end: self.config.range_end }
            },
            (Phase::Allocating, HandoffEvent::PortChosen(p)) => {
                self.phase = Phase::Spawning(p);
                HandoffAction::SpawnWorker(p)
            },
            (Phase::Allocating, HandoffEvent::PortUnavailable(AllocError::NoFreePort { start, end })) => {
                let e = StartupError::NoFreePort { start, end };
                self.phase = Phase::Aborted(e);
                HandoffAction::Abort(e)
            },
            (Phase::Spawning(p), HandoffEvent::WorkerSpawned(ok)) => {
                if ok {
                    self.phase = Phase::Probing(p);
                    let timeout_ms: u64 = (self.config.timeout_secs as u64) * 1000;
                    HandoffAction::StartProbe { port: p, timing: ProbeTiming::with_timeout(timeout_ms) }
                } else {
                    self.phase = Phase::Aborted(StartupError::SpawnFailure);
                    HandoffAction::Abort(StartupError::SpawnFailure)
                }
            },
            (Phase::Probing(p), HandoffEvent::ProbeFinished(o)) => {
                self.phase = Phase::Finished(o);
                match o {
                    ReadinessOutcome::Ready => HandoffAction::Navigate(ready_url(p)),
                    ReadinessOutcome::TimedOut => {
                        let ctx = DiagnosticContext {
                            port: p,
                            timeout_secs: self.config.timeout_secs as u64,
                            os: self.config.os.clone(),
                            arch: self.config.arch.clone(),
                        };
                        HandoffAction::Render(ctx.failure_page())
                    },
                }
            },
            _ => HandoffAction::Nothing,
        }
    }
}

/// The window is updated only in answer to the probe's end, in the probing
/// phase; it is pointed at the worker exactly when the worker was ready, and
/// the sequence is then over, so no second update can follow.
pub proof fn lemma_ui_update_follows_probe(
    cfg: &HandoffConfig,
    ph: Phase,
    ev: HandoffEvent,
    a: &HandoffAction,
    later: HandoffEvent,
    b: &HandoffAction,
)
    requires
        action_for(cfg, ph, ev, a),
        a is Navigate || a is Render,
        action_for(cfg, next_phase(ph, ev), later, b),
    ensures
        ph is Probing,
        ev is ProbeFinished,
        a is Navigate <==> ev == HandoffEvent::ProbeFinished(ReadinessOutcome::Ready),
        next_phase(ph, ev) is Finished,
        *b == HandoffAction::Nothing,
        next_phase(next_phase(ph, ev), later) == next_phase(ph, ev),
{
}

} // verus!
