use tablerreur::diagnostic::{
    error_page, page_script, ready_url, script_for_literal, DiagnosticContext, FALLBACK_JSON, PAGE_HEAD,
    PAGE_TAIL,
};
use tablerreur::handoff::{Handoff, HandoffAction, HandoffConfig, HandoffEvent, Phase, StartupError};
use tablerreur::port_scan::AllocError;
use tablerreur::probe::{ProbeTiming, ReadinessOutcome};

fn config(timeout_secs: u32) -> HandoffConfig {
    HandoffConfig {
        range_start: 8400,
        range_end: 8500,
        timeout_secs,
        os: "linux".to_string(),
        arch: "x86_64".to_string(),
    }
}

fn started_until_probe(timeout_secs: u32, port: u16) -> Handoff {
    let mut h = Handoff::new(config(timeout_secs));
    assert_eq!(h.step(HandoffEvent::Launched), HandoffAction::ShowSplash);
    assert_eq!(h.step(HandoffEvent::SplashShown), HandoffAction::AllocatePort { start: 8400, end: 8500 });
    assert_eq!(h.step(HandoffEvent::PortChosen(port)), HandoffAction::SpawnWorker(port));
    assert_eq!(
        h.step(HandoffEvent::WorkerSpawned(true)),
        HandoffAction::StartProbe { port, timing: ProbeTiming::with_timeout(timeout_secs as u64 * 1000) }
    );
    assert_eq!(h.phase, Phase::Probing(port));
    h
}

#[test]
fn ready_url_names_the_loopback_port() {
    assert_eq!(ready_url(8401), "http://127.0.0.1:8401");
    assert_eq!(ready_url(0), "http://127.0.0.1:0");
    assert_eq!(ready_url(65535), "http://127.0.0.1:65535");
}

#[test]
fn diagnostic_lines() {
    let ctx = DiagnosticContext { port: 8401, timeout_secs: 90, os: "macos".to_string(), arch: "aarch64".to_string() };
    assert_eq!(ctx.diagnostic_text(), "Port : 8401\nTimeout : 90 secondes\nSystème : macos aarch64");
}

#[test]
fn error_page_wraps_the_lines() {
    let page = error_page("X");
    assert_eq!(page, format!("{}X{}", PAGE_HEAD, PAGE_TAIL));
    assert!(page.starts_with("<!DOCTYPE html>"));
    assert!(page.contains("<pre id=\"diag\">X</pre>"));
    assert!(page.ends_with("</html>"));
}

#[test]
fn script_for_a_literal() {
    assert_eq!(
        script_for_literal(Some("\"a\"")),
        "document.open();document.write(\"a\");document.close();"
    );
    assert_eq!(
        script_for_literal(None),
        format!("document.open();document.write({});document.close();", FALLBACK_JSON)
    );
}

#[test]
fn page_script_quotes_and_escapes_the_page() {
    let html = "<p class=\"x\">a\\b\nc</p>".to_string();
    assert_eq!(
        page_script(&html),
        "document.open();document.write(\"<p class=\\\"x\\\">a\\\\b\\nc</p>\");document.close();"
    );
}

#[test]
fn ready_probe_navigates_to_the_worker() {
    let mut h = started_until_probe(15, 8401);
    let action = h.step(HandoffEvent::ProbeFinished(ReadinessOutcome::Ready));
    assert_eq!(action, HandoffAction::Navigate("http://127.0.0.1:8401".to_string()));
    assert_eq!(h.phase, Phase::Finished(ReadinessOutcome::Ready));
}

#[test]
fn timed_out_probe_renders_the_diagnostic() {
    let mut h = started_until_probe(1, 8401);
    match h.step(HandoffEvent::ProbeFinished(ReadinessOutcome::TimedOut)) {
        HandoffAction::Render(page) => {
            assert!(page.contains("Port : 8401\nTimeout : 1 secondes\nSystème : linux x86_64"));
            assert!(page.starts_with(PAGE_HEAD));
        }
        other => panic!("unexpected action {:?}", other),
    }
    assert_eq!(h.phase, Phase::Finished(ReadinessOutcome::TimedOut));
}

#[test]
fn no_update_before_the_probe_ends() {
    let mut h = Handoff::new(config(90));
    assert_eq!(h.step(HandoffEvent::ProbeFinished(ReadinessOutcome::Ready)), HandoffAction::Nothing);
    assert_eq!(h.phase, Phase::Idle);
    h.step(HandoffEvent::Launched);
    assert_eq!(h.step(HandoffEvent::PortChosen(8400)), HandoffAction::Nothing);
    assert_eq!(h.phase, Phase::ShowingSplash);
}

#[test]
fn no_second_update_after_the_first() {
    let mut h = started_until_probe(90, 8402);
    h.step(HandoffEvent::ProbeFinished(ReadinessOutcome::Ready));
    assert_eq!(h.step(HandoffEvent::ProbeFinished(ReadinessOutcome::TimedOut)), HandoffAction::Nothing);
    assert_eq!(h.phase, Phase::Finished(ReadinessOutcome::Ready));
}

#[test]
fn no_free_port_aborts() {
    let mut h = Handoff::new(config(90));
    h.step(HandoffEvent::Launched);
    h.step(HandoffEvent::SplashShown);
    let action = h.step(HandoffEvent::PortUnavailable(AllocError::NoFreePort { start: 8400, end: 8500 }));
    assert_eq!(action, HandoffAction::Abort(StartupError::NoFreePort { start: 8400, end: 8500 }));
    assert_eq!(h.step(HandoffEvent::WorkerSpawned(true)), HandoffAction::Nothing);
}

#[test]
fn spawn_failure_aborts() {
    let mut h = Handoff::new(config(90));
    h.step(HandoffEvent::Launched);
    h.step(HandoffEvent::SplashShown);
    h.step(HandoffEvent::PortChosen(8400));
    assert_eq!(h.step(HandoffEvent::WorkerSpawned(false)), HandoffAction::Abort(StartupError::SpawnFailure));
    assert_eq!(h.phase, Phase::Aborted(StartupError::SpawnFailure));
    assert_eq!(h.step(HandoffEvent::ProbeFinished(ReadinessOutcome::Ready)), HandoffAction::Nothing);
}
