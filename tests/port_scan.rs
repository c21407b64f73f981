use tablerreur::port_scan::{AllocError, PortScan, ScanAction};

/// Drives a scan, answering each bind with `bindable`, and returns the final
/// action together with the ports that were tried.
fn drive(start: u16, end: u16, bindable: impl Fn(u16) -> bool) -> (ScanAction, Vec<u16>) {
    let mut scan = PortScan::new(start, end);
    let mut tried = Vec::new();
    let mut action = scan.action();
    while let ScanAction::TryBind(p) = action {
        tried.push(p);
        action = scan.record(bindable(p));
    }
    (action, tried)
}

#[test]
fn first_port_taken_gives_the_next_one() {
    let (action, tried) = drive(8400, 8500, |p| p != 8400);
    assert_eq!(action, ScanAction::Found(8401));
    assert_eq!(tried, vec![8400, 8401]);
}

#[test]
fn free_first_candidate_is_chosen_at_once() {
    let (action, tried) = drive(8400, 8500, |_| true);
    assert_eq!(action, ScanAction::Found(8400));
    assert_eq!(tried, vec![8400]);
}

#[test]
fn chosen_port_is_the_first_free_one_in_range() {
    let (action, _) = drive(8400, 8500, |p| p == 8457 || p == 8470);
    assert_eq!(action, ScanAction::Found(8457));
    let (action, _) = drive(8400, 8500, |p| p == 8499);
    assert_eq!(action, ScanAction::Found(8499));
}

#[test]
fn every_port_bound_fails_with_the_range() {
    let (action, tried) = drive(8400, 8500, |_| false);
    assert_eq!(action, ScanAction::Exhausted(AllocError::NoFreePort { start: 8400, end: 8500 }));
    assert_eq!(tried.len(), 100);
    assert_eq!(tried[0], 8400);
    assert_eq!(tried[99], 8499);
}

#[test]
fn empty_range_fails_without_trying() {
    let (action, tried) = drive(9000, 9000, |_| true);
    assert_eq!(action, ScanAction::Exhausted(AllocError::NoFreePort { start: 9000, end: 9000 }));
    assert!(tried.is_empty());
    let (action, _) = drive(9000, 10, |_| true);
    assert_eq!(action, ScanAction::Exhausted(AllocError::NoFreePort { start: 9000, end: 10 }));
}

#[test]
fn range_up_to_the_largest_port() {
    let (action, _) = drive(65530, 65535, |p| p == 65534);
    assert_eq!(action, ScanAction::Found(65534));
    let (action, tried) = drive(65530, 65535, |_| false);
    assert_eq!(action, ScanAction::Exhausted(AllocError::NoFreePort { start: 65530, end: 65535 }));
    assert_eq!(tried, vec![65530, 65531, 65532, 65533, 65534]);
}

#[test]
fn results_after_the_end_change_nothing() {
    let mut scan = PortScan::new(8400, 8402);
    assert_eq!(scan.record(true), ScanAction::Found(8400));
    assert_eq!(scan.record(false), ScanAction::Found(8400));
    assert_eq!(scan.found, Some(8400));
}
