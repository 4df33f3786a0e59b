use freewili_updater::locator::{find_in_list, locate_in, LocateOutcome, LocateStep, Locator};
use freewili_updater::types::{DeviceInfo, DeviceType};

fn dev(id: u64) -> DeviceInfo {
    DeviceInfo { unique_id: id, device_type: DeviceType::Freewili, main: None, display: None }
}

#[test]
fn find_in_list_returns_first_match() {
    let devs = vec![dev(5), dev(7), dev(7), dev(9)];
    assert_eq!(find_in_list(&devs, 7), Some(1));
    assert_eq!(find_in_list(&devs, 5), Some(0));
    assert_eq!(find_in_list(&devs, 9), Some(3));
    assert_eq!(find_in_list(&devs, 4), None);
    assert_eq!(find_in_list(&Vec::new(), 4), None);
}

#[test]
fn locator_step_reports_found_retry_and_not_found() {
    let mut loc = Locator::new(7, 3, 10);
    let empty: Vec<DeviceInfo> = Vec::new();
    match loc.step(Some(&empty)) {
        LocateStep::Retry(ms) => assert_eq!(ms, 10),
        other => panic!("unexpected step: {:?}", other),
    }
    match loc.step(None) {
        LocateStep::Retry(ms) => assert_eq!(ms, 10),
        other => panic!("unexpected step: {:?}", other),
    }
    let hit = vec![dev(1), dev(7)];
    match loc.step(Some(&hit)) {
        LocateStep::Found(i) => assert_eq!(i, 1),
        other => panic!("unexpected step: {:?}", other),
    }
}

#[test]
fn locator_step_exhausts_budget() {
    let mut loc = Locator::new(7, 2, 5);
    assert!(matches!(loc.step(None), LocateStep::Retry(5)));
    assert!(matches!(loc.step(None), LocateStep::NotFound));
}

#[test]
fn locate_succeeds_after_transient_failures() {
    // the target appears only after three failed snapshots, below the ceiling
    let snapshots = vec![
        None,
        Some(Vec::new()),
        None,
        Some(vec![dev(3), dev(42)]),
        Some(vec![dev(42)]),
    ];
    match locate_in(42, 10, 1, snapshots) {
        LocateOutcome::Located { attempt, device } => {
            assert_eq!(attempt, 3);
            assert_eq!(device, 1);
        }
        other => panic!("unexpected outcome: {:?}", other),
    }
}

#[test]
fn locate_fails_only_after_the_full_budget() {
    // the target appears at the ceiling, one attempt too late
    let mut snapshots: Vec<Option<Vec<DeviceInfo>>> = Vec::new();
    for _ in 0..4 {
        snapshots.push(Some(Vec::new()));
    }
    snapshots.push(Some(vec![dev(42)]));
    match locate_in(42, 4, 1, snapshots) {
        LocateOutcome::NotFound { attempts_spent } => assert_eq!(attempts_spent, 4),
        other => panic!("unexpected outcome: {:?}", other),
    }
}

#[test]
fn locate_uses_every_attempt_when_recording_runs_out() {
    let snapshots: Vec<Option<Vec<DeviceInfo>>> = vec![None];
    match locate_in(1, 6, 1, snapshots) {
        LocateOutcome::NotFound { attempts_spent } => assert_eq!(attempts_spent, 6),
        other => panic!("unexpected outcome: {:?}", other),
    }
}
