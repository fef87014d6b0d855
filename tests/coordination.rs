use interruptible_cli::{
    Action, Cli, Coordinator, OperationError, Phase, RaceEvent, SelectionError, Start,
    TerminationFlag, WatchStep, Watcher,
};
use std::sync::atomic::Ordering;

/// Runs a watcher against a flag that becomes set at `set_at` (if ever) and
/// returns the simulated time at which it finishes, giving up after `limit`.
fn watch_until(interval: u64, set_at: Option<u64>, limit: u64) -> Option<u64> {
    let watcher = Watcher::new(interval);
    let mut flag = TerminationFlag::new();
    let mut now: u64 = 0;
    while now <= limit {
        if set_at.map_or(false, |s| now >= s) {
            flag.set();
        }
        match watcher.poll(&mut flag) {
            WatchStep::Finish => return Some(now),
            WatchStep::Sleep(d) => now += d,
        }
    }
    None
}

#[test]
fn new_flag_is_not_set() {
    let mut flag = TerminationFlag::new();
    assert!(!flag.is_set());
    assert!(!flag.is_set());
}

#[test]
fn set_flag_stays_set() {
    let mut flag = TerminationFlag::new();
    flag.set();
    for _ in 0..5 {
        assert!(flag.is_set());
    }
    flag.set();
    assert!(flag.is_set());
}

#[test]
fn shared_cell_reaches_the_handle() {
    let mut flag = TerminationFlag::new();
    let cell = flag.shared_cell();
    assert!(!flag.is_set());
    cell.store(true, Ordering::SeqCst);
    assert!(flag.is_set());
}

#[test]
fn handle_stays_set_after_cell_is_cleared() {
    let mut flag = TerminationFlag::new();
    let cell = flag.shared_cell();
    cell.store(true, Ordering::SeqCst);
    assert!(flag.is_set());
    cell.store(false, Ordering::SeqCst);
    assert!(flag.is_set());
}

#[test]
fn poll_on_unset_flag_sleeps_one_interval() {
    let watcher = Watcher::new(100);
    let mut flag = TerminationFlag::new();
    assert_eq!(watcher.poll(&mut flag), WatchStep::Sleep(100));
    assert_eq!(watcher.poll_interval_ms(), 100);
}

#[test]
fn poll_on_early_set_flag_finishes_without_sleeping() {
    let watcher = Watcher::new(100);
    let mut flag = TerminationFlag::new();
    flag.set();
    assert_eq!(watcher.poll(&mut flag), WatchStep::Finish);
    assert_eq!(watch_until(100, Some(0), 10_000), Some(0));
}

#[test]
fn watcher_returns_within_one_interval() {
    assert_eq!(watch_until(100, Some(250), 10_000), Some(300));
    assert_eq!(watch_until(100, Some(300), 10_000), Some(300));
    assert_eq!(watch_until(100, Some(301), 10_000), Some(400));
    assert_eq!(watch_until(7, Some(50), 10_000), Some(56));
    assert_eq!(watch_until(100, None, 10_000), None);
}

#[test]
fn failure_message_names_operation_and_cause() {
    let e = OperationError::new("Build".to_string(), "disk full".to_string());
    assert_eq!(e.operation, "Build");
    assert_eq!(e.cause, "disk full");
    assert_eq!(e.message(), "failed to run Build: disk full");
}

#[test]
fn selection_launches_the_operation_once() {
    let mut c = Coordinator::new(100);
    assert_eq!(c.phase(), Phase::Selecting);
    match c.on_selection::<&str>(Ok("job")) {
        Start::Launch { operation, poll_interval_ms } => {
            assert_eq!(operation, "job");
            assert_eq!(poll_interval_ms, 100);
        }
        other => panic!("unexpected {other:?}"),
    }
    assert_eq!(c.phase(), Phase::Racing);
    assert_eq!(c.launches(), 1);
    assert_eq!(c.watchers(), 1);
    assert!(matches!(c.on_event(RaceEvent::WatcherFinished), Action::Abandon));
    assert!(matches!(c.on_event(RaceEvent::OperationFinished(Ok(()))), Action::Ignore));
    assert_eq!(c.launches(), 1);
}

#[test]
fn rejected_selection_starts_nothing() {
    let mut c = Coordinator::new(100);
    let start = c.on_cli_selection(Err(SelectionError { usage: "no operation".to_string() }));
    assert_eq!(start.exit_code(), 2);
    match start {
        Start::Reject(e) => assert_eq!(e.usage, "no operation"),
        other => panic!("unexpected {other:?}"),
    }
    assert_eq!(c.phase(), Phase::Done);
    assert_eq!(c.launches(), 0);
    assert_eq!(c.watchers(), 0);
    assert!(matches!(c.on_event(RaceEvent::WatcherFinished), Action::Ignore));
}

#[test]
fn termination_abandons_a_long_operation() {
    // Polling every 100 ms, flag set at t = 0, operation done at t = 10 s.
    let mut c = Coordinator::new(100);
    assert!(matches!(c.on_selection::<u8>(Ok(1)), Start::Launch { .. }));
    let watcher_done = watch_until(100, Some(0), 10_000).unwrap();
    assert!(watcher_done <= 200);
    assert!(watcher_done < 10_000);
    let first = c.on_event(RaceEvent::WatcherFinished);
    assert!(matches!(first, Action::Abandon));
    assert_eq!(first.exit_code(), 0);
    let late = c.on_event(RaceEvent::OperationFinished(Ok(())));
    assert!(matches!(late, Action::Ignore));
}

#[test]
fn quick_success_is_reported_without_notice() {
    // Flag never set; operation done at t = 50 ms.
    let mut c = Coordinator::new(100);
    assert!(matches!(c.on_selection::<u8>(Ok(1)), Start::Launch { .. }));
    assert_eq!(watch_until(100, None, 50), None);
    let first = c.on_event(RaceEvent::OperationFinished(Ok(())));
    assert!(matches!(first, Action::Succeed));
    assert_eq!(first.exit_code(), 0);
    assert_eq!(c.phase(), Phase::Done);
}

#[test]
fn failed_operation_is_reported_with_context() {
    let mut c = Coordinator::new(100);
    assert!(matches!(c.on_selection::<u8>(Ok(1)), Start::Launch { .. }));
    let err = OperationError::new("Sync".to_string(), "timed out".to_string());
    let first = c.on_event(RaceEvent::OperationFinished(Err(err)));
    assert_eq!(first.exit_code(), 1);
    match first {
        Action::Fail(text) => assert_eq!(text, "failed to run Sync: timed out"),
        other => panic!("unexpected {other:?}"),
    }
    assert!(matches!(c.on_event(RaceEvent::WatcherFinished), Action::Ignore));
}

#[test]
fn flag_set_inside_a_poll_window_lets_the_operation_win() {
    // Flag set at t = 10 ms, seen by the watcher at t = 100 ms; the operation
    // completes at t = 50 ms, in between.
    let mut c = Coordinator::new(100);
    assert!(matches!(c.on_selection::<u8>(Ok(1)), Start::Launch { .. }));
    assert_eq!(watch_until(100, Some(10), 10_000), Some(100));
    assert!(matches!(c.on_event(RaceEvent::OperationFinished(Ok(()))), Action::Succeed));
    assert!(matches!(c.on_event(RaceEvent::WatcherFinished), Action::Ignore));
}

#[test]
fn observe_latches_a_true_reading() {
    let mut flag = TerminationFlag::new();
    assert!(!flag.observe(false));
    assert!(!flag.is_set());
    assert!(flag.observe(true));
    assert!(flag.observe(false));
    assert!(flag.is_set());
}

#[test]
fn step_decides_from_the_reading_alone() {
    let watcher = Watcher::new(250);
    assert_eq!(watcher.step(true), WatchStep::Finish);
    assert_eq!(watcher.step(false), WatchStep::Sleep(250));
    let mut flag = TerminationFlag::new();
    assert_eq!(watcher.poll(&mut flag), WatchStep::Sleep(250));
    assert!(!flag.is_set());
}

#[test]
fn generic_rejection_matches_cli_rejection() {
    let mut c = Coordinator::new(100);
    let start = c.on_selection::<Cli>(Err(SelectionError { usage: "usage".to_string() }));
    assert!(matches!(start, Start::Reject(_)));
    assert_eq!(c.watchers(), 0);
}
