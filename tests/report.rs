use sync_harness::check::assert_true;
use sync_harness::failure::{Failure, SyncOp};
use sync_harness::report::{start_line, Outcome, RunReport};
use sync_harness::scenario::{counter_verdict, ITER_COUNT, THREAD_COUNT};

#[test]
fn empty_run_passes() {
    let report = RunReport::new();
    assert_eq!(report.total(), 0);
    assert_eq!(report.failed(), 0);
    assert!(report.all_passed());
    assert_eq!(report.summary(), "All tests passed!");
}

#[test]
fn run_with_mutex_scenario_passes() {
    let mut report = RunReport::new();
    report.record(
        "test_mutex_counter".to_string(),
        counter_verdict(200, THREAD_COUNT, ITER_COUNT),
    );
    assert_eq!(report.total(), 1);
    assert_eq!(report.failed(), 0);
    assert_eq!(report.summary(), "All tests passed!");
}

#[test]
fn failures_are_counted() {
    let mut report = RunReport::new();
    assert_eq!(report.record("a".to_string(), Ok(())), " OK");
    assert_eq!(
        report.record("b".to_string(), assert_true(false, "flag")),
        " FAILED: Assertion failed: `flag` is false"
    );
    assert_eq!(
        report.record("c".to_string(), Err(Failure::sync(SyncOp::LockMutex))),
        " FAILED: Failed to lock mutex"
    );
    report.record("d".to_string(), Ok(()));
    assert_eq!(report.total(), 4);
    assert_eq!(report.failed(), 2);
    assert!(!report.all_passed());
    assert_eq!(report.summary(), "2 tests failed.");
}

#[test]
fn progress_lines() {
    assert_eq!(start_line("test_barrier"), "Running test_barrier...");
    assert_eq!(Outcome::Pass.line(), " OK");
    let failed = Outcome::Fail(Failure::panicked("Thread"));
    assert_eq!(failed.line(), " FAILED: Thread panicked");
}
