use zeckit::{
    backend_policy, barrier_progress_percent, core_policy, exhausted_error, funding_policy,
    maturity_barrier, run_barrier, run_schedule, BarrierRun, ZecDevError,
};

#[test]
fn policies_have_documented_budgets() {
    let core = core_policy();
    let funding = funding_policy();
    let backend = backend_policy();
    assert_eq!(core.max_attempts, 90);
    assert_eq!(core.interval_ms, 2000);
    assert_eq!(core.per_attempt_timeout_ms, 5000);
    assert_eq!(funding.max_attempts, 60);
    assert_eq!(backend.max_attempts, 900);
    assert_eq!(backend.per_attempt_timeout_ms, 2000);
    // the backend budget dominates the core budget, which dominates funding
    assert!(backend.max_attempts as u64 * backend.interval_ms > core.max_attempts as u64 * core.interval_ms);
    assert!(core.max_attempts as u64 * core.interval_ms > funding.max_attempts as u64 * funding.interval_ms);
}

#[test]
fn probe_that_never_succeeds_exhausts_the_whole_budget() {
    let policy = funding_policy();
    let outcomes = vec![false; 60];
    let report = run_schedule(&policy, &outcomes);
    assert!(!report.succeeded);
    assert_eq!(report.attempts, 60);
    assert_eq!(report.waited_ms, 59 * 2000);
}

#[test]
fn probe_that_succeeds_on_third_attempt_stops_there() {
    let policy = funding_policy();
    let mut outcomes = vec![false; 60];
    outcomes[2] = true;
    let report = run_schedule(&policy, &outcomes);
    assert!(report.succeeded);
    assert_eq!(report.attempts, 3);
    assert_eq!(report.waited_ms, 2 * 2000);
}

#[test]
fn probe_that_succeeds_immediately_never_sleeps() {
    let policy = core_policy();
    let mut outcomes = vec![false; 90];
    outcomes[0] = true;
    let report = run_schedule(&policy, &outcomes);
    assert!(report.succeeded);
    assert_eq!(report.attempts, 1);
    assert_eq!(report.waited_ms, 0);
}

#[test]
fn an_exhausted_budget_terminates_in_service_not_ready() {
    match exhausted_error(&"Zebra".to_string()) {
        ZecDevError::ServiceNotReady(name) => assert_eq!(name, "Zebra"),
        _ => panic!("an exhausted budget must name the service"),
    }
}

#[test]
fn barrier_succeeds_when_heights_converge_to_the_threshold() {
    let cfg = maturity_barrier();
    assert_eq!(cfg.threshold_height, 101);
    let observations = vec![Some(0), None, Some(50), Some(100), Some(101)];
    match run_barrier(&cfg, &observations) {
        BarrierRun::Reached { height, polls } => {
            assert!(height >= 101);
            assert_eq!(height, 101);
            assert_eq!(polls, 5);
        }
        _ => panic!("barrier should have been satisfied"),
    }
}

#[test]
fn barrier_reports_the_observed_height_even_past_the_threshold() {
    let cfg = maturity_barrier();
    let observations = vec![Some(99), Some(150)];
    match run_barrier(&cfg, &observations) {
        BarrierRun::Reached { height, polls } => {
            assert_eq!(height, 150);
            assert_eq!(polls, 2);
        }
        _ => panic!("barrier should have been satisfied"),
    }
}

#[test]
fn barrier_times_out_when_heights_plateau_below_the_threshold() {
    let cfg = maturity_barrier();
    // 2_000_000 ms of budget at 2000 ms per poll: poll 1001 is the first
    // past the budget
    let observations = vec![Some(100); 1002];
    match run_barrier(&cfg, &observations) {
        BarrierRun::TimedOut { polls } => {
            assert_eq!(polls, 1002);
        }
        _ => panic!("barrier should have timed out"),
    }
}

#[test]
fn query_failures_do_not_abort_the_barrier() {
    let cfg = maturity_barrier();
    let observations = vec![None, None, None, Some(101)];
    match run_barrier(&cfg, &observations) {
        BarrierRun::Reached { height, .. } => assert_eq!(height, 101),
        _ => panic!("transient query failures must not abort the barrier"),
    }
}

#[test]
fn progress_is_clamped_to_one_hundred_percent() {
    let cfg = maturity_barrier();
    assert_eq!(barrier_progress_percent(&cfg, 0), 0);
    assert_eq!(barrier_progress_percent(&cfg, 50), 49);
    assert_eq!(barrier_progress_percent(&cfg, 100), 99);
    assert_eq!(barrier_progress_percent(&cfg, 101), 100);
    assert_eq!(barrier_progress_percent(&cfg, 5000), 100);
}
