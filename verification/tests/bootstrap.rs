use zeckit::{
    initial_state, parse_backend, phase_severity, run_bootstrap, sequencer_step,
    settle_after_connect_ms, topology, Backend, BootRun, Phase, PhaseOutcome, Severity,
    StepResult,
};

fn successes(n: usize) -> Vec<PhaseOutcome> {
    (0..n).map(|_| PhaseOutcome::Succeeded(None)).collect()
}

#[test]
fn backend_words_parse_to_their_variants() {
    assert!(matches!(parse_backend("lwd"), Some(Backend::Lwd)));
    assert!(matches!(parse_backend("zaino"), Some(Backend::Zaino)));
    assert!(matches!(parse_backend("none"), Some(Backend::NoBackend)));
    assert!(parse_backend("invalid").is_none());
    assert!(parse_backend("").is_none());
    assert!(parse_backend("LWD").is_none());
}

#[test]
fn topology_lists_the_probed_services_in_bring_up_order() {
    let eps = topology(Backend::NoBackend);
    assert_eq!(eps.len(), 2);
    assert_eq!(eps[0].name, "zebra");
    assert_eq!(eps[1].name, "faucet");
    let eps = topology(Backend::Lwd);
    assert_eq!(eps.len(), 3);
    assert_eq!(eps[2].name, "lightwalletd");
    assert_eq!(eps[2].address, "127.0.0.1:9067");
    let eps = topology(Backend::Zaino);
    assert_eq!(eps[2].name, "zaino");
}

#[test]
fn backends_get_a_settle_delay_after_first_connect() {
    assert_eq!(settle_after_connect_ms(Backend::NoBackend), 0);
    assert_eq!(settle_after_connect_ms(Backend::Lwd), 10_000);
    assert_eq!(settle_after_connect_ms(Backend::Zaino), 10_000);
}

#[test]
fn all_successes_reach_ready_without_a_backend() {
    match run_bootstrap(Backend::NoBackend, &successes(10)) {
        BootRun::Completed(st) => assert!(matches!(st.phase, Phase::Ready)),
        _ => panic!("an all-success run must reach the ready state"),
    }
}

#[test]
fn all_successes_reach_ready_with_a_backend() {
    match run_bootstrap(Backend::Zaino, &successes(10)) {
        BootRun::Completed(st) => assert!(matches!(st.phase, Phase::Ready)),
        _ => panic!("an all-success run must reach the ready state"),
    }
}

#[test]
fn a_fatal_phase_failure_aborts_the_run() {
    let mut outcomes = successes(10);
    outcomes[1] = PhaseOutcome::Failed("core never became ready".to_string());
    match run_bootstrap(Backend::NoBackend, &outcomes) {
        BootRun::Aborted(phase, detail) => {
            assert!(matches!(phase, Phase::WaitCoreService));
            assert_eq!(detail, "core never became ready");
        }
        _ => panic!("a failed fatal phase must abort the run"),
    }
}

#[test]
fn advisory_failures_are_survived() {
    // address resolution fails: reconciliation and the restart are skipped,
    // and the run still completes
    let mut outcomes = successes(10);
    outcomes[2] = PhaseOutcome::Failed("wallet not reachable".to_string());
    match run_bootstrap(Backend::NoBackend, &outcomes) {
        BootRun::Completed(st) => {
            assert!(matches!(st.phase, Phase::Ready));
            assert!(st.resolved_address.is_none());
            assert!(!st.reconciled);
        }
        _ => panic!("an advisory failure must not abort the run"),
    }
}

#[test]
fn a_resolved_address_is_threaded_to_reconciliation() {
    let addr = "tmWuSB2316aX28SGM9hYVUS4NTiVP8eWDBW";
    let outcomes: Vec<PhaseOutcome> = vec![
        PhaseOutcome::Succeeded(None),                         // containers
        PhaseOutcome::Succeeded(None),                         // core gate
        PhaseOutcome::Succeeded(Some(addr.to_string())),       // resolve
        PhaseOutcome::Succeeded(None),                         // reconcile
        PhaseOutcome::Succeeded(None),                         // restart
        PhaseOutcome::Succeeded(None),                         // mining barrier
        PhaseOutcome::Succeeded(None),                         // fixture
        PhaseOutcome::Succeeded(None),                         // sync
        PhaseOutcome::Succeeded(None),                         // balance
    ];
    match run_bootstrap(Backend::NoBackend, &outcomes) {
        BootRun::Completed(st) => {
            assert_eq!(st.resolved_address.as_deref(), Some(addr));
            assert!(st.reconciled);
        }
        _ => panic!("the run should have completed"),
    }
}

#[test]
fn the_backend_gate_runs_only_with_a_backend_selected() {
    // with a backend, the third event is consumed by the backend gate, and
    // its failure is fatal there
    let mut outcomes = successes(10);
    outcomes[2] = PhaseOutcome::Failed("indexer never accepted a connection".to_string());
    match run_bootstrap(Backend::Lwd, &outcomes) {
        BootRun::Aborted(phase, _) => assert!(matches!(phase, Phase::WaitBackendService)),
        _ => panic!("the backend gate must be fatal when a backend is selected"),
    }
    // without one, the same failure lands on advisory address resolution
    let mut outcomes = successes(10);
    outcomes[2] = PhaseOutcome::Failed("no such phase".to_string());
    assert!(matches!(
        run_bootstrap(Backend::NoBackend, &outcomes),
        BootRun::Completed(_)
    ));
}

#[test]
fn single_steps_report_severity_and_progress() {
    let st = initial_state();
    assert!(matches!(st.phase, Phase::StartContainers));
    match sequencer_step(st, Backend::NoBackend, &PhaseOutcome::Succeeded(None)) {
        StepResult::Continue(n) => assert!(matches!(n.phase, Phase::WaitCoreService)),
        _ => panic!("a successful phase must continue"),
    }
    let st = initial_state();
    match sequencer_step(st, Backend::NoBackend, &PhaseOutcome::Failed("no container runtime".to_string())) {
        StepResult::Abort(phase, detail) => {
            assert!(matches!(phase, Phase::StartContainers));
            assert_eq!(detail, "no container runtime");
        }
        _ => panic!("a failed fatal phase must abort"),
    }
}

#[test]
fn severities_match_the_phase_table() {
    for (phase, fatal) in [
        (Phase::StartContainers, true),
        (Phase::WaitCoreService, true),
        (Phase::WaitBackendService, true),
        (Phase::ResolveMinerAddress, false),
        (Phase::ReconcileMinerConfig, false),
        (Phase::RestartAffectedService, false),
        (Phase::MiningBarrierWait, true),
        (Phase::GenerateFixture, false),
        (Phase::SyncWallet, false),
        (Phase::CheckBalance, false),
    ] {
        let sev = phase_severity(phase);
        assert_eq!(matches!(sev, Severity::Fatal), fatal);
    }
}
