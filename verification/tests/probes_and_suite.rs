use zeckit::{
    block_count_from_body, classify_http_health, classify_http_json_field, classify_json_rpc,
    classify_tcp_connect, judge_address_body, judge_core_reachability, judge_funding_health,
    judge_send_response, judge_stats_body, probe_http_health, send_completed_event, step5_next,
    step5_start, suite_verdict, sync_output_ok, tally, FixtureStatus, Step5Action, Step5Event,
    Step5State, ZecDevError,
};

#[test]
fn unhealthy_status_body_is_not_ready() {
    assert!(!probe_http_health(true, b"{\"status\":\"unhealthy\"}"));
}

#[test]
fn body_without_a_status_field_is_ready() {
    assert!(probe_http_health(true, b"{}"));
}

#[test]
fn health_probe_requires_transport_success_first() {
    assert!(!probe_http_health(false, b"{}"));
    assert!(!probe_http_health(false, b"{\"status\":\"healthy\"}"));
}

#[test]
fn non_json_and_non_string_status_bodies_are_permissively_ready() {
    assert!(probe_http_health(true, b"plain text"));
    assert!(probe_http_health(true, b"{\"status\": 7}"));
    assert!(probe_http_health(true, b"{\"status\":\"healthy\"}"));
}

#[test]
fn extracted_status_field_drives_the_classification() {
    assert!(!classify_http_health(true, &Some("unhealthy".to_string())));
    assert!(classify_http_health(true, &Some("healthy".to_string())));
    assert!(classify_http_health(true, &None));
    assert!(!classify_http_health(false, &None));
}

#[test]
fn transport_level_probes_follow_their_inputs() {
    assert!(classify_json_rpc(true));
    assert!(!classify_json_rpc(false));
    assert!(classify_http_json_field(true));
    assert!(!classify_http_json_field(false));
    assert!(classify_tcp_connect(true));
    assert!(!classify_tcp_connect(false));
}

#[test]
fn block_count_reads_the_result_field() {
    assert_eq!(block_count_from_body(b"{\"result\": 42}").unwrap(), 42);
    assert_eq!(block_count_from_body(b"{\"result\": 0}").unwrap(), 0);
}

#[test]
fn block_count_rejects_malformed_responses() {
    for body in [
        &b"{\"result\": \"high\"}"[..],
        b"{}",
        b"not json",
        b"{\"result\": -3}",
    ] {
        match block_count_from_body(body) {
            Err(ZecDevError::HealthCheck(_)) => {}
            _ => panic!("expected a health-check error"),
        }
    }
}

#[test]
fn sync_transcripts_are_scanned_for_errors() {
    assert!(sync_output_ok("synced 100 blocks\nDone."));
    assert!(!sync_output_ok("...\nSync error: connection refused\n"));
    assert!(sync_output_ok(""));
}

#[test]
fn stats_check_needs_both_fields() {
    let good = b"{\"faucet_address\":\"u1\",\"current_balance\":1.5}";
    assert!(judge_stats_body(true, good));
    assert!(!judge_stats_body(false, good));
    assert!(!judge_stats_body(true, b"{\"faucet_address\":\"u1\"}"));
    assert!(!judge_stats_body(true, b"{\"current_balance\":0.0}"));
    assert!(!judge_stats_body(true, b"{}"));
}

#[test]
fn address_check_needs_the_address_field() {
    assert!(judge_address_body(true, b"{\"address\":\"u1abc\"}"));
    assert!(!judge_address_body(true, b"{\"other\":1}"));
    assert!(!judge_address_body(false, b"{\"address\":\"u1abc\"}"));
}

#[test]
fn reachability_checks_follow_transport_status() {
    assert!(judge_core_reachability(true));
    assert!(!judge_core_reachability(false));
    assert!(judge_funding_health(true));
    assert!(!judge_funding_health(false));
}

#[test]
fn low_balance_skips_the_funding_scenario_as_passed() {
    let st = step5_start();
    let (st, action) = step5_next(st, &Step5Event::SyncFinished);
    assert!(matches!(action, Step5Action::QueryBalance));
    // 0.5 ZEC in zatoshis: below the 1.0 ZEC threshold
    let (st, action) = step5_next(st, &Step5Event::BalanceKnown(Some(50_000_000)));
    assert!(matches!(st, Step5State::Done(true)));
    assert!(matches!(action, Step5Action::Finish(true)));
    // the machine is finished: nothing can make it issue a request now
    let (_, action) = step5_next(st, &Step5Event::FixtureLoaded(FixtureStatus::Address(
        "uregtest1xyz".to_string(),
    )));
    assert!(matches!(action, Step5Action::Finish(true)));
}

#[test]
fn funded_balance_with_a_fixture_issues_exactly_one_request() {
    let st = step5_start();
    let (st, _) = step5_next(st, &Step5Event::SyncFinished);
    // 5.0 ZEC in zatoshis: above the threshold
    let (st, action) = step5_next(st, &Step5Event::BalanceKnown(Some(500_000_000)));
    assert!(matches!(action, Step5Action::LoadFixture));
    let (st, action) = step5_next(
        st,
        &Step5Event::FixtureLoaded(FixtureStatus::Address("uregtest1abc".to_string())),
    );
    match &action {
        Step5Action::SendRequest(addr) => assert_eq!(addr, "uregtest1abc"),
        _ => panic!("expected a funding request"),
    }
    // a non-empty txid passes the step
    let ev = send_completed_event(true, b"{\"txid\":\"deadbeef\"}");
    let (st2, action) = step5_next(st, &ev);
    assert!(matches!(st2, Step5State::Done(true)));
    assert!(matches!(action, Step5Action::Finish(true)));
    // an empty txid fails it
    let ev = send_completed_event(true, b"{\"txid\":\"\"}");
    let (st3, action) = step5_next(st, &ev);
    assert!(matches!(st3, Step5State::Done(false)));
    assert!(matches!(action, Step5Action::Finish(false)));
    // a missing txid fails it too
    let ev = send_completed_event(true, b"{\"status\":\"ok\"}");
    let (_, action) = step5_next(st, &ev);
    assert!(matches!(action, Step5Action::Finish(false)));
}

#[test]
fn missing_fixture_skips_as_passed_and_invalid_fixture_fails() {
    let st = step5_start();
    let (st, _) = step5_next(st, &Step5Event::SyncFinished);
    let (st, _) = step5_next(st, &Step5Event::BalanceKnown(Some(500_000_000)));
    let (done, action) = step5_next(st, &Step5Event::FixtureLoaded(FixtureStatus::Missing));
    assert!(matches!(done, Step5State::Done(true)));
    assert!(matches!(action, Step5Action::Finish(true)));
    let (done, action) = step5_next(st, &Step5Event::FixtureLoaded(FixtureStatus::Invalid));
    assert!(matches!(done, Step5State::Done(false)));
    assert!(matches!(action, Step5Action::Finish(false)));
}

#[test]
fn unreadable_balance_proceeds_to_the_fixture() {
    let st = step5_start();
    let (st, _) = step5_next(st, &Step5Event::SyncFinished);
    let (_, action) = step5_next(st, &Step5Event::BalanceKnown(None));
    assert!(matches!(action, Step5Action::LoadFixture));
}

#[test]
fn send_responses_are_judged_on_status_and_txid() {
    assert!(judge_send_response(true, &Some("abc".to_string())));
    assert!(!judge_send_response(true, &Some("".to_string())));
    assert!(!judge_send_response(true, &None));
    assert!(!judge_send_response(false, &Some("abc".to_string())));
}

#[test]
fn tally_counts_every_check_once() {
    let (passed, failed) = tally(&vec![true, false, true, true, false]);
    assert_eq!(passed, 3);
    assert_eq!(failed, 2);
    assert!(suite_verdict(failed));
    let (passed, failed) = tally(&vec![true; 5]);
    assert_eq!(passed, 5);
    assert_eq!(failed, 0);
    assert!(!suite_verdict(failed));
    let (passed, failed) = tally(&vec![]);
    assert_eq!(passed, 0);
    assert_eq!(failed, 0);
}
