use zeckit::{
    backend_wallet_uri, check_transparent_address, check_unified_address,
    fixture_address_from_body, fixture_json, fixture_json_checked, plan_send, resolve_transparent,
    resolve_unified, transparent_from_body, unified_from_body, Backend, Balance, Settings,
    ZecDevError,
};

const T_ADDR: &str = "tmWuSB2316aX28SGM9hYVUS4NTiVP8eWDBW";
const U_ADDR: &str = "uregtest1zkuzfv5m3yhv2j4fmvq5rjurkxenxyq8r7h4daun2zkznrjaa8ra8asgdm8wwgwjvlwwrxx7347r8w0ee6dqyw4rufw4wg9djwcr6frzkezmdw6dud3wsm99eany5r8wgsctlxquu009nzd6hsme2tcsk0v3sgjvxa70er7h27z5epr67p5q767s2z5gt88paru56mxpm6pwz0zu2p8zlj5r48ks4t84v9x9926sxycvkh5xuhcfcdbacgx9rrvqwsfpcmxjqrukhmhk3";

#[test]
fn default_settings_point_at_the_local_stack() {
    let s = Settings::new();
    assert_eq!(s.zebra_rpc_url, "http://127.0.0.1:8232");
    assert_eq!(s.faucet_api_url, "http://127.0.0.1:8080");
    assert_eq!(s.backend_url, "http://127.0.0.1:9067");
}

#[test]
fn backend_uri_depends_on_the_variant() {
    assert_eq!(backend_wallet_uri(Backend::Lwd), "http://lightwalletd:9067");
    assert_eq!(backend_wallet_uri(Backend::Zaino), "http://zaino:9067");
    assert_eq!(backend_wallet_uri(Backend::NoBackend), "http://lightwalletd:9067");
}

#[test]
fn transparent_addresses_pass_the_sanity_filter() {
    assert!(check_transparent_address(T_ADDR));
    assert!(!check_transparent_address("tmShort"));
    assert!(!check_transparent_address(U_ADDR));
    assert!(check_unified_address(U_ADDR));
    assert!(!check_unified_address(T_ADDR));
}

#[test]
fn resolution_fails_explicitly_when_the_field_is_absent() {
    match resolve_transparent(&None) {
        Err(ZecDevError::Wallet(d)) => assert_eq!(d, "No transparent address found"),
        _ => panic!("an absent field must be an explicit wallet error"),
    }
    match resolve_unified(&None) {
        Err(ZecDevError::Wallet(d)) => assert_eq!(d, "No unified address found"),
        _ => panic!("an absent field must be an explicit wallet error"),
    }
    assert_eq!(resolve_transparent(&Some(T_ADDR.to_string())).unwrap(), T_ADDR);
    assert!(matches!(
        resolve_transparent(&Some("bogus".to_string())),
        Err(ZecDevError::HealthCheck(_))
    ));
}

#[test]
fn addresses_are_read_from_the_listing_body() {
    let body = format!(
        "{{\"transparent_address\":\"{}\",\"unified_address\":\"{}\"}}",
        T_ADDR, U_ADDR
    );
    assert_eq!(transparent_from_body(body.as_bytes()).unwrap(), T_ADDR);
    assert_eq!(unified_from_body(body.as_bytes()).unwrap(), U_ADDR);
    assert!(transparent_from_body(b"{}").is_err());
    assert!(unified_from_body(b"not json").is_err());
}

#[test]
fn fixture_text_round_trips_through_json() {
    let fixture = fixture_json(U_ADDR);
    assert_eq!(fixture_address_from_body(fixture.as_bytes()).as_deref(), Some(U_ADDR));
    assert!(fixture.starts_with("{\n  \"faucet_address\": \"uregtest"));
    assert!(fixture.contains("\"type\": \"unified\""));
    assert!(fixture.contains("\"orchard\""));
}

#[test]
fn fixture_rendering_refuses_addresses_that_need_escaping() {
    assert!(fixture_json_checked("ur\"egtest").is_none());
    assert!(fixture_json_checked("a\\b").is_none());
    assert!(fixture_json_checked("a\tb").is_none());
    assert!(fixture_json_checked("a\nb").is_none());
    assert!(fixture_json_checked("a\u{1f}b").is_none());
    assert!(fixture_json_checked(U_ADDR).is_some());
}

#[test]
fn fixture_reader_reports_a_missing_field() {
    assert!(fixture_address_from_body(b"{\"other\": 1}").is_none());
    assert!(fixture_address_from_body(b"garbage").is_none());
}

#[test]
fn balances_sum_across_pools() {
    let b = Balance { transparent: 100, sapling: 200, orchard: 325_000_000 };
    assert_eq!(b.total_zatoshis(), 325_000_300);
}

#[test]
fn missing_pool_reports_count_as_zero() {
    let b = Balance::from_confirmed(Some(7), None, Some(9));
    assert_eq!(b.transparent, 7);
    assert_eq!(b.sapling, 0);
    assert_eq!(b.orchard, 9);
    assert_eq!(b.total_zatoshis(), 16);
}

#[test]
fn sends_are_refused_without_orchard_cover() {
    match plan_send(50_000_000, 100_000_000, None) {
        Err(ZecDevError::InsufficientBalance(_)) => {}
        _ => panic!("an uncovered amount must be an insufficient-balance error"),
    }
}

#[test]
fn long_memos_are_refused_and_short_ones_padded() {
    let long = vec![b'x'; 513];
    match plan_send(500_000_000, 100_000_000, Some(long)) {
        Err(ZecDevError::Wallet(d)) => assert_eq!(d, "Memo too long (max 512 bytes)"),
        _ => panic!("an oversized memo must be refused"),
    }
    let plan = plan_send(500_000_000, 100_000_000, Some(b"thanks".to_vec())).unwrap();
    assert_eq!(plan.amount_zatoshis, 100_000_000);
    let memo = plan.memo.unwrap();
    assert_eq!(memo.len(), 512);
    assert_eq!(&memo[..6], b"thanks");
    assert!(memo[6..].iter().all(|&b| b == 0));
}

#[test]
fn a_plan_without_a_memo_keeps_none() {
    let plan = plan_send(200_000_000, 100_000_000, None).unwrap();
    assert!(plan.memo.is_none());
    assert_eq!(plan.amount_zatoshis, 100_000_000);
}
