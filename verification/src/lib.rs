mod barrier;
mod error;
mod jsonio;
mod miner_config;
mod probe;
mod resolver;
mod retry;
mod sequencer;
mod settings;
mod strutil;
mod suite;
mod topology;
mod utils;
mod wallet;

pub use barrier::{
    barrier_progress_percent, barrier_step, maturity_barrier, run_barrier, BarrierDecision,
    BarrierRun, MiningBarrierConfig,
};
pub use error::ZecDevError;
pub use miner_config::{
    check_miner_line, join_lines, reconcile_lines, reconcile_miner_address, split_lines,
};
pub use probe::{
    block_count_from_body, classify_http_health, classify_http_json_field, classify_json_rpc,
    classify_tcp_connect, probe_http_health, sync_output_ok, ProbeKind, ProbeOutcome,
};
pub use resolver::{
    check_json_safe, check_transparent_address, check_unified_address, fixture_address_from_body,
    fixture_json, fixture_json_checked, resolve_transparent, resolve_unified,
    transparent_from_body, unified_from_body,
};
pub use retry::{
    backend_policy, core_policy, exhausted_error, funding_policy, retry_step, run_schedule,
    RetryDecision, RetryPolicy, RetryState, ScheduleReport,
};
pub use sequencer::{
    advance, initial_state, next_phase, phase_severity, run_bootstrap, sequencer_step, skipped,
    BootRun, BootState, Phase, PhaseOutcome, Severity, StepResult,
};
pub use settings::Settings;
pub use strutil::{str_contains, str_eq, str_starts_with};
pub use suite::{
    judge_address_body, judge_core_reachability, judge_funding_health, judge_send_response,
    judge_stats_body, send_completed_event, step5_next, step5_start, suite_verdict, tally,
    FixtureStatus, Step5Action, Step5Event, Step5State, FUNDING_THRESHOLD_ZATS,
};
pub use topology::{
    backend_wallet_uri, parse_backend, settle_after_connect_ms, topology, Backend, ServiceEndpoint,
};
pub use utils::{format_bytes, u64_to_dec_string};
pub use wallet::{plan_send, Balance, SendPlan, MEMO_SIZE};
