use vstd::prelude::*;
use crate::error::ZecDevError;
use crate::jsonio::{json_str_field, json_u64_field, str_field_of, u64_field_of};

verus! {

/// The four readiness-probe protocols, selected per target service.
pub enum ProbeKind {
    JsonRpc,
    HttpHealth,
    HttpJsonField,
    TcpConnect,
}

/// The result of one non-retrying readiness check.  `detail` carries the
/// reason for non-readiness and is never used for control flow.
pub struct ProbeOutcome {
    pub ready: bool,
    pub detail: String,
}

pub open spec fn opt_str_view(o: &Option<String>) -> Option<Seq<char>> {
    match o {
        Some(s) => Some(s@),
        None => None,
    }
}

/// A health endpoint is ready when the transport reported success and the
/// body's `status` field, where one was found, is not the literal
/// `"unhealthy"`.  An absent or non-string field counts as healthy.
pub open spec fn health_ready(status_success: bool, status_field: Option<Seq<char>>) -> bool {
    status_success && !(status_field matches Some(s) && s == "unhealthy"@)
}

/// `json_rpc` probe: ready exactly when the RPC transport call succeeded with
/// an HTTP success status.  The payload shape is not validated here.
pub fn classify_json_rpc(status_success: bool) -> (r: bool)
    ensures
        r == status_success,
{
    status_success
}

/// `http_json_field` probe: a success status alone indicates liveness,
/// independent of body content.
pub fn classify_http_json_field(status_success: bool) -> (r: bool)
    ensures
        r == status_success,
{
    status_success
}

/// `tcp_connect` probe: ready exactly when the connection attempt succeeded.
pub fn classify_tcp_connect(connected: bool) -> (r: bool)
    ensures
        r == connected,
{
    connected
}

/// `http_health` probe, judged from the already-extracted `status` field.
pub fn classify_http_health(status_success: bool, status_field: &Option<String>) -> (r: bool)
    ensures
        r == health_ready(status_success, opt_str_view(status_field)),
{
    if !status_success {
        return false;
    }
    match status_field {
        Some(s) => !crate::strutil::str_eq(s.as_str(), "unhealthy"),
        None => true,
    }
}

/// `http_health` probe, judged from the raw response body.
pub fn probe_http_health(status_success: bool, body: &[u8]) -> (r: bool)
    ensures
        r == health_ready(status_success, str_field_of(body@, "status"@)),
{
    let status_field = json_str_field(body, "status");
    classify_http_health(status_success, &status_field)
}

/// The chain height carried by a `getblockcount` response: its `result`
/// field, which must be an unsigned integer.
pub fn block_count_from_body(body: &[u8]) -> (r: Result<u64, ZecDevError>)
    ensures
        match r {
            Ok(h) => u64_field_of(body@, "result"@) == Some(h),
            Err(e) => u64_field_of(body@, "result"@) is None && e is HealthCheck,
        },
{
    match json_u64_field(body, "result") {
        Some(h) => Ok(h),
        None => Err(
            ZecDevError::HealthCheck(String::from_str("Invalid block count response")),
        ),
    }
}

/// Whether a wallet-sync transcript reports a sync error anywhere.
pub fn sync_output_ok(transcript: &str) -> (r: bool)
    ensures
        r == !crate::strutil::spec_contains(transcript@, "Sync error"@),
{
    !crate::strutil::str_contains(transcript, "Sync error")
}

} // verus!
