use vstd::prelude::*;

verus! {

/// The string held by the top-level field `key` when `body` is a JSON object
/// carrying a string there, and nothing otherwise.  A JSON document and a key
/// determine this value alone, so it has a name rather than a definition.
pub uninterp spec fn str_field_of(body: Seq<u8>, key: Seq<char>) -> Option<Seq<char>>;

/// The unsigned integer held by the top-level field `key` when `body` is a
/// JSON object carrying one there, and nothing otherwise.
pub uninterp spec fn u64_field_of(body: Seq<u8>, key: Seq<char>) -> Option<u64>;

/// Whether `body` is a JSON object with a top-level field `key`, of whatever
/// type.
pub uninterp spec fn field_present_in(body: Seq<u8>, key: Seq<char>) -> bool;

/// Relies on serde_json::from_slice followed by serde_json::Value::get and
/// Value::as_str: the string under the given top-level key.  The result is a
/// function of the body bytes and the key alone.
#[verifier::external_body]
pub(crate) fn json_str_field(body: &[u8], key: &str) -> (r: Option<String>)
    ensures
        match r {
            Some(s) => str_field_of(body@, key@) == Some(s@),
            None => str_field_of(body@, key@) is None,
        },
{
    match serde_json::from_slice::<serde_json::Value>(body) {
        Ok(v) => match v.get(key) {
            Some(f) => f.as_str().map(|s| s.to_string()),
            None => None,
        },
        Err(_) => None,
    }
}

/// Relies on serde_json::from_slice followed by serde_json::Value::get and
/// Value::as_u64: the unsigned integer under the given top-level key.  The
/// result is a function of the body bytes and the key alone.
#[verifier::external_body]
pub(crate) fn json_u64_field(body: &[u8], key: &str) -> (r: Option<u64>)
    ensures
        r == u64_field_of(body@, key@),
{
    match serde_json::from_slice::<serde_json::Value>(body) {
        Ok(v) => match v.get(key) {
            Some(f) => f.as_u64(),
            None => None,
        },
        Err(_) => None,
    }
}

/// Relies on serde_json::from_slice followed by serde_json::Value::get:
/// whether the body parses as JSON holding the given top-level key.  The
/// result is a function of the body bytes and the key alone.
#[verifier::external_body]
pub(crate) fn json_has_field(body: &[u8], key: &str) -> (r: bool)
    ensures
        r == field_present_in(body@, key@),
{
    match serde_json::from_slice::<serde_json::Value>(body) {
        Ok(v) => v.get(key).is_some(),
        Err(_) => false,
    }
}

} // verus!
