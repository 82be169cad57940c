use vstd::prelude::*;
use crate::error::ZecDevError;
use crate::jsonio::{json_str_field, str_field_of};
use crate::strutil::{spec_starts_with, str_starts_with};

verus! {

/// A transparent regtest address as the reconciler's sanity filter accepts
/// it: the network prefix and a minimum length.
pub open spec fn is_transparent_address(s: Seq<char>) -> bool {
    spec_starts_with(s, "tm"@) && s.len() > 30
}

/// A unified regtest address: it carries the unified-address prefix.
pub open spec fn is_unified_address(s: Seq<char>) -> bool {
    spec_starts_with(s, "uregtest"@)
}

pub fn check_transparent_address(s: &str) -> (r: bool)
    ensures
        r == is_transparent_address(s@),
{
    str_starts_with(s, "tm") && s.unicode_len() > 30
}

pub fn check_unified_address(s: &str) -> (r: bool)
    ensures
        r == is_unified_address(s@),
{
    str_starts_with(s, "uregtest")
}

/// Accepts the `transparent_address` field of the funding service's
/// address listing, or says exactly why it cannot be used: an absent field
/// is reported as a wallet error, a value that fails the sanity filter as a
/// health-check error.  Callers treat both as recoverable.
pub fn resolve_transparent(field: &Option<String>) -> (r: Result<String, ZecDevError>)
    ensures
        match r {
            Ok(a) => field matches Some(s) && a@ == s@ && is_transparent_address(a@),
            Err(e) => match field {
                Some(s) => !is_transparent_address(s@) && e is HealthCheck,
                None => e is Wallet,
            },
        },
{
    match field {
        Some(s) => {
            if check_transparent_address(s.as_str()) {
                Ok(s.clone())
            } else {
                Err(
                    ZecDevError::HealthCheck(
                        String::from_str("transparent address failed the sanity filter"),
                    ),
                )
            }
        },
        None => Err(ZecDevError::Wallet(String::from_str("No transparent address found"))),
    }
}

/// Accepts the `unified_address` field of the address listing, under the
/// same explicit-failure contract as the transparent one.
pub fn resolve_unified(field: &Option<String>) -> (r: Result<String, ZecDevError>)
    ensures
        match r {
            Ok(a) => field matches Some(s) && a@ == s@ && is_unified_address(a@),
            Err(e) => match field {
                Some(s) => !is_unified_address(s@) && e is HealthCheck,
                None => e is Wallet,
            },
        },
{
    match field {
        Some(s) => {
            if check_unified_address(s.as_str()) {
                Ok(s.clone())
            } else {
                Err(
                    ZecDevError::HealthCheck(
                        String::from_str("unified address failed the sanity filter"),
                    ),
                )
            }
        },
        None => Err(ZecDevError::Wallet(String::from_str("No unified address found"))),
    }
}

/// The transparent address carried by an `/address` response body.
pub fn transparent_from_body(body: &[u8]) -> (r: Result<String, ZecDevError>)
    ensures
        match r {
            Ok(a) => str_field_of(body@, "transparent_address"@) == Some(a@)
                && is_transparent_address(a@),
            Err(e) => match str_field_of(body@, "transparent_address"@) {
                Some(s) => !is_transparent_address(s) && e is HealthCheck,
                None => e is Wallet,
            },
        },
{
    let field = json_str_field(body, "transparent_address");
    resolve_transparent(&field)
}

/// The unified address carried by an `/address` response body.
pub fn unified_from_body(body: &[u8]) -> (r: Result<String, ZecDevError>)
    ensures
        match r {
            Ok(a) => str_field_of(body@, "unified_address"@) == Some(a@) && is_unified_address(
                a@,
            ),
            Err(e) => match str_field_of(body@, "unified_address"@) {
                Some(s) => !is_unified_address(s) && e is HealthCheck,
                None => e is Wallet,
            },
        },
{
    let field = json_str_field(body, "unified_address");
    resolve_unified(&field)
}

// ---------------------------------------------------------------------------
// The address fixture
// ---------------------------------------------------------------------------

/// A string that can stand inside a JSON string literal unescaped: no
/// quote, no backslash, and no control character, all of which JSON
/// requires to be escaped.
pub open spec fn json_safe(s: Seq<char>) -> bool {
    forall|i: int|
        0 <= i < s.len() ==> #[trigger] s[i] != '"' && s[i] != '\\' && (s[i] as u32) >= 0x20
}

pub fn check_json_safe(s: &str) -> (r: bool)
    ensures
        r == json_safe(s@),
{
    let n: usize = s.unicode_len();
    let mut i: usize = 0;
    while i < n
        invariant
            i <= n,
            n == s@.len(),
            forall|j: int|
                0 <= j < i ==> #[trigger] s@[j] != '"' && s@[j] != '\\' && (s@[j] as u32)
                    >= 0x20,
        decreases n - i,
    {
        let c = s.get_char(i);
        if c == '"' || c == '\\' || (c as u32) < 0x20 {
            return false;
        }
        i = i + 1;
    }
    true
}

/// The fixture text persisted for later test runs, exactly as written.
pub open spec fn spec_fixture_json(addr: Seq<char>) -> Seq<char> {
    "{\n  \"faucet_address\": \""@ + addr
        + "\",\n  \"type\": \"unified\",\n  \"receivers\": [\n    \"orchard\"\n  ]\n}"@
}

/// Renders the fixture for a resolved faucet address.
pub fn fixture_json(addr: &str) -> (out: String)
    requires
        json_safe(addr@),
    ensures
        out@ == spec_fixture_json(addr@),
{
    let mut out = String::from_str("{\n  \"faucet_address\": \"");
    out.append(addr);
    out.append("\",\n  \"type\": \"unified\",\n  \"receivers\": [\n    \"orchard\"\n  ]\n}");
    out
}

/// Renders the fixture when the address can stand in JSON unescaped, and
/// refuses it otherwise rather than write a file that would not parse.
pub fn fixture_json_checked(addr: &str) -> (out: Option<String>)
    ensures
        match out {
            Some(s) => json_safe(addr@) && s@ == spec_fixture_json(addr@),
            None => !json_safe(addr@),
        },
{
    if check_json_safe(addr) {
        Some(fixture_json(addr))
    } else {
        None
    }
}

/// The fixture address carried by a persisted fixture body.
pub fn fixture_address_from_body(body: &[u8]) -> (r: Option<String>)
    ensures
        match r {
            Some(s) => str_field_of(body@, "faucet_address"@) == Some(s@),
            None => str_field_of(body@, "faucet_address"@) is None,
        },
{
    json_str_field(body, "faucet_address")
}

/// Law: a fixture built for a unified address embeds that address, with the
/// unified-address prefix, right after the `faucet_address` key.
pub proof fn lemma_fixture_address_prefix(addr: Seq<char>)
    requires
        is_unified_address(addr),
    ensures
        spec_fixture_json(addr).subrange(23, 23 + addr.len() as int) == addr,
        spec_fixture_json(addr).subrange(23, 31) == "uregtest"@,
{
    reveal_strlit("{\n  \"faucet_address\": \"");
    reveal_strlit("uregtest");
    assert("{\n  \"faucet_address\": \""@.len() == 23);
    assert("uregtest"@.len() == 8);
    let f = spec_fixture_json(addr);
    assert(f.subrange(23, 23 + addr.len() as int) =~= addr);
    assert(addr.len() >= 8);
    assert(f.subrange(23, 31) =~= addr.subrange(0, 8));
    assert(addr.subrange(0, 8) == "uregtest"@);
}

} // verus!
