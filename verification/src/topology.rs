use vstd::prelude::*;
use crate::probe::ProbeKind;
use crate::strutil::str_eq;

verus! {

/// The indexing-backend variant a deployment runs, if any.
#[derive(Debug, PartialEq, Eq, Structural, Clone, Copy)]
pub enum Backend {
    Lwd,
    Zaino,
    NoBackend,
}

/// Maps the command-line backend word to a variant; every other word is
/// rejected so the caller can report a configuration error.
pub fn parse_backend(word: &str) -> (r: Option<Backend>)
    ensures
        word@ == "lwd"@ ==> r == Some(Backend::Lwd),
        word@ == "zaino"@ ==> r == Some(Backend::Zaino),
        word@ == "none"@ ==> r == Some(Backend::NoBackend),
        word@ != "lwd"@ && word@ != "zaino"@ && word@ != "none"@ ==> r is None,
{
    proof {
        reveal_strlit("lwd");
        reveal_strlit("zaino");
        reveal_strlit("none");
        assert("lwd"@.len() == 3);
        assert("zaino"@.len() == 5);
        assert("lwd"@ != "zaino"@);
        assert("lwd"@ != "none"@);
        assert("zaino"@ != "none"@);
    }
    if str_eq(word, "lwd") {
        Some(Backend::Lwd)
    } else if str_eq(word, "zaino") {
        Some(Backend::Zaino)
    } else if str_eq(word, "none") {
        Some(Backend::NoBackend)
    } else {
        None
    }
}

/// One externally probed service of the deployment topology.
pub struct ServiceEndpoint {
    pub name: String,
    pub kind: ProbeKind,
    pub address: String,
}

/// The wallet-facing URI of the selected backend.  With no backend selected
/// the default indexer address is kept as a fallback.
pub fn backend_wallet_uri(backend: Backend) -> (r: String)
    ensures
        backend is Zaino ==> r@ == "http://zaino:9067"@,
        !(backend is Zaino) ==> r@ == "http://lightwalletd:9067"@,
{
    match backend {
        Backend::Zaino => String::from_str("http://zaino:9067"),
        _ => String::from_str("http://lightwalletd:9067"),
    }
}

/// The extra settle delay after the first successful TCP connect, in
/// milliseconds.  The backend indexer accepts connections before it is
/// functionally initialized, so transport-level readiness alone is not
/// believed for it.
pub fn settle_after_connect_ms(backend: Backend) -> (r: u64)
    ensures
        backend is NoBackend ==> r == 0,
        !(backend is NoBackend) ==> r == 10_000,
{
    match backend {
        Backend::NoBackend => 0,
        _ => 10_000,
    }
}

/// The probed endpoints of a deployment, in bring-up order: the chain node,
/// the funding service, and the selected indexing backend when there is one.
pub fn topology(backend: Backend) -> (eps: Vec<ServiceEndpoint>)
    ensures
        eps@.len() == if backend is NoBackend { 2int } else { 3int },
        eps@[0].name@ == "zebra"@ && eps@[0].kind is JsonRpc && eps@[0].address@
            == "http://127.0.0.1:8232"@,
        eps@[1].name@ == "faucet"@ && eps@[1].kind is HttpHealth && eps@[1].address@
            == "http://127.0.0.1:8080/health"@,
        backend is Lwd ==> eps@[2].name@ == "lightwalletd"@,
        backend is Zaino ==> eps@[2].name@ == "zaino"@,
        !(backend is NoBackend) ==> eps@[2].kind is TcpConnect && eps@[2].address@
            == "127.0.0.1:9067"@,
{
    let mut eps: Vec<ServiceEndpoint> = Vec::new();
    eps.push(ServiceEndpoint {
        name: String::from_str("zebra"),
        kind: ProbeKind::JsonRpc,
        address: String::from_str("http://127.0.0.1:8232"),
    });
    eps.push(ServiceEndpoint {
        name: String::from_str("faucet"),
        kind: ProbeKind::HttpHealth,
        address: String::from_str("http://127.0.0.1:8080/health"),
    });
    match backend {
        Backend::Lwd => {
            eps.push(ServiceEndpoint {
                name: String::from_str("lightwalletd"),
                kind: ProbeKind::TcpConnect,
                address: String::from_str("127.0.0.1:9067"),
            });
        },
        Backend::Zaino => {
            eps.push(ServiceEndpoint {
                name: String::from_str("zaino"),
                kind: ProbeKind::TcpConnect,
                address: String::from_str("127.0.0.1:9067"),
            });
        },
        Backend::NoBackend => {},
    }
    eps
}

} // verus!
