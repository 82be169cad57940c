use vstd::prelude::*;

verus! {

/// Failure taxonomy of the orchestrator.
///
/// `ServiceNotReady` marks an exhausted retry or poll budget and is always
/// fatal.  `HealthCheck` marks a failed content check of a single probe or
/// verification step.  `Config` marks a configuration-file problem and is
/// always advisory.  `ContainerRuntime` marks a failed external process
/// invocation.  The three wallet variants are opaque pass-throughs from the
/// funding service and are surfaced verbatim.
#[derive(Debug, Clone)]
pub enum ZecDevError {
    ServiceNotReady(String),
    HealthCheck(String),
    Config(String),
    ContainerRuntime(String),
    InsufficientBalance(String),
    TransactionFailed(String),
    Wallet(String),
}

impl ZecDevError {
    /// The detail text carried by the error, whichever variant it is.
    pub fn detail(&self) -> (d: &String)
        ensures
            d@ == self.detail_view(),
    {
        match self {
            ZecDevError::ServiceNotReady(s) => s,
            ZecDevError::HealthCheck(s) => s,
            ZecDevError::Config(s) => s,
            ZecDevError::ContainerRuntime(s) => s,
            ZecDevError::InsufficientBalance(s) => s,
            ZecDevError::TransactionFailed(s) => s,
            ZecDevError::Wallet(s) => s,
        }
    }

    pub open spec fn detail_view(&self) -> Seq<char> {
        match self {
            ZecDevError::ServiceNotReady(s) => s@,
            ZecDevError::HealthCheck(s) => s@,
            ZecDevError::Config(s) => s@,
            ZecDevError::ContainerRuntime(s) => s@,
            ZecDevError::InsufficientBalance(s) => s@,
            ZecDevError::TransactionFailed(s) => s@,
            ZecDevError::Wallet(s) => s@,
        }
    }
}

} // verus!
