use vstd::prelude::*;

verus! {

/// Connection endpoints for the three services of a running devnet.
pub struct Settings {
    pub zebra_rpc_url: String,
    pub faucet_api_url: String,
    pub backend_url: String,
}

impl Default for Settings {
    fn default() -> (s: Settings)
        ensures
            s.zebra_rpc_url@ == "http://127.0.0.1:8232"@,
            s.faucet_api_url@ == "http://127.0.0.1:8080"@,
            s.backend_url@ == "http://127.0.0.1:9067"@,
    {
        Settings {
            zebra_rpc_url: String::from_str("http://127.0.0.1:8232"),
            faucet_api_url: String::from_str("http://127.0.0.1:8080"),
            backend_url: String::from_str("http://127.0.0.1:9067"),
        }
    }
}

impl Settings {
    pub fn new() -> (s: Settings)
        ensures
            s.zebra_rpc_url@ == "http://127.0.0.1:8232"@,
            s.faucet_api_url@ == "http://127.0.0.1:8080"@,
            s.backend_url@ == "http://127.0.0.1:9067"@,
    {
        Settings::default()
    }
}

} // verus!
