use vstd::prelude::*;

verus! {

/// The settings of the ledger's command-line configuration that a run uses.
#[derive(Debug)]
pub struct SolanaConfig {
    pub json_rpc_url: String,
    pub keypair_path: String,
    pub commitment: String,
}

pub open spec fn default_rpc_url() -> Seq<char> {
    "https://psytrbhymqlkfrhudd.dev.genesysgo.net:8899/"@
}

pub open spec fn default_commitment() -> Seq<char> {
    "confirmed"@
}

/// The endpoint and commitment level of a run: the endpoint given on the
/// command line with the `confirmed` level, else those of the configuration,
/// else a default devnet endpoint with the `confirmed` level.
pub fn select_endpoint(cli_rpc: Option<String>, config: Option<SolanaConfig>) -> (r: (
    String,
    String,
))
    ensures
        r.0@ == match cli_rpc {
            Some(u) => u@,
            None => match config {
                Some(c) => c.json_rpc_url@,
                None => default_rpc_url(),
            },
        },
        r.1@ == match cli_rpc {
            Some(_) => default_commitment(),
            None => match config {
                Some(c) => c.commitment@,
                None => default_commitment(),
            },
        },
{
    match cli_rpc {
        Some(u) => (u, "confirmed".to_owned()),
        None => match config {
            Some(c) => (c.json_rpc_url, c.commitment),
            None => (
                "https://psytrbhymqlkfrhudd.dev.genesysgo.net:8899/".to_owned(),
                "confirmed".to_owned(),
            ),
        },
    }
}

/// The endpoint of the heavy bulk queries: the one given, else the run's.
pub fn select_heavy_endpoint(heavy_rpc: Option<String>, rpc: &String) -> (r: String)
    ensures
        r@ == match heavy_rpc {
            Some(h) => h@,
            None => rpc@,
        },
{
    match heavy_rpc {
        Some(h) => h,
        None => rpc.clone(),
    }
}

} // verus!
