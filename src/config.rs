//! The agent's configuration and its defaults.

use vstd::prelude::*;

verus! {

/// Settings of the generative-model endpoint.
#[derive(Clone, Debug)]
pub struct OpenAiConfig {
    pub api_key: String,
    pub model: String,
    pub base_url: Option<String>,
}

/// The agent's configuration.
#[derive(Clone, Debug)]
pub struct AppConfig {
    pub linera_rpc_endpoint: String,
    pub rpc_endpoint: Option<String>,
    pub graphql_endpoint: String,
    pub indexer_endpoint: String,
    pub wallet_path: String,
    pub storage_path: String,
    pub application_id: String,
    pub operation_chain_id: String,
    pub poll_interval_secs: u64,
    pub rules_path: String,
    pub openai: Option<OpenAiConfig>,
    /// Further chains on which owners' activity is looked up.
    pub cross_chain_ids: Vec<String>,
}

/// Seconds between two passes.
pub fn default_poll_interval() -> (r: u64)
    ensures
        r == 30,
{
    30
}

/// Where the rule document is read from.
pub fn default_rules_path() -> (r: String)
    ensures
        r@ == "config/achievements.json"@,
{
    "config/achievements.json".to_string()
}

/// Where the agent keeps its files.
pub fn default_storage_path() -> (r: String)
    ensures
        r@ == "storage/passport-agent"@,
{
    "storage/passport-agent".to_string()
}

/// The generative model used when none is configured.
pub fn default_openai_model() -> (r: String)
    ensures
        r@ == "gpt-4.1-mini"@,
{
    "gpt-4.1-mini".to_string()
}

/// The indexer's operations endpoint.
pub fn default_indexer_endpoint() -> (r: String)
    ensures
        r@ == "http://127.0.0.1:8000/operations"@,
{
    "http://127.0.0.1:8000/operations".to_string()
}

} // verus!
