//! The agent's run configuration.

use vstd::prelude::*;
use crate::agent::frpc::FrpcConfig;

verus! {

/// How an agent runs: its database and cache, the server secret, the two
/// listen addresses, and the tunnel when one is configured.
#[derive(Debug, Clone)]
pub struct AgentConfig {
    pub database_url: String,
    pub redis_url: String,
    pub server_secret: String,
    pub chat_listen: String,
    pub admin_listen: String,
    /// The tunnel (absent: the tunnel commands are unavailable).
    pub frpc: Option<FrpcConfig>,
    /// The directory frpc's configuration is written to (and frpc runs in).
    pub config_dir: String,
}

} // verus!
