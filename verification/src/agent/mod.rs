//! Agent mode: the desktop node with a remote-access tunnel (frpc).

pub mod frpc;
pub mod runtime;
pub mod supervise;
pub mod tun;

pub use frpc::{generate_frpc_toml, generate_service_id, FrpcConfig, TunnelMode};
pub use runtime::AgentConfig;
pub use tun::{TunState, TunStatus};
