//! Logical models, model-to-provider mappings and routing strategies.

use vstd::prelude::*;

verus! {

/// A logical model (basic/standard/expert) aggregating several provider instances.
#[derive(Debug, Clone)]
pub struct LogicalModel {
    pub id: String,
    pub logical_name: String,
    pub description: Option<String>,
    /// Credits per 1000 input tokens.
    pub input_rate_per_1k: i64,
    /// Credits per 1000 output tokens.
    pub output_rate_per_1k: i64,
    pub status: String,
    pub created_at: i64,
    pub updated_at: i64,
}

/// How the candidates of one level are tried.
#[derive(Debug, Clone, Copy, PartialEq, Eq, Structural)]
pub enum RoutingStrategy {
    /// Try in ascending level order.
    Sequential,
    /// Weighted random choice.
    Random,
}

impl Default for RoutingStrategy {
    fn default() -> (r: Self)
        ensures
            r == RoutingStrategy::Sequential,
    {
        RoutingStrategy::Sequential
    }
}

/// Logical model <-> provider mapping, with level / weight / strategy.
#[derive(Debug, Clone)]
pub struct ModelProvider {
    pub id: String,
    pub logical_model_id: String,
    pub provider_id: String,
    /// Real upstream model name.
    pub upstream_model: String,
    /// Provider tier (1/2/3).
    pub level: i32,
    pub weight: i32,
    pub strategy: RoutingStrategy,
    pub enabled: bool,
    pub created_at: i64,
}

} // verus!
