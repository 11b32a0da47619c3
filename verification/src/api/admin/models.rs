//! Logical models and their rates.

use vstd::prelude::*;
use crate::api::admin::{prefixed_id, uuid_shaped};

verus! {

/// Body of a model creation.
#[derive(Debug, Clone)]
pub struct CreateModelReq {
    pub logical_name: String,
    pub description: Option<String>,
    pub input_rate_per_1k: i64,
    pub output_rate_per_1k: i64,
}

/// Body of a model update.
#[derive(Debug, Clone)]
pub struct UpdateModelReq {
    pub logical_name: String,
    pub description: Option<String>,
    pub input_rate_per_1k: i64,
    pub output_rate_per_1k: i64,
    pub status: String,
}

/// Body of a rate change.
#[derive(Debug, Clone)]
pub struct SetRatesReq {
    pub input_rate_per_1k: i64,
    pub output_rate_per_1k: i64,
}

/// A new model id: `mdl_` and a random UUID.
pub fn new_model_id() -> (r: String)
    ensures
        exists|u: Seq<char>| uuid_shaped(u) && r@ == "mdl_"@ + u,
{
    prefixed_id("mdl_")
}

} // verus!
