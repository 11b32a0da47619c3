//! TokenHub core: the verified logic of an LLM gateway — identities and
//! scopes, credentials, credit billing, usage accounting, caching, the
//! remote-access tunnel and the decisions of the HTTP handlers.

pub mod agent;
pub mod api;
pub mod audit;
pub mod auth;
pub mod billing;
pub mod cache;
pub mod cli;
pub mod clock;
pub mod domain;
pub mod encoding;
pub mod text;

use vstd::prelude::*;

verus! {

} // verus!
