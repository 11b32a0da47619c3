//! Domain model: the core entities and value objects of the gateway.

pub mod account;
pub mod credit;
pub mod model;
pub mod policy;
pub mod principal;
pub mod provider;
pub mod token;
pub mod usage;

pub use account::{Account, AccountStatus};
pub use credit::{CreditHold, CreditTransaction, Credits, HoldStatus};
pub use model::{LogicalModel, ModelProvider, RoutingStrategy};
pub use policy::Policy;
pub use principal::{Principal, PrincipalKind, Scope};
pub use provider::{ProviderCredential, ProviderCredentialView, ProviderStatus};
pub use token::{ApiToken, TokenStatus};
pub use usage::{UsageLog, UsageSource};
