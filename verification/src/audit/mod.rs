//! Audit and usage logging: records are handed to a background worker that
//! writes them in batches (every `batch_size` records, on every tick, and
//! everything left when the channel closes). Billing itself never waits on
//! these writes.

pub mod sink;

pub use sink::{AuditCommand, AuditRecord, AuditWorker, WorkerAction, WorkerEvent};
