//! Ships structured log records to an HTTP log-ingestion endpoint in batches.
//!
//! Records are queued as they arrive, drained into batches when a size or age
//! threshold is met (or when a flush is forced), and delivered with bounded
//! retries and batch splitting. This crate holds the rules; the caller owns
//! the thread, the channel, the timer and the HTTP client.
pub mod attempts;
pub mod clock;
pub mod config;
pub mod delivery;
pub mod flushing;
pub mod json;
pub mod layer;
pub mod new_relic_ingestor;
pub mod newrelic_ingestor;
pub mod payload;
pub mod queue;
pub mod record;
pub mod visitor;
pub mod worker;
