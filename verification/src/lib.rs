//! A telemetry export client core: batches of spans are encoded, compressed
//! and handed to an ingest endpoint, with retry, backoff and payload
//! splitting decided by verified state machines.

pub mod attribute;
pub mod blocking;
pub mod client;
pub mod delivery;
pub mod endpoint;
pub mod metric;
pub mod queue;
pub mod response;
pub mod span;
pub mod time;
pub mod wire;

pub use client::{Client, ClientBuilder, Sendable};
pub use span::{Span, SpanBatch};
pub use time::Duration;
