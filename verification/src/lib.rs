//! Adapters between the OpenTelemetry collector services and application code.
//!
//! A collector exposes one `export` call per signal: logs, metrics and traces.
//! This crate answers such a call in one of two ways. A callback adapter hands
//! the request to a function that the application supplied and returns what
//! that function returns. A forwarder puts the request on an asynchronous
//! queue and acknowledges it as soon as the queue has taken it; the `all`
//! module tags the requests of the three signals so that they can share one
//! queue.
//!
//! The crate decides; it never waits. A forwarder says what has to be put on
//! the queue and, once the caller has awaited the queue, what has to be
//! answered. The transport that receives the calls and the runtime that awaits
//! the queue belong to the caller.

pub mod all;
pub mod forward;
pub mod logs;
pub mod metrics;
pub mod queue;
pub mod signal;
pub mod trace;
pub mod transport;
