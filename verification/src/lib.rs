//! Request-orchestration core of a chain execution engine.
//!
//! The crate multiplexes three independent sources of work — progress reported
//! by an execution backend, requests arriving from the consensus layer, and
//! outcomes of in-flight block downloads — into one deterministic,
//! non-blocking control loop ([`engine::EngineHandler`]), while enforcing the
//! priority and backpressure rules stated in the contracts: the handler is
//! drained before new work is accepted, every backfill request is preceded by
//! a `Clear` command to the downloader, and a fatal error is terminal.

pub mod backfill;
pub mod chain;
pub mod channel;
pub mod download;
pub mod engine;
pub mod primitives;
pub mod scripted;
