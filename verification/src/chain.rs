//! The vocabulary shared between a chain handler and the orchestrator that
//! owns it: the non-blocking poll outcome, the signals the orchestrator sends
//! down, and the events a handler bubbles up.

use vstd::prelude::*;

use crate::backfill::BackfillAction;

verus! {

/// Outcome of one non-blocking poll: either a result, or `Pending`, meaning
/// no progress is possible until one of the underlying sources makes some.
#[derive(Debug, PartialEq, Eq)]
pub enum PollOutcome<T> {
    /// A result was produced.
    Ready(T),
    /// No result can be produced right now.
    Pending,
}

/// A signal sent by the owning orchestrator into the chain handler.
#[derive(Debug, Clone, Copy, PartialEq, Eq, Structural)]
pub enum FromOrchestrator {
    /// Backfill sync has started.
    BackfillSyncStarted,
    /// Backfill sync has finished.
    BackfillSyncFinished,
}

/// A terminal, bubble-worthy event produced by a chain handler and routed to
/// the owning orchestrator.
#[derive(Debug, PartialEq, Eq)]
pub enum HandlerEvent<T> {
    /// Backfill sync must take over; all queued live-sync downloads are stale.
    BackfillAction(BackfillAction),
    /// An event to bubble up unchanged.
    Event(T),
    /// The handler is dead or unrecoverable; no further input may reach it.
    FatalError,
}

} // verus!
