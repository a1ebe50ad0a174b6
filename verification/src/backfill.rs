//! Backfill-sync vocabulary: the action an orchestrator takes when the engine
//! decides that live sync must give way to backfill sync.

use vstd::prelude::*;

use crate::primitives::B256;

verus! {

/// A request to start backfill sync toward a target block.
#[derive(Debug, Clone, Copy, PartialEq, Eq, Structural)]
pub enum BackfillAction {
    /// Backfill toward the block with this hash.
    Start(B256),
}

} // verus!
