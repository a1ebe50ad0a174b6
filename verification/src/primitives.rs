//! Plain value types that stand for the opaque payloads carried through the
//! orchestrator: block hashes, downloaded blocks, and the messages exchanged
//! with the execution backend. The orchestrator never looks inside them; they
//! only need identity (equality) so that contracts can say that a value is
//! handed on unchanged.

use vstd::prelude::*;

verus! {

/// A 256-bit block hash, held as four 64-bit limbs.
#[derive(Debug, Clone, Copy, PartialEq, Eq, Hash, Structural)]
pub struct B256(pub u64, pub u64, pub u64, pub u64);

impl B256 {
    /// A hash whose low limb is `v` and whose other limbs are zero;
    /// convenient for naming distinct hashes.
    pub fn from_low(v: u64) -> (r: Self)
        ensures
            r == B256(v, 0u64, 0u64, 0u64),
    {
        B256(v, 0, 0, 0)
    }
}

/// A downloaded block together with its recovered sender addresses, reduced
/// to the identity the orchestrator needs: the block hash and its number.
#[derive(Debug, Clone, Copy, PartialEq, Eq, Structural)]
pub struct SealedBlockWithSenders {
    /// Hash of the sealed block.
    pub hash: B256,
    /// Height of the block.
    pub number: u64,
}

/// A progress event reported by the consensus engine backend. Its meaning
/// belongs to the backend; the orchestrator bubbles it up unchanged.
#[derive(Debug, Clone, Copy, PartialEq, Eq, Structural)]
pub struct BeaconConsensusEngineEvent {
    /// Backend-defined discriminant of the event.
    pub code: u64,
}

/// A consensus-layer request, as delivered by the engine API endpoint.
#[derive(Debug, Clone, Copy, PartialEq, Eq, Structural)]
pub enum BeaconEngineMessage {
    /// Execute and insert the block with this hash (`newPayload`).
    NewPayload(B256),
    /// Update the fork choice to the head with this hash (`forkchoiceUpdated`).
    ForkchoiceUpdated(B256),
}

} // verus!
