//! Download vocabulary: the requests a handler may emit, the commands the
//! orchestrator issues to a block downloader, the outcomes a downloader
//! reports, and the downloader interface itself.

use vstd::prelude::*;

use crate::chain::PollOutcome;
use crate::primitives::{SealedBlockWithSenders, B256};

verus! {

/// A set of block hashes, kept as a duplicate-free vector. Its mathematical
/// view is the [`Set`] of the hashes it holds.
#[derive(Debug, PartialEq, Eq)]
pub struct BlockHashSet {
    hashes: Vec<B256>,
}

impl View for BlockHashSet {
    type V = Set<B256>;

    closed spec fn view(&self) -> Set<B256> {
        self.hashes@.to_set()
    }
}

impl BlockHashSet {
    /// The stored vector holds each hash at most once.
    pub closed spec fn wf(&self) -> bool {
        self.hashes@.no_duplicates()
    }

    /// The empty set.
    pub fn new() -> (r: Self)
        ensures
            r.wf(),
            r@ == Set::<B256>::empty(),
    {
        let r = BlockHashSet { hashes: Vec::new() };
        proof {
            assert(r.hashes@.to_set() =~= Set::<B256>::empty());
        }
        r
    }

    /// Whether `h` is in the set.
    pub fn contains(&self, h: &B256) -> (r: bool)
        ensures
            r == self@.contains(*h),
    {
        let mut i: usize = 0;
        while i < self.hashes.len()
            invariant
                i <= self.hashes.len(),
                forall|j: int| 0 <= j < i ==> self.hashes@[j] != *h,
            decreases self.hashes.len() - i,
        {
            if self.hashes[i] == *h {
                assert(self.hashes@.contains(*h));
                return true;
            }
            i = i + 1;
        }
        assert(!self.hashes@.contains(*h));
        false
    }

    /// Inserts `h`; a hash already present is not stored twice.
    pub fn insert(&mut self, h: B256)
        requires
            old(self).wf(),
        ensures
            final(self).wf(),
            final(self)@ == old(self)@.insert(h),
    {
        if !self.contains(&h) {
            self.hashes.push(h);
            proof {
                old(self).hashes@.lemma_push_to_set_commute(h);
                assert(self@ =~= old(self)@.insert(h));
            }
        } else {
            proof {
                assert(self@ =~= old(self)@.insert(h));
            }
        }
    }

    /// Builds the set of the given hashes; duplicates collapse.
    pub fn from_hashes(hashes: Vec<B256>) -> (r: Self)
        ensures
            r.wf(),
            r@ == hashes@.to_set(),
    {
        let mut r = BlockHashSet::new();
        let mut i: usize = 0;
        proof {
            assert(hashes@.subrange(0, 0) =~= Seq::<B256>::empty());
            assert(r@ =~= hashes@.subrange(0, 0).to_set());
        }
        while i < hashes.len()
            invariant
                i <= hashes.len(),
                r.wf(),
                r@ == hashes@.subrange(0, i as int).to_set(),
            decreases hashes.len() - i,
        {
            let ghost pre = hashes@.subrange(0, i as int);
            r.insert(hashes[i]);
            proof {
                pre.lemma_push_to_set_commute(hashes@[i as int]);
                assert(hashes@.subrange(0, i as int + 1) =~= pre.push(hashes@[i as int]));
            }
            i = i + 1;
        }
        proof {
            assert(hashes@.subrange(0, hashes@.len() as int) =~= hashes@);
        }
        r
    }

    /// How many hashes the set holds.
    pub fn len(&self) -> (r: usize)
        requires
            self.wf(),
        ensures
            r == self@.len(),
    {
        proof {
            self.hashes@.unique_seq_to_set();
        }
        self.hashes.len()
    }

    /// The stored hashes, duplicate-free, for a consumer that walks them.
    pub fn as_slice(&self) -> (r: &Vec<B256>)
        requires
            self.wf(),
        ensures
            r@.no_duplicates(),
            r@.to_set() == self@,
    {
        &self.hashes
    }
}

/// A request to download blocks from the network.
#[derive(Debug, PartialEq, Eq)]
pub enum DownloadRequest {
    /// Download the given set of blocks.
    BlockSet(BlockHashSet),
    /// Download `count` blocks, walking parent hashes back from the block
    /// with the given hash.
    BlockRange(B256, u64),
}

impl DownloadRequest {
    /// A request for a single block: a one-element hash set holding exactly
    /// `hash`.
    pub fn single_block(hash: B256) -> (r: Self)
        ensures
            (r matches DownloadRequest::BlockSet(s) && s.wf() && s@ == set![hash]),
    {
        let mut s = BlockHashSet::new();
        s.insert(hash);
        proof {
            assert(s@ =~= set![hash]);
        }
        DownloadRequest::BlockSet(s)
    }
}

/// A command the orchestrator issues to the block downloader.
#[derive(Debug, PartialEq, Eq)]
pub enum DownloadAction {
    /// Abandon all queued and in-flight download work.
    Clear,
    /// Start fetching the requested blocks.
    Download(DownloadRequest),
}

/// An outcome the block downloader reports.
#[derive(Debug, PartialEq, Eq)]
pub enum DownloadOutcome {
    /// A completed batch of blocks, in order.
    Blocks(Vec<SealedBlockWithSenders>),
}

/// A block downloader, as the orchestrator consumes it. Its internal policy
/// (peers, retries, backpressure) is its own; what the orchestrator relies on
/// is the record of the interactions: `actions` is the sequence of commands
/// the downloader has received, `polled` the sequence of poll outcomes it has
/// reported.
pub trait BlockDownloader: Sized {
    /// The commands received so far, oldest first.
    spec fn actions(&self) -> Seq<DownloadAction>;

    /// The poll outcomes reported so far, oldest first.
    spec fn polled(&self) -> Seq<PollOutcome<DownloadOutcome>>;

    /// Accepts one command, without blocking.
    fn on_action(&mut self, action: DownloadAction)
        ensures
            final(self).actions() == old(self).actions().push(action),
            final(self).polled() == old(self).polled(),
    ;

    /// Advances the download work, without blocking.
    fn poll(&mut self) -> (r: PollOutcome<DownloadOutcome>)
        ensures
            final(self).polled() == old(self).polled().push(r),
            final(self).actions() == old(self).actions(),
    ;
}

} // verus!
