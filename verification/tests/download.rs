use engine_mux::backfill::BackfillAction;
use engine_mux::chain::FromOrchestrator;
use engine_mux::download::{BlockHashSet, DownloadRequest};
use engine_mux::engine::{EngineApiEvent, EngineApiKind, FromEngine};
use engine_mux::primitives::{BeaconConsensusEngineEvent, B256};

#[test]
fn single_block_is_one_element_set() {
    let h = B256::from_low(1);
    let r = DownloadRequest::single_block(h);
    match r {
        DownloadRequest::BlockSet(s) => {
            assert_eq!(s.len(), 1);
            assert!(s.contains(&h));
            assert!(!s.contains(&B256::from_low(2)));
        }
        DownloadRequest::BlockRange(_, _) => panic!("expected a block set"),
    }
}

#[test]
fn duplicate_hashes_collapse() {
    let h = B256::from_low(9);
    let s = BlockHashSet::from_hashes(vec![h, h]);
    assert_eq!(s.len(), 1);
    assert!(s.contains(&h));
}

#[test]
fn insert_keeps_hashes_unique() {
    let h1 = B256::from_low(1);
    let h2 = B256::from_low(2);
    let mut s = BlockHashSet::new();
    assert_eq!(s.len(), 0);
    s.insert(h1);
    s.insert(h2);
    s.insert(h1);
    assert_eq!(s.len(), 2);
    assert!(s.contains(&h1));
    assert!(s.contains(&h2));
    assert!(!s.contains(&B256::from_low(3)));
    let stored = s.as_slice();
    assert_eq!(stored.len(), 2);
}

#[test]
fn is_backfill_action_tells_variants_apart() {
    let backfill = EngineApiEvent::BackfillAction(BackfillAction::Start(B256::from_low(5)));
    assert!(backfill.is_backfill_action());
    let progress = EngineApiEvent::BeaconConsensus(BeaconConsensusEngineEvent { code: 3 });
    assert!(!progress.is_backfill_action());
    let download = EngineApiEvent::Download(DownloadRequest::single_block(B256::from_low(5)));
    assert!(!download.is_backfill_action());
}

#[test]
fn conversions_wrap_without_change() {
    let ev = BeaconConsensusEngineEvent { code: 11 };
    let api: EngineApiEvent = ev.into();
    assert_eq!(api, EngineApiEvent::BeaconConsensus(BeaconConsensusEngineEvent { code: 11 }));

    let input: FromEngine<u64> = FromOrchestrator::BackfillSyncFinished.into();
    assert_eq!(input, FromEngine::Event(FromOrchestrator::BackfillSyncFinished));
}

#[test]
fn engine_api_kind_is_plain_data() {
    let k = EngineApiKind::Ethereum;
    assert_eq!(k, EngineApiKind::Ethereum);
    assert_ne!(k, EngineApiKind::OpStack);
    let copied = k;
    assert_eq!(copied, k);
}
