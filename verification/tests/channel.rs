use engine_mux::backfill::BackfillAction;
use engine_mux::chain::{FromOrchestrator, HandlerEvent, PollOutcome};
use engine_mux::channel::EngineApiRequestHandler;
use engine_mux::download::{DownloadAction, DownloadRequest};
use engine_mux::engine::{EngineApiEvent, EngineHandler, FromEngine};
use engine_mux::primitives::{BeaconConsensusEngineEvent, BeaconEngineMessage, B256};
use engine_mux::scripted::{QueuedRequests, RecordingDownloader};

type Req = BeaconEngineMessage;
type ToTree = std::sync::mpsc::Receiver<FromEngine<Req>>;
type FromTree = tokio::sync::mpsc::UnboundedSender<EngineApiEvent>;

fn channel_mux(
    requests: Vec<Req>,
) -> (
    EngineHandler<EngineApiRequestHandler<Req>, QueuedRequests<Req>, RecordingDownloader>,
    ToTree,
    FromTree,
) {
    let (to_tree, tree_rx) = std::sync::mpsc::channel();
    let (tree_tx, from_tree) = tokio::sync::mpsc::unbounded_channel();
    let handler = EngineApiRequestHandler::new(to_tree, from_tree);
    let m = EngineHandler::new(handler, RecordingDownloader::new(), QueuedRequests::new(requests));
    (m, tree_rx, tree_tx)
}

#[test]
fn scenario_closed_channel_is_fatal_and_terminal() {
    let (mut m, tree_rx, tree_tx) = channel_mux(vec![]);
    drop(tree_tx);
    assert_eq!(m.poll(), PollOutcome::Ready(HandlerEvent::FatalError));
    assert_eq!(m.poll(), PollOutcome::Ready(HandlerEvent::FatalError));
    // nothing further reaches the backend, not even orchestrator signals
    m.on_event(FromOrchestrator::BackfillSyncStarted);
    assert!(tree_rx.try_recv().is_err());
}

#[test]
fn consensus_event_bubbles_up() {
    let (mut m, _tree_rx, tree_tx) = channel_mux(vec![]);
    let ev = BeaconConsensusEngineEvent { code: 17 };
    tree_tx.send(EngineApiEvent::BeaconConsensus(ev)).unwrap();
    assert_eq!(m.poll(), PollOutcome::Ready(HandlerEvent::Event(ev)));
    // the channel is empty but open: no progress, no result
    assert_eq!(m.poll(), PollOutcome::Pending);
}

#[test]
fn backfill_event_clears_downloads_then_bubbles_up() {
    let (mut m, _tree_rx, tree_tx) = channel_mux(vec![]);
    let target = B256::from_low(3);
    tree_tx.send(EngineApiEvent::BackfillAction(BackfillAction::Start(target))).unwrap();
    assert_eq!(
        m.poll(),
        PollOutcome::Ready(HandlerEvent::BackfillAction(BackfillAction::Start(target))),
    );
    assert_eq!(m.downloader().actions_taken(), &vec![DownloadAction::Clear]);
}

#[test]
fn download_event_starts_a_download() {
    let (mut m, _tree_rx, tree_tx) = channel_mux(vec![]);
    let h = B256::from_low(6);
    tree_tx.send(EngineApiEvent::Download(DownloadRequest::single_block(h))).unwrap();
    assert_eq!(m.poll(), PollOutcome::Pending);
    let actions = m.downloader().actions_taken();
    assert_eq!(actions.len(), 1);
    match &actions[0] {
        DownloadAction::Download(DownloadRequest::BlockSet(s)) => {
            assert_eq!(s.len(), 1);
            assert!(s.contains(&h));
        }
        other => panic!("expected a block-set download start, got {:?}", other),
    }
}

#[test]
fn inputs_are_forwarded_to_the_backend() {
    let request = BeaconEngineMessage::NewPayload(B256::from_low(9));
    let (mut m, tree_rx, _tree_tx) = channel_mux(vec![request]);
    m.on_event(FromOrchestrator::BackfillSyncFinished);
    assert_eq!(m.poll(), PollOutcome::Pending);
    assert_eq!(
        tree_rx.try_recv().unwrap(),
        FromEngine::Event(FromOrchestrator::BackfillSyncFinished),
    );
    assert_eq!(tree_rx.try_recv().unwrap(), FromEngine::Request(request));
    assert!(tree_rx.try_recv().is_err());
}

#[test]
fn lost_sends_still_end_in_exactly_one_fatal_error() {
    let (mut m, tree_rx, tree_tx) = channel_mux(vec![BeaconEngineMessage::NewPayload(
        B256::from_low(2),
    )]);
    // the backend's receiving end is gone: sends fail silently
    drop(tree_rx);
    m.on_event(FromOrchestrator::BackfillSyncStarted);
    assert_eq!(m.poll(), PollOutcome::Pending);
    // the matching fatal condition then surfaces via the event-in channel
    drop(tree_tx);
    assert_eq!(m.poll(), PollOutcome::Ready(HandlerEvent::FatalError));
    assert_eq!(m.poll(), PollOutcome::Ready(HandlerEvent::FatalError));
}

#[test]
fn receiver_backed_request_stream_feeds_the_handler() {
    let (req_tx, req_rx) = std::sync::mpsc::channel::<BeaconEngineMessage>();
    let (to_tree, tree_rx) = std::sync::mpsc::channel();
    let (_tree_tx, from_tree) = tokio::sync::mpsc::unbounded_channel();
    let handler = EngineApiRequestHandler::new(to_tree, from_tree);
    let mut m = EngineHandler::new(
        handler,
        RecordingDownloader::new(),
        engine_mux::channel::ReceiverRequests::new(req_rx),
    );
    let request = BeaconEngineMessage::ForkchoiceUpdated(B256::from_low(12));
    req_tx.send(request).unwrap();
    assert_eq!(m.poll(), PollOutcome::Pending);
    assert_eq!(tree_rx.try_recv().unwrap(), FromEngine::Request(request));
    // a closed request channel ends the stream but is not an error
    drop(req_tx);
    assert_eq!(m.poll(), PollOutcome::Pending);
    assert!(tree_rx.try_recv().is_err());
}
