use engine_mux::backfill::BackfillAction;
use engine_mux::chain::{FromOrchestrator, HandlerEvent, PollOutcome};
use engine_mux::download::{DownloadAction, DownloadOutcome, DownloadRequest};
use engine_mux::engine::{EngineHandler, FromEngine, RequestHandlerEvent};
use engine_mux::primitives::{BeaconConsensusEngineEvent, BeaconEngineMessage, SealedBlockWithSenders, B256};
use engine_mux::scripted::{QueuedRequests, RecordingDownloader, ScriptedHandler};

type Req = BeaconEngineMessage;
type Ev = BeaconConsensusEngineEvent;
type Script = Vec<PollOutcome<RequestHandlerEvent<Ev>>>;

fn mux(
    script: Script,
    requests: Vec<Req>,
    downloader: RecordingDownloader,
) -> EngineHandler<ScriptedHandler<Req, Ev>, QueuedRequests<Req>, RecordingDownloader> {
    EngineHandler::new(ScriptedHandler::new(script), downloader, QueuedRequests::new(requests))
}

fn expect_block_set(action: &DownloadAction, hash: B256) {
    match action {
        DownloadAction::Download(DownloadRequest::BlockSet(s)) => {
            assert_eq!(s.len(), 1);
            assert!(s.contains(&hash));
        }
        other => panic!("expected a block-set download start, got {:?}", other),
    }
}

#[test]
fn scenario_download_needed_starts_download() {
    let h1 = B256::from_low(1);
    let script: Script = vec![PollOutcome::Ready(RequestHandlerEvent::Download(
        DownloadRequest::single_block(h1),
    ))];
    let mut m = mux(script, vec![], RecordingDownloader::new());
    assert_eq!(m.poll(), PollOutcome::Pending);
    let actions = m.downloader().actions_taken();
    assert_eq!(actions.len(), 1);
    expect_block_set(&actions[0], h1);
    assert!(m.handler().received().is_empty());
}

#[test]
fn scenario_downloaded_blocks_reach_the_handler() {
    let h1 = B256::from_low(1);
    let b1 = SealedBlockWithSenders { hash: h1, number: 7 };
    let script: Script = vec![PollOutcome::Ready(RequestHandlerEvent::Download(
        DownloadRequest::single_block(h1),
    ))];
    let mut downloader = RecordingDownloader::new();
    downloader.push_outcome(DownloadOutcome::Blocks(vec![b1]));
    let mut m = mux(script, vec![], downloader);
    assert_eq!(m.poll(), PollOutcome::Pending);
    // the batch was delivered into the handler, which was then re-polled
    // (and reported `Pending`) before the multiplexer returned
    assert_eq!(m.handler().received(), &vec![FromEngine::DownloadedBlocks(vec![b1])]);
    let actions = m.downloader().actions_taken();
    assert_eq!(actions.len(), 1);
    expect_block_set(&actions[0], h1);
}

#[test]
fn scenario_clear_precedes_backfill() {
    let target = B256::from_low(4);
    let script: Script = vec![PollOutcome::Ready(RequestHandlerEvent::HandlerEvent(
        HandlerEvent::BackfillAction(BackfillAction::Start(target)),
    ))];
    let mut m = mux(script, vec![], RecordingDownloader::new());
    let res = m.poll();
    assert_eq!(res, PollOutcome::Ready(HandlerEvent::BackfillAction(BackfillAction::Start(target))));
    // the downloader was told to abandon live-sync work, and nothing else
    assert_eq!(m.downloader().actions_taken(), &vec![DownloadAction::Clear]);
}

#[test]
fn handler_event_bubbles_up_after_download_start() {
    let h1 = B256::from_low(1);
    let ev = BeaconConsensusEngineEvent { code: 21 };
    let script: Script = vec![
        PollOutcome::Ready(RequestHandlerEvent::Download(DownloadRequest::single_block(h1))),
        PollOutcome::Ready(RequestHandlerEvent::HandlerEvent(HandlerEvent::Event(ev))),
    ];
    let mut m = mux(script, vec![], RecordingDownloader::new());
    assert_eq!(m.poll(), PollOutcome::Ready(HandlerEvent::Event(ev)));
    let actions = m.downloader().actions_taken();
    assert_eq!(actions.len(), 1);
    expect_block_set(&actions[0], h1);
}

#[test]
fn ready_result_preempts_request_intake() {
    let ev = BeaconConsensusEngineEvent { code: 2 };
    let script: Script = vec![PollOutcome::Ready(RequestHandlerEvent::HandlerEvent(
        HandlerEvent::Event(ev),
    ))];
    let requests = vec![BeaconEngineMessage::NewPayload(B256::from_low(8))];
    let mut m = mux(script, requests, RecordingDownloader::new());
    assert_eq!(m.poll(), PollOutcome::Ready(HandlerEvent::Event(ev)));
    // the handler was not drained to `Pending`, so no request was accepted
    assert!(m.handler().received().is_empty());
    assert_eq!(m.incoming().remaining(), 1);
}

#[test]
fn pending_handler_accepts_queued_requests_in_order() {
    let r1 = BeaconEngineMessage::NewPayload(B256::from_low(1));
    let r2 = BeaconEngineMessage::ForkchoiceUpdated(B256::from_low(2));
    let r3 = BeaconEngineMessage::NewPayload(B256::from_low(3));
    let mut m = mux(vec![], vec![r1, r2, r3], RecordingDownloader::new());
    assert_eq!(m.poll(), PollOutcome::Pending);
    assert_eq!(
        m.handler().received(),
        &vec![
            FromEngine::Request(r1),
            FromEngine::Request(r2),
            FromEngine::Request(r3),
        ],
    );
    assert_eq!(m.incoming().remaining(), 0);
}

#[test]
fn orchestrator_signal_is_forwarded() {
    let mut m = mux(vec![], vec![], RecordingDownloader::new());
    m.on_event(FromOrchestrator::BackfillSyncStarted);
    assert_eq!(
        m.handler().received(),
        &vec![FromEngine::Event(FromOrchestrator::BackfillSyncStarted)],
    );
}

#[test]
fn fatal_error_is_terminal() {
    let script: Script = vec![PollOutcome::Ready(RequestHandlerEvent::HandlerEvent(
        HandlerEvent::FatalError,
    ))];
    let requests = vec![BeaconEngineMessage::NewPayload(B256::from_low(1))];
    let mut m = mux(script, requests, RecordingDownloader::new());
    assert_eq!(m.poll(), PollOutcome::Ready(HandlerEvent::FatalError));
    // subsequent polls keep reporting the fatal error and deliver nothing
    assert_eq!(m.poll(), PollOutcome::Ready(HandlerEvent::FatalError));
    assert!(m.handler().received().is_empty());
    assert_eq!(m.incoming().remaining(), 1);
    // signals are not forwarded into a dead handler either
    m.on_event(FromOrchestrator::BackfillSyncFinished);
    assert!(m.handler().received().is_empty());
}
