//! The channel-backed request handler: bridges the orchestrator to an
//! execution backend that runs on its own task and communicates over two
//! one-directional channels — a command-out channel of [`FromEngine`]
//! messages and an event-in channel of [`EngineApiEvent`] messages.
//!
//! This component holds no other state; it is a pure forwarding layer whose
//! one responsibility is preserving message identity and surfacing closure of
//! the event-in channel as the fatal-error condition. The translation of each
//! received event is the verified [`channel_event_result`]; only the two
//! channel operations themselves are trusted.

use vstd::prelude::*;

use crate::chain::{HandlerEvent, PollOutcome};
use crate::engine::{EngineApiEvent, EngineRequestHandler, FromEngine, HandlerCall, RequestHandlerEvent, RequestStream};
use crate::primitives::BeaconConsensusEngineEvent;

verus! {

#[verifier::external_type_specification]
#[verifier::external_body]
#[verifier::reject_recursive_types(T)]
/// The sending half of std's mpsc channel, as an opaque type.
pub struct ExSender<T>(std::sync::mpsc::Sender<T>);

#[verifier::external_type_specification]
#[verifier::external_body]
#[verifier::reject_recursive_types(T)]
/// The receiving half of tokio's unbounded mpsc channel, as an opaque type.
pub struct ExUnboundedReceiver<T>(tokio::sync::mpsc::UnboundedReceiver<T>);

/// Outcome of one non-blocking receive on the event-in channel.
#[derive(Debug, PartialEq, Eq)]
pub enum ChannelRecv {
    /// The next event the backend sent.
    Event(EngineApiEvent),
    /// No event is queued right now, but the backend may still send more.
    Empty,
    /// The backend hung up: the channel is closed and drained, and no event
    /// will ever arrive again.
    Closed,
}

/// Relies on tokio's `UnboundedReceiver::try_recv`: it returns the next
/// queued message, `Empty` when none is queued while a sender is still alive,
/// and `Disconnected` when the channel is closed and drained. What arrives
/// depends on the backend task, so nothing is promised of the outcome.
#[verifier::external_body]
fn try_recv_event(rx: &mut tokio::sync::mpsc::UnboundedReceiver<EngineApiEvent>) -> (r: ChannelRecv) {
    match rx.try_recv() {
        Ok(event) => ChannelRecv::Event(event),
        Err(tokio::sync::mpsc::error::TryRecvError::Empty) => ChannelRecv::Empty,
        Err(tokio::sync::mpsc::error::TryRecvError::Disconnected) => ChannelRecv::Closed,
    }
}

/// Relies on std's `mpsc::Sender::send`: it never blocks and fails only when
/// the receiver is gone. The failure is deliberately swallowed here: a dead
/// backend surfaces symmetrically as the event-in channel closing, which the
/// next poll reports as the fatal error.
#[verifier::external_body]
fn send_to_tree<Req>(tx: &std::sync::mpsc::Sender<FromEngine<Req>>, event: FromEngine<Req>) {
    let _ = tx.send(event);
}

/// What one received channel event means to the orchestrator: closure is the
/// fatal error, a consensus event and a backfill request bubble up, a
/// download request goes to the downloader, and an empty channel is
/// `Pending`.
pub open spec fn translated_event(recv: ChannelRecv) -> PollOutcome<
    RequestHandlerEvent<BeaconConsensusEngineEvent>,
> {
    match recv {
        ChannelRecv::Event(EngineApiEvent::BeaconConsensus(ev)) => PollOutcome::Ready(
            RequestHandlerEvent::HandlerEvent(HandlerEvent::Event(ev)),
        ),
        ChannelRecv::Event(EngineApiEvent::BackfillAction(action)) => PollOutcome::Ready(
            RequestHandlerEvent::HandlerEvent(HandlerEvent::BackfillAction(action)),
        ),
        ChannelRecv::Event(EngineApiEvent::Download(req)) => PollOutcome::Ready(
            RequestHandlerEvent::Download(req),
        ),
        ChannelRecv::Empty => PollOutcome::Pending,
        ChannelRecv::Closed => PollOutcome::Ready(
            RequestHandlerEvent::HandlerEvent(HandlerEvent::FatalError),
        ),
    }
}

/// Turns one receive outcome into the handler's poll result, exactly as
/// [`translated_event`] states.
pub fn channel_event_result(recv: ChannelRecv) -> (r: PollOutcome<
    RequestHandlerEvent<BeaconConsensusEngineEvent>,
>)
    ensures
        r == translated_event(recv),
{
    match recv {
        ChannelRecv::Event(event) => match event {
            EngineApiEvent::BeaconConsensus(ev) => PollOutcome::Ready(
                RequestHandlerEvent::HandlerEvent(HandlerEvent::Event(ev)),
            ),
            EngineApiEvent::BackfillAction(action) => PollOutcome::Ready(
                RequestHandlerEvent::HandlerEvent(HandlerEvent::BackfillAction(action)),
            ),
            EngineApiEvent::Download(req) => PollOutcome::Ready(RequestHandlerEvent::Download(req)),
        },
        ChannelRecv::Empty => PollOutcome::Pending,
        ChannelRecv::Closed => PollOutcome::Ready(
            RequestHandlerEvent::HandlerEvent(HandlerEvent::FatalError),
        ),
    }
}

/// An [`EngineRequestHandler`] that processes engine API requests by
/// delegating them to an execution task over the command-out channel and
/// translating what comes back on the event-in channel.
///
/// Closure of the event-in channel is reported as
/// [`HandlerEvent::FatalError`]; a failed send on the command-out channel is
/// swallowed, because the matching fatal condition surfaces through the
/// event-in channel.
#[verifier::reject_recursive_types(Req)]
pub struct EngineApiRequestHandler<Req> {
    /// Channel to send messages to the execution task.
    to_tree: std::sync::mpsc::Sender<FromEngine<Req>>,
    /// Channel to receive messages from the execution task.
    from_tree: tokio::sync::mpsc::UnboundedReceiver<EngineApiEvent>,
    /// The interactions this handler has seen.
    calls: Ghost<Seq<HandlerCall<Req, BeaconConsensusEngineEvent>>>,
}

impl<Req> EngineApiRequestHandler<Req> {
    /// Creates a new `EngineApiRequestHandler` over the two channels.
    pub fn new(
        to_tree: std::sync::mpsc::Sender<FromEngine<Req>>,
        from_tree: tokio::sync::mpsc::UnboundedReceiver<EngineApiEvent>,
    ) -> (r: Self)
        ensures
            r.trace() == Seq::<HandlerCall<Req, BeaconConsensusEngineEvent>>::empty(),
    {
        EngineApiRequestHandler { to_tree, from_tree, calls: Ghost(Seq::empty()) }
    }
}

impl<Req> EngineRequestHandler for EngineApiRequestHandler<Req> {
    type Request = Req;

    type Event = BeaconConsensusEngineEvent;

    closed spec fn trace(&self) -> Seq<HandlerCall<Req, BeaconConsensusEngineEvent>> {
        self.calls@
    }

    fn on_event(&mut self, event: FromEngine<Req>) {
        let ghost recorded = self.calls@.push(HandlerCall::Delivered(event));
        self.calls = Ghost(recorded);
        send_to_tree(&self.to_tree, event);
    }

    fn poll(&mut self) -> (r: PollOutcome<RequestHandlerEvent<BeaconConsensusEngineEvent>>) {
        let recv = try_recv_event(&mut self.from_tree);
        let r = channel_event_result(recv);
        let ghost recorded = self.calls@.push(HandlerCall::Polled(r));
        self.calls = Ghost(recorded);
        r
    }
}

#[verifier::external_type_specification]
#[verifier::external_body]
#[verifier::reject_recursive_types(T)]
/// The receiving half of std's mpsc channel, as an opaque type.
pub struct ExReceiver<T>(std::sync::mpsc::Receiver<T>);

/// Outcome of one non-blocking receive on a request channel.
#[derive(Debug, PartialEq, Eq)]
pub enum RequestRecv<Req> {
    /// The next queued request.
    Item(Req),
    /// Nothing is queued right now, but a sender is still alive.
    Empty,
    /// The channel is closed and drained: no request will ever arrive again.
    Closed,
}

/// Relies on std's `mpsc::Receiver::try_recv`: it returns the next queued
/// message, `Empty` when none is queued while a sender is still alive, and
/// `Disconnected` when the channel is closed and drained. What arrives
/// depends on the sending side, so nothing is promised of the outcome.
#[verifier::external_body]
fn try_recv_request<Req>(rx: &std::sync::mpsc::Receiver<Req>) -> (r: RequestRecv<Req>) {
    match rx.try_recv() {
        Ok(req) => RequestRecv::Item(req),
        Err(std::sync::mpsc::TryRecvError::Empty) => RequestRecv::Empty,
        Err(std::sync::mpsc::TryRecvError::Disconnected) => RequestRecv::Closed,
    }
}

/// A [`RequestStream`] fed from the receiving half of a std mpsc channel:
/// each queued message is one request, and a closed, drained channel ends the
/// stream.
#[verifier::reject_recursive_types(Req)]
pub struct ReceiverRequests<Req> {
    /// The channel the requests arrive on.
    rx: std::sync::mpsc::Receiver<Req>,
    /// Every poll outcome reported, oldest first.
    polled_log: Ghost<Seq<PollOutcome<Option<Req>>>>,
}

impl<Req> ReceiverRequests<Req> {
    /// Wraps a receiver.
    pub fn new(rx: std::sync::mpsc::Receiver<Req>) -> (r: Self)
        ensures
            r.polled() == Seq::<PollOutcome<Option<Req>>>::empty(),
    {
        ReceiverRequests { rx, polled_log: Ghost(Seq::empty()) }
    }
}

impl<Req> RequestStream<Req> for ReceiverRequests<Req> {
    closed spec fn polled(&self) -> Seq<PollOutcome<Option<Req>>> {
        self.polled_log@
    }

    fn poll_next(&mut self) -> (r: PollOutcome<Option<Req>>) {
        let r = match try_recv_request(&self.rx) {
            RequestRecv::Item(req) => PollOutcome::Ready(Some(req)),
            RequestRecv::Empty => PollOutcome::Pending,
            RequestRecv::Closed => PollOutcome::Ready(None),
        };
        let ghost recorded = self.polled_log@.push(r);
        self.polled_log = Ghost(recorded);
        r
    }
}

} // verus!
