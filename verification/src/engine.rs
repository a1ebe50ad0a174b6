//! The engine API orchestrator: the poll-driven multiplexer
//! ([`EngineHandler`]) that arbitrates between a request handler, a stream of
//! incoming consensus-layer requests, and a block downloader.
//!
//! Contracts in this module are stated over *interaction traces*: each
//! collaborator records, as ghost state, the ordered sequence of calls it has
//! seen ([`HandlerCall`] for the handler, the command and poll sequences for
//! the downloader and the request stream). The multiplexer's `poll` contract
//! then pins down the orchestration rules: the handler is drained to
//! `Pending` before any new input is delivered, every delivered input is
//! followed by a fresh handler poll, every download request is started, a
//! `Clear` precedes every bubbled backfill request, and a fatal error is
//! terminal.

use vstd::prelude::*;

use crate::backfill::BackfillAction;
use crate::chain::{FromOrchestrator, HandlerEvent, PollOutcome};
use crate::download::{BlockDownloader, DownloadAction, DownloadOutcome, DownloadRequest};
use crate::primitives::{BeaconConsensusEngineEvent, SealedBlockWithSenders};

verus! {

/// The kind of engine API a chain speaks.
#[derive(Debug, Clone, Copy, PartialEq, Eq, Structural)]
pub enum EngineApiKind {
    /// The chain carries an Ethereum configuration.
    Ethereum,
    /// The chain carries an OP Stack configuration.
    OpStack,
}

/// Everything that can be delivered into a request handler.
#[derive(Debug, PartialEq, Eq)]
pub enum FromEngine<Req> {
    /// A signal from the top-level orchestrator.
    Event(FromOrchestrator),
    /// A request from the consensus layer.
    Request(Req),
    /// Blocks downloaded from the network, in order.
    DownloadedBlocks(Vec<SealedBlockWithSenders>),
}

impl<Req> From<FromOrchestrator> for FromEngine<Req> {
    fn from(event: FromOrchestrator) -> (r: Self) {
        FromEngine::Event(event)
    }
}

impl<Req> vstd::std_specs::convert::FromSpecImpl<FromOrchestrator> for FromEngine<Req> {
    open spec fn obeys_from_spec() -> bool {
        true
    }

    open spec fn from_spec(event: FromOrchestrator) -> Self {
        FromEngine::Event(event)
    }
}

/// Everything a request handler may produce when polled.
#[derive(Debug, PartialEq, Eq)]
pub enum RequestHandlerEvent<T> {
    /// A terminal result to bubble up to the orchestrator.
    HandlerEvent(HandlerEvent<T>),
    /// A request to download blocks on the handler's behalf.
    Download(DownloadRequest),
}

/// An event produced by the execution backend behind the engine API request
/// handler.
#[derive(Debug, PartialEq, Eq)]
pub enum EngineApiEvent {
    /// A progress event from the consensus engine.
    BeaconConsensus(BeaconConsensusEngineEvent),
    /// Backfill sync is needed.
    BackfillAction(BackfillAction),
    /// A block download is needed.
    Download(DownloadRequest),
}

impl EngineApiEvent {
    /// Whether this event asks for backfill sync.
    pub fn is_backfill_action(&self) -> (r: bool)
        ensures
            r == (*self is BackfillAction),
    {
        matches!(self, EngineApiEvent::BackfillAction(_))
    }
}

impl From<BeaconConsensusEngineEvent> for EngineApiEvent {
    fn from(event: BeaconConsensusEngineEvent) -> (r: Self) {
        EngineApiEvent::BeaconConsensus(event)
    }
}

impl vstd::std_specs::convert::FromSpecImpl<BeaconConsensusEngineEvent> for EngineApiEvent {
    open spec fn obeys_from_spec() -> bool {
        true
    }

    open spec fn from_spec(event: BeaconConsensusEngineEvent) -> Self {
        EngineApiEvent::BeaconConsensus(event)
    }
}

/// One recorded interaction with a request handler: either an input delivered
/// to it, or the outcome of one poll of it.
#[derive(Debug)]
pub enum HandlerCall<Req, Ev> {
    /// `on_event` delivered this input.
    Delivered(FromEngine<Req>),
    /// `poll` returned this outcome.
    Polled(PollOutcome<RequestHandlerEvent<Ev>>),
}

/// A request handler: accepts engine inputs and is polled for progress. The
/// ghost `trace` records every interaction, oldest first, and is what the
/// orchestrator's contracts are stated over.
pub trait EngineRequestHandler: Sized {
    /// The request type this handler processes.
    type Request;

    /// The event type this handler emits.
    type Event;

    /// Every interaction this handler has seen, oldest first.
    spec fn trace(&self) -> Seq<HandlerCall<Self::Request, Self::Event>>;

    /// Delivers one input; must not block.
    fn on_event(&mut self, event: FromEngine<Self::Request>)
        ensures
            final(self).trace() == old(self).trace().push(HandlerCall::Delivered(event)),
    ;

    /// Advances the handler; must not block, and may be called any number of
    /// times, whether or not input arrived since the last poll.
    fn poll(&mut self) -> (r: PollOutcome<RequestHandlerEvent<Self::Event>>)
        ensures
            final(self).trace() == old(self).trace().push(HandlerCall::Polled(r)),
    ;
}

/// A non-blocking, possibly unbounded source of incoming requests, consumed
/// one item per poll. `Ready(None)` means the source has ended. The ghost
/// `polled` sequence records every poll outcome, oldest first.
pub trait RequestStream<Req>: Sized {
    /// Every poll outcome this source has reported, oldest first.
    spec fn polled(&self) -> Seq<PollOutcome<Option<Req>>>;

    /// Pops the next request if one is ready; must not block.
    fn poll_next(&mut self) -> (r: PollOutcome<Option<Req>>)
        ensures
            final(self).polled() == old(self).polled().push(r),
    ;
}

/// The consensus-layer requests delivered to the handler in `tr`, oldest
/// first.
pub open spec fn requests_of<Req, Ev>(tr: Seq<HandlerCall<Req, Ev>>) -> Seq<Req>
    decreases tr.len(),
{
    if tr.len() == 0 {
        Seq::empty()
    } else {
        let rest = requests_of(tr.drop_last());
        match tr.last() {
            HandlerCall::Delivered(FromEngine::Request(q)) => rest.push(q),
            _ => rest,
        }
    }
}

/// The block batches delivered to the handler in `tr`, oldest first.
pub open spec fn batches_of<Req, Ev>(tr: Seq<HandlerCall<Req, Ev>>) -> Seq<
    Vec<SealedBlockWithSenders>,
>
    decreases tr.len(),
{
    if tr.len() == 0 {
        Seq::empty()
    } else {
        let rest = batches_of(tr.drop_last());
        match tr.last() {
            HandlerCall::Delivered(FromEngine::DownloadedBlocks(b)) => rest.push(b),
            _ => rest,
        }
    }
}

/// The download commands that the handler's poll results in `tr` call for:
/// one `Download` per `DownloadNeeded` result, oldest first.
pub open spec fn download_starts_of<Req, Ev>(tr: Seq<HandlerCall<Req, Ev>>) -> Seq<DownloadAction>
    decreases tr.len(),
{
    if tr.len() == 0 {
        Seq::empty()
    } else {
        let rest = download_starts_of(tr.drop_last());
        match tr.last() {
            HandlerCall::Polled(
                PollOutcome::Ready(RequestHandlerEvent::Download(req)),
            ) => rest.push(DownloadAction::Download(req)),
            _ => rest,
        }
    }
}

/// The requests a request stream has yielded in `sp`, oldest first.
pub open spec fn yielded_of<Req>(sp: Seq<PollOutcome<Option<Req>>>) -> Seq<Req>
    decreases sp.len(),
{
    if sp.len() == 0 {
        Seq::empty()
    } else {
        let rest = yielded_of(sp.drop_last());
        match sp.last() {
            PollOutcome::Ready(Some(q)) => rest.push(q),
            _ => rest,
        }
    }
}

/// The block batches a downloader has reported in `dp`, oldest first.
pub open spec fn blocks_of(dp: Seq<PollOutcome<DownloadOutcome>>) -> Seq<
    Vec<SealedBlockWithSenders>,
>
    decreases dp.len(),
{
    if dp.len() == 0 {
        Seq::empty()
    } else {
        let rest = blocks_of(dp.drop_last());
        match dp.last() {
            PollOutcome::Ready(DownloadOutcome::Blocks(b)) => rest.push(b),
            _ => rest,
        }
    }
}

/// Drain-before-accept: from index `from` on, every input delivered to the
/// handler immediately follows a handler poll that returned `Pending`.
pub open spec fn drained_before_delivery<Req, Ev>(tr: Seq<HandlerCall<Req, Ev>>, from: int) -> bool {
    forall|i: int|
        from <= i < tr.len() && (#[trigger] tr[i]) is Delivered ==> from < i && tr[i - 1]
            == HandlerCall::<Req, Ev>::Polled(PollOutcome::Pending)
}

/// From index `from` on, every input delivered to the handler is followed by
/// a fresh poll of the handler before anything else happens to it.
pub open spec fn deliveries_repolled<Req, Ev>(tr: Seq<HandlerCall<Req, Ev>>, from: int) -> bool {
    forall|i: int|
        from <= i < tr.len() && (#[trigger] tr[i]) is Delivered ==> i + 1 < tr.len() && tr[i + 1]
            is Polled
}

/// Weakening of [`deliveries_repolled`] that holds mid-step: the most recent
/// interaction may be a delivery whose re-poll has not happened yet.
pub open spec fn deliveries_repolled_unless_last<Req, Ev>(
    tr: Seq<HandlerCall<Req, Ev>>,
    from: int,
) -> bool {
    forall|i: int|
        from <= i < tr.len() && (#[trigger] tr[i]) is Delivered ==> i + 1 == tr.len() || tr[i + 1]
            is Polled
}

/// From index `from` on, the only inputs delivered are consensus-layer
/// requests and downloaded blocks — a poll never injects orchestrator
/// signals.
pub open spec fn only_poll_inputs<Req, Ev>(tr: Seq<HandlerCall<Req, Ev>>, from: int) -> bool {
    forall|i: int|
        from <= i < tr.len() ==> ((#[trigger] tr[i]) matches HandlerCall::Delivered(inp) ==> (inp
            is Request || inp is DownloadedBlocks))
}

/// From index `from` on, no poll of the handler has produced a bubble-worthy
/// result.
pub open spec fn no_handler_result_in<Req, Ev>(tr: Seq<HandlerCall<Req, Ev>>, from: int) -> bool {
    forall|i: int|
        from <= i < tr.len() ==> !((#[trigger] tr[i]) matches HandlerCall::Polled(
            PollOutcome::Ready(RequestHandlerEvent::HandlerEvent(_)),
        ))
}

/// From index `from` on, a bubble-worthy handler result ends the interaction:
/// it is returned to the caller at once, never held back or reordered.
pub open spec fn results_returned_at_once<Req, Ev>(tr: Seq<HandlerCall<Req, Ev>>, from: int) -> bool {
    forall|i: int|
        from <= i < tr.len() && ((#[trigger] tr[i]) matches HandlerCall::Polled(
            PollOutcome::Ready(RequestHandlerEvent::HandlerEvent(_)),
        )) ==> i == tr.len() - 1
}

/// How the handler-facing filter maps grow when one more interaction is
/// recorded.
proof fn lemma_trace_push<Req, Ev>(tr: Seq<HandlerCall<Req, Ev>>, c: HandlerCall<Req, Ev>)
    ensures
        requests_of(tr.push(c)) == (match c {
            HandlerCall::Delivered(FromEngine::Request(q)) => requests_of(tr).push(q),
            _ => requests_of(tr),
        }),
        batches_of(tr.push(c)) == (match c {
            HandlerCall::Delivered(FromEngine::DownloadedBlocks(b)) => batches_of(tr).push(b),
            _ => batches_of(tr),
        }),
        download_starts_of(tr.push(c)) == (match c {
            HandlerCall::Polled(
                PollOutcome::Ready(RequestHandlerEvent::Download(req)),
            ) => download_starts_of(tr).push(DownloadAction::Download(req)),
            _ => download_starts_of(tr),
        }),
{
    assert(tr.push(c).drop_last() =~= tr);
    assert(tr.push(c).last() == c);
}

/// How the yielded-request map grows when a stream poll is recorded.
proof fn lemma_yielded_push<Req>(sp: Seq<PollOutcome<Option<Req>>>, c: PollOutcome<Option<Req>>)
    ensures
        yielded_of(sp.push(c)) == (match c {
            PollOutcome::Ready(Some(q)) => yielded_of(sp).push(q),
            _ => yielded_of(sp),
        }),
{
    assert(sp.push(c).drop_last() =~= sp);
    assert(sp.push(c).last() == c);
}

/// How the reported-blocks map grows when a downloader poll is recorded.
proof fn lemma_blocks_push(dp: Seq<PollOutcome<DownloadOutcome>>, c: PollOutcome<DownloadOutcome>)
    ensures
        blocks_of(dp.push(c)) == (match c {
            PollOutcome::Ready(DownloadOutcome::Blocks(b)) => blocks_of(dp).push(b),
            _ => blocks_of(dp),
        }),
{
    assert(dp.push(c).drop_last() =~= dp);
    assert(dp.push(c).last() == c);
}

/// Pushing and then skipping a stable prefix is skipping and then pushing.
proof fn lemma_skip_push<A>(s: Seq<A>, n: int, c: A)
    requires
        0 <= n <= s.len(),
    ensures
        s.push(c).skip(n) == s.skip(n).push(c),
{
    assert(s.push(c).skip(n) =~= s.skip(n).push(c));
}

/// Ceiling on the work one `poll` call performs, counted in handler polls: a
/// defensive bound that makes every call provably finite. It exceeds what any
/// physical queue could hold, so in practice a poll only ends by producing a
/// result or running out of ready work.
pub const STEP_LIMIT: u64 = 18446744073709551615;

/// The ordering predicates survive recording one more interaction `c`, as
/// long as `c` respects them: an input is delivered only right after a
/// `Pending` poll, and is itself a request or a block batch.
proof fn lemma_props_push<Req, Ev>(tr: Seq<HandlerCall<Req, Ev>>, c: HandlerCall<Req, Ev>, from: int)
    requires
        0 <= from <= tr.len(),
        drained_before_delivery(tr, from),
        deliveries_repolled_unless_last(tr, from),
        only_poll_inputs(tr, from),
        c is Delivered ==> tr.len() > from && tr[tr.len() - 1] == HandlerCall::<Req, Ev>::Polled(
            PollOutcome::Pending,
        ),
        c matches HandlerCall::Delivered(inp) ==> (inp is Request || inp is DownloadedBlocks),
    ensures
        drained_before_delivery(tr.push(c), from),
        deliveries_repolled_unless_last(tr.push(c), from),
        only_poll_inputs(tr.push(c), from),
        no_handler_result_in(tr, from) && !(c matches HandlerCall::Polled(
            PollOutcome::Ready(RequestHandlerEvent::HandlerEvent(_)),
        )) ==> no_handler_result_in(tr.push(c), from),
        no_handler_result_in(tr, from) ==> results_returned_at_once(tr.push(c), from),
{
    let tr2 = tr.push(c);
    assert forall|i: int|
        from <= i < tr2.len() && (#[trigger] tr2[i]) is Delivered implies from < i && tr2[i - 1]
        == HandlerCall::<Req, Ev>::Polled(PollOutcome::Pending) by {
        if i < tr.len() {
            assert(tr2[i] == tr[i]);
            assert(from < i && tr[i - 1] == HandlerCall::<Req, Ev>::Polled(PollOutcome::Pending));
            assert(tr2[i - 1] == tr[i - 1]);
        } else {
            assert(tr2[i] == c);
            assert(tr2[i - 1] == tr[i - 1]);
        }
    }
    assert forall|i: int|
        from <= i < tr2.len() && (#[trigger] tr2[i]) is Delivered implies i + 1 == tr2.len() || tr2[i
        + 1] is Polled by {
        if i < tr.len() {
            assert(tr2[i] == tr[i]);
            if i + 1 < tr.len() {
                assert(tr2[i + 1] == tr[i + 1]);
            } else {
                assert(i == tr.len() - 1);
                assert(tr2[i + 1] == c);
                if c is Delivered {
                    assert(tr[tr.len() - 1] == HandlerCall::<Req, Ev>::Polled(PollOutcome::Pending));
                }
            }
        }
    }
    assert forall|i: int| from <= i < tr2.len() implies ((#[trigger] tr2[i])
        matches HandlerCall::Delivered(inp) ==> (inp is Request || inp is DownloadedBlocks)) by {
        if i < tr.len() {
            assert(tr2[i] == tr[i]);
        } else {
            assert(tr2[i] == c);
        }
    }
    if no_handler_result_in(tr, from) {
        assert forall|i: int|
            from <= i < tr2.len() && ((#[trigger] tr2[i]) matches HandlerCall::Polled(
                PollOutcome::Ready(RequestHandlerEvent::HandlerEvent(_)),
            )) implies i == tr2.len() - 1 by {
            if i < tr.len() {
                assert(tr2[i] == tr[i]);
            }
        }
        if !(c matches HandlerCall::Polled(
            PollOutcome::Ready(RequestHandlerEvent::HandlerEvent(_)),
        )) {
            assert forall|i: int| from <= i < tr2.len() implies !((#[trigger] tr2[i])
                matches HandlerCall::Polled(
                PollOutcome::Ready(RequestHandlerEvent::HandlerEvent(_)),
            )) by {
                if i < tr.len() {
                    assert(tr2[i] == tr[i]);
                } else {
                    assert(tr2[i] == c);
                }
            }
        }
    }
}

/// If the most recent interaction is not a delivery, "every delivery was
/// re-polled unless it is the last interaction" strengthens to "every
/// delivery was re-polled".
proof fn lemma_repolled_strict<Req, Ev>(tr: Seq<HandlerCall<Req, Ev>>, from: int)
    requires
        0 <= from <= tr.len(),
        deliveries_repolled_unless_last(tr, from),
        tr.len() > from ==> !(tr[tr.len() - 1] is Delivered),
    ensures
        deliveries_repolled(tr, from),
{
    assert forall|i: int|
        from <= i < tr.len() && (#[trigger] tr[i]) is Delivered implies i + 1 < tr.len() && tr[i
        + 1] is Polled by {
        assert(i + 1 == tr.len() || tr[i + 1] is Polled);
        if i + 1 == tr.len() {
            assert(tr[tr.len() - 1] is Delivered);
        }
    }
}

/// The poll-driven multiplexer that advances the chain: it owns a request
/// handler, a stream of incoming consensus-layer requests, and a block
/// downloader, and arbitrates among them.
///
/// Within one `poll`, the handler is drained until it reports `Pending`
/// before at most one incoming request is accepted, and an incoming request
/// is preferred over a completed download; every state-changing delivery is
/// followed by a fresh drain. Once a poll has returned
/// [`HandlerEvent::FatalError`], the multiplexer is terminal: it delivers
/// nothing further to the handler and keeps reporting the fatal error.
pub struct EngineHandler<T, S, D> {
    /// Processes requests and reports progress.
    handler: T,
    /// Incoming requests from the consensus layer.
    incoming_requests: S,
    /// Downloads blocks on demand.
    downloader: D,
    /// Set once a poll has returned `FatalError`; terminal.
    fatal: bool,
}

impl<T, S, D> EngineHandler<T, S, D> where
    T: EngineRequestHandler,
    S: RequestStream<T::Request>,
    D: BlockDownloader,
 {
    /// The interactions the owned handler has seen.
    pub closed spec fn handler_trace(&self) -> Seq<HandlerCall<T::Request, T::Event>> {
        self.handler.trace()
    }

    /// The commands the owned downloader has received.
    pub closed spec fn downloader_actions(&self) -> Seq<DownloadAction> {
        self.downloader.actions()
    }

    /// The poll outcomes the owned downloader has reported.
    pub closed spec fn downloader_polled(&self) -> Seq<PollOutcome<DownloadOutcome>> {
        self.downloader.polled()
    }

    /// The poll outcomes the request stream has reported.
    pub closed spec fn requests_polled(&self) -> Seq<PollOutcome<Option<T::Request>>> {
        self.incoming_requests.polled()
    }

    /// Whether a poll has already returned `FatalError`.
    pub closed spec fn is_fatal(&self) -> bool {
        self.fatal
    }

    /// The handler interactions recorded between two multiplexer states.
    pub open spec fn handler_delta(pre: Self, post: Self) -> Seq<HandlerCall<T::Request, T::Event>> {
        post.handler_trace().skip(pre.handler_trace().len() as int)
    }

    /// Creates a new `EngineHandler` with the given handler and downloader
    /// and incoming stream of requests.
    pub fn new(handler: T, downloader: D, incoming_requests: S) -> (r: Self)
        ensures
            r.handler_trace() == handler.trace(),
            r.downloader_actions() == downloader.actions(),
            r.downloader_polled() == downloader.polled(),
            r.requests_polled() == incoming_requests.polled(),
            !r.is_fatal(),
    {
        EngineHandler { handler, incoming_requests, downloader, fatal: false }
    }

    /// The owned request handler, for observation.
    pub fn handler(&self) -> (r: &T)
        ensures
            r.trace() == self.handler_trace(),
    {
        &self.handler
    }

    /// The owned downloader, for observation.
    pub fn downloader(&self) -> (r: &D)
        ensures
            r.actions() == self.downloader_actions(),
            r.polled() == self.downloader_polled(),
    {
        &self.downloader
    }

    /// The owned request stream, for observation.
    pub fn incoming(&self) -> (r: &S)
        ensures
            r.polled() == self.requests_polled(),
    {
        &self.incoming_requests
    }

    /// Forwards an orchestrator signal into the handler — unless a fatal
    /// error has been reported, after which the handler receives nothing.
    pub fn on_event(&mut self, event: FromOrchestrator)
        ensures
            final(self).is_fatal() == old(self).is_fatal(),
            final(self).downloader_actions() == old(self).downloader_actions(),
            final(self).downloader_polled() == old(self).downloader_polled(),
            final(self).requests_polled() == old(self).requests_polled(),
            final(self).handler_trace() == if old(self).is_fatal() {
                old(self).handler_trace()
            } else {
                old(self).handler_trace().push(
                    HandlerCall::Delivered(FromEngine::Event(event)),
                )
            },
    {
        if !self.fatal {
            let input: FromEngine<T::Request> = FromEngine::from(event);
            self.handler.on_event(input);
        }
    }

    /// Advances the multiplexer: drains the handler, starts requested
    /// downloads, accepts at most one incoming request per iteration, and
    /// feeds completed downloads back — until a result is produced or no
    /// source has work ready.
    ///
    /// The contract pins the orchestration rules down over the interaction
    /// traces; see each clause.
    #[verifier::loop_isolation(false)]
    #[verifier::rlimit(60)]
    pub fn poll(&mut self) -> (res: PollOutcome<HandlerEvent<T::Event>>)
        ensures
    // the traces only grow

            old(self).handler_trace().is_prefix_of(final(self).handler_trace()),
            old(self).requests_polled().is_prefix_of(final(self).requests_polled()),
            old(self).downloader_polled().is_prefix_of(final(self).downloader_polled()),
            // drain-before-accept: an input reaches the handler only right after
            // it reported `Pending`
            drained_before_delivery(
                final(self).handler_trace(),
                old(self).handler_trace().len() as int,
            ),
            // one input at a time: after every delivered input the handler is
            // polled again before anything else happens to it
            deliveries_repolled(
                final(self).handler_trace(),
                old(self).handler_trace().len() as int,
            ),
            // a poll only ever delivers requests and downloaded blocks
            only_poll_inputs(final(self).handler_trace(), old(self).handler_trace().len() as int),
            // a bubble-worthy handler result is returned at once, never held back
            results_returned_at_once(
                final(self).handler_trace(),
                old(self).handler_trace().len() as int,
            ),
            // the downloader receives exactly the starts the handler asked for,
            // plus one `Clear` right before a backfill request is bubbled up
            final(self).downloader_actions() == old(self).downloader_actions()
                + download_starts_of(Self::handler_delta(*old(self), *final(self))) + (
            if res matches PollOutcome::Ready(HandlerEvent::BackfillAction(_)) {
                seq![DownloadAction::Clear]
            } else {
                Seq::<DownloadAction>::empty()
            }),
            // the requests delivered to the handler are exactly those the
            // incoming stream yielded, in order
            requests_of(Self::handler_delta(*old(self), *final(self))) == yielded_of(
                final(self).requests_polled().skip(old(self).requests_polled().len() as int),
            ),
            // the block batches delivered to the handler are exactly those the
            // downloader reported, in order
            batches_of(Self::handler_delta(*old(self), *final(self))) == blocks_of(
                final(self).downloader_polled().skip(old(self).downloader_polled().len() as int),
            ),
            // a ready result is exactly the handler's last answer
            res matches PollOutcome::Ready(ev) ==> old(self).is_fatal() || (final(self).handler_trace().len() > old(self).handler_trace().len() && final(self).handler_trace().last() == HandlerCall::<T::Request, T::Event>::Polled(
                PollOutcome::Ready(RequestHandlerEvent::HandlerEvent(ev)),
            )),
            // `Pending` means every source was consulted and none had work ready
            // (or the defensive step bound was reached)
            res is Pending ==> (final(self).handler_trace().len() > old(
                self,
            ).handler_trace().len() && final(self).handler_trace().last()
                == HandlerCall::<T::Request, T::Event>::Polled(PollOutcome::Pending) && final(self).requests_polled().len() > old(self).requests_polled().len() && !(final(self).requests_polled().last() matches PollOutcome::Ready(Some(_))) && final(self).downloader_polled().len() > old(self).downloader_polled().len() && final(self).downloader_polled().last() == PollOutcome::<DownloadOutcome>::Pending) || Self::handler_delta(
                *old(self),
                *final(self),
            ).len() >= STEP_LIMIT as nat,
            // a fatal error is terminal: it is remembered, and once fatal the
            // multiplexer touches nothing and keeps reporting the fatal error
            final(self).is_fatal() == (old(self).is_fatal() || res
                == PollOutcome::<HandlerEvent<T::Event>>::Ready(HandlerEvent::FatalError)),
            old(self).is_fatal() ==> res == PollOutcome::<HandlerEvent<T::Event>>::Ready(
                HandlerEvent::FatalError,
            ) && final(self).handler_trace() == old(self).handler_trace() && final(self).downloader_actions() == old(self).downloader_actions() && final(self).downloader_polled() == old(self).downloader_polled() && final(self).requests_polled()
                == old(self).requests_polled(),
    {
        let ghost t0 = self.handler.trace();
        let ghost a0 = self.downloader.actions();
        let ghost dp0 = self.downloader.polled();
        let ghost sp0 = self.incoming_requests.polled();
        if self.fatal {
            proof {
                assert(Self::handler_delta(*old(self), *self) =~= Seq::<
                    HandlerCall<T::Request, T::Event>,
                >::empty());
                assert(self.downloader_actions() == a0 + download_starts_of(
                    Self::handler_delta(*old(self), *self),
                ) + Seq::<DownloadAction>::empty()) by {
                    assert(a0 + Seq::<DownloadAction>::empty() + Seq::<DownloadAction>::empty()
                        =~= a0);
                }
                assert(sp0.skip(sp0.len() as int) =~= Seq::<PollOutcome<Option<T::Request>>>::empty());
                assert(dp0.skip(dp0.len() as int) =~= Seq::<PollOutcome<DownloadOutcome>>::empty());
            }
            return PollOutcome::Ready(HandlerEvent::FatalError);
        }
        let mut fuel: u64 = STEP_LIMIT;
        loop
            invariant
                !self.fatal,
                t0.is_prefix_of(self.handler.trace()),
                sp0.is_prefix_of(self.incoming_requests.polled()),
                dp0.is_prefix_of(self.downloader.polled()),
                drained_before_delivery(self.handler.trace(), t0.len() as int),
                deliveries_repolled_unless_last(self.handler.trace(), t0.len() as int),
                only_poll_inputs(self.handler.trace(), t0.len() as int),
                no_handler_result_in(self.handler.trace(), t0.len() as int),
                self.downloader.actions() == a0 + download_starts_of(
                    self.handler.trace().skip(t0.len() as int),
                ),
                requests_of(self.handler.trace().skip(t0.len() as int)) == yielded_of(
                    self.incoming_requests.polled().skip(sp0.len() as int),
                ),
                batches_of(self.handler.trace().skip(t0.len() as int)) == blocks_of(
                    self.downloader.polled().skip(dp0.len() as int),
                ),
                self.handler.trace().len() - t0.len() >= STEP_LIMIT - fuel,
                self.handler.trace().len() > t0.len() && self.handler.trace().last() is Delivered
                    ==> fuel >= 1,
            decreases fuel,
        {
            if fuel == 0 {
                proof {
                    lemma_repolled_strict(self.handler.trace(), t0.len() as int);
                }
                return PollOutcome::Pending;
            }
            fuel = fuel - 1;
            let ghost pre = self.handler.trace();
            let hres = self.handler.poll();
            proof {
                lemma_skip_push(pre, t0.len() as int, HandlerCall::Polled(hres));
                lemma_trace_push(pre.skip(t0.len() as int), HandlerCall::Polled(hres));
                lemma_props_push(pre, HandlerCall::Polled(hres), t0.len() as int);
            }
            match hres {
                PollOutcome::Ready(ev) => {
                    match ev {
                        RequestHandlerEvent::HandlerEvent(hev) => {
                            proof {
                                lemma_repolled_strict(self.handler.trace(), t0.len() as int);
                            }
                            match hev {
                                HandlerEvent::BackfillAction(target) => {
                                    // live-sync downloads are stale now: clear them
                                    // before bubbling the backfill request up
                                    self.downloader.on_action(DownloadAction::Clear);
                                    proof {
                                        assert((a0 + download_starts_of(
                                            self.handler.trace().skip(t0.len() as int),
                                        )).push(DownloadAction::Clear) =~= a0 + download_starts_of(
                                            self.handler.trace().skip(t0.len() as int),
                                        ) + seq![DownloadAction::Clear]);
                                    }
                                    return PollOutcome::Ready(HandlerEvent::BackfillAction(target));
                                },
                                HandlerEvent::Event(e) => {
                                    proof {
                                        assert(a0 + download_starts_of(
                                            self.handler.trace().skip(t0.len() as int),
                                        ) + Seq::<DownloadAction>::empty() =~= a0
                                            + download_starts_of(
                                            self.handler.trace().skip(t0.len() as int),
                                        ));
                                    }
                                    return PollOutcome::Ready(HandlerEvent::Event(e));
                                },
                                HandlerEvent::FatalError => {
                                    self.fatal = true;
                                    proof {
                                        assert(a0 + download_starts_of(
                                            self.handler.trace().skip(t0.len() as int),
                                        ) + Seq::<DownloadAction>::empty() =~= a0
                                            + download_starts_of(
                                            self.handler.trace().skip(t0.len() as int),
                                        ));
                                    }
                                    return PollOutcome::Ready(HandlerEvent::FatalError);
                                },
                            }
                        },
                        RequestHandlerEvent::Download(req) => {
                            // start the download the handler asked for and keep
                            // draining
                            let ghost acts = self.downloader.actions();
                            self.downloader.on_action(DownloadAction::Download(req));
                            proof {
                                assert(acts.push(DownloadAction::Download(req)) =~= a0
                                    + download_starts_of(
                                    self.handler.trace().skip(t0.len() as int),
                                ));
                            }
                        },
                    }
                },
                PollOutcome::Pending => {
                    // the handler is drained; give it new work, one item at a
                    // time, preferring incoming requests over downloads
                    if fuel == 0 {
                        proof {
                            lemma_repolled_strict(self.handler.trace(), t0.len() as int);
                        }
                        return PollOutcome::Pending;
                    }
                    let ghost sp_pre = self.incoming_requests.polled();
                    let sres = self.incoming_requests.poll_next();
                    proof {
                        lemma_skip_push(sp_pre, sp0.len() as int, sres);
                        lemma_yielded_push(sp_pre.skip(sp0.len() as int), sres);
                    }
                    match sres {
                        PollOutcome::Ready(Some(req)) => {
                            let ghost pre2 = self.handler.trace();
                            let input = FromEngine::Request(req);
                            proof {
                                lemma_skip_push(pre2, t0.len() as int, HandlerCall::Delivered(input));
                                lemma_trace_push(
                                    pre2.skip(t0.len() as int),
                                    HandlerCall::Delivered(input),
                                );
                                lemma_props_push(pre2, HandlerCall::Delivered(input), t0.len() as int);
                            }
                            self.handler.on_event(input);
                        },
                        _ => {
                            let ghost dp_pre = self.downloader.polled();
                            let dres = self.downloader.poll();
                            proof {
                                lemma_skip_push(dp_pre, dp0.len() as int, dres);
                                lemma_blocks_push(dp_pre.skip(dp0.len() as int), dres);
                            }
                            match dres {
                                PollOutcome::Ready(DownloadOutcome::Blocks(blocks)) => {
                                    let ghost pre2 = self.handler.trace();
                                    let input = FromEngine::DownloadedBlocks(blocks);
                                    proof {
                                        lemma_skip_push(
                                            pre2,
                                            t0.len() as int,
                                            HandlerCall::Delivered(input),
                                        );
                                        lemma_trace_push(
                                            pre2.skip(t0.len() as int),
                                            HandlerCall::Delivered(input),
                                        );
                                        lemma_props_push(
                                            pre2,
                                            HandlerCall::Delivered(input),
                                            t0.len() as int,
                                        );
                                    }
                                    self.handler.on_event(input);
                                },
                                PollOutcome::Pending => {
                                    proof {
                                        lemma_repolled_strict(self.handler.trace(), t0.len() as int);
                                        assert(a0 + download_starts_of(
                                            self.handler.trace().skip(t0.len() as int),
                                        ) + Seq::<DownloadAction>::empty() =~= a0
                                            + download_starts_of(
                                            self.handler.trace().skip(t0.len() as int),
                                        ));
                                    }
                                    return PollOutcome::Pending;
                                },
                            }
                        },
                    }
                },
            }
        }
    }
}

} // verus!
