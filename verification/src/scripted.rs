//! Deterministic, queue-backed collaborators: a handler that follows a fixed
//! script, a downloader that records every command and yields queued
//! outcomes, and a request stream fed from a vector. They implement the
//! orchestrator's interfaces in memory, which makes the multiplexer drivable
//! without a backend — the test suite is their main consumer.

use vstd::prelude::*;

use crate::chain::PollOutcome;
use crate::download::{BlockDownloader, DownloadAction, DownloadOutcome};
use crate::engine::{EngineRequestHandler, FromEngine, HandlerCall, RequestStream};

verus! {

/// A request handler that answers each poll with the next entry of a fixed
/// script (and `Pending` once the script is exhausted), and keeps every input
/// delivered to it.
pub struct ScriptedHandler<Req, Ev> {
    /// Poll answers still to give, next first.
    script: Vec<PollOutcome<crate::engine::RequestHandlerEvent<Ev>>>,
    /// Every input delivered so far, oldest first.
    received: Vec<FromEngine<Req>>,
    /// The interactions seen so far.
    calls: Ghost<Seq<HandlerCall<Req, Ev>>>,
}

impl<Req, Ev> ScriptedHandler<Req, Ev> {
    /// The poll answers still to give.
    pub closed spec fn pending_script(&self) -> Seq<
        PollOutcome<crate::engine::RequestHandlerEvent<Ev>>,
    > {
        self.script@
    }

    /// The inputs delivered so far.
    pub closed spec fn received_log(&self) -> Seq<FromEngine<Req>> {
        self.received@
    }

    /// A handler that will answer its polls with `script`, in order.
    pub fn new(script: Vec<PollOutcome<crate::engine::RequestHandlerEvent<Ev>>>) -> (r: Self)
        ensures
            r.trace() == Seq::<HandlerCall<Req, Ev>>::empty(),
            r.pending_script() == script@,
            r.received_log() == Seq::<FromEngine<Req>>::empty(),
    {
        ScriptedHandler { script, received: Vec::new(), calls: Ghost(Seq::empty()) }
    }

    /// The inputs delivered so far, oldest first.
    pub fn received(&self) -> (r: &Vec<FromEngine<Req>>)
        ensures
            r@ == self.received_log(),
    {
        &self.received
    }
}

impl<Req, Ev> EngineRequestHandler for ScriptedHandler<Req, Ev> {
    type Request = Req;

    type Event = Ev;

    closed spec fn trace(&self) -> Seq<HandlerCall<Req, Ev>> {
        self.calls@
    }

    fn on_event(&mut self, event: FromEngine<Req>)
        ensures
            final(self).received_log() == old(self).received_log().push(event),
            final(self).pending_script() == old(self).pending_script(),
    {
        let ghost recorded = self.calls@.push(HandlerCall::Delivered(event));
        self.calls = Ghost(recorded);
        self.received.push(event);
    }

    fn poll(&mut self) -> (r: PollOutcome<crate::engine::RequestHandlerEvent<Ev>>)
        ensures
            r == if old(self).pending_script().len() > 0 {
                old(self).pending_script()[0]
            } else {
                PollOutcome::<crate::engine::RequestHandlerEvent<Ev>>::Pending
            },
            final(self).pending_script() == if old(self).pending_script().len() > 0 {
                old(self).pending_script().skip(1)
            } else {
                old(self).pending_script()
            },
            final(self).received_log() == old(self).received_log(),
    {
        let r = if self.script.len() > 0 {
            let head = self.script.remove(0);
            proof {
                assert(self.script@ =~= old(self).script@.skip(1));
            }
            head
        } else {
            PollOutcome::Pending
        };
        let ghost recorded = self.calls@.push(HandlerCall::Polled(r));
        self.calls = Ghost(recorded);
        r
    }
}

/// A downloader that records every command it receives and reports queued
/// outcomes, one per poll. It performs no real work: outcomes are queued from
/// outside with [`RecordingDownloader::push_outcome`].
pub struct RecordingDownloader {
    /// Every command received, oldest first.
    taken: Vec<DownloadAction>,
    /// Outcomes still to report, next first.
    queued: Vec<DownloadOutcome>,
    /// Every poll outcome reported, oldest first.
    polled_log: Ghost<Seq<PollOutcome<DownloadOutcome>>>,
}

impl RecordingDownloader {
    /// The outcomes still to report.
    pub closed spec fn queued_outcomes(&self) -> Seq<DownloadOutcome> {
        self.queued@
    }

    /// A downloader with nothing recorded and nothing queued.
    pub fn new() -> (r: Self)
        ensures
            r.actions() == Seq::<DownloadAction>::empty(),
            r.polled() == Seq::<PollOutcome<DownloadOutcome>>::empty(),
            r.queued_outcomes() == Seq::<DownloadOutcome>::empty(),
    {
        RecordingDownloader { taken: Vec::new(), queued: Vec::new(), polled_log: Ghost(Seq::empty()) }
    }

    /// Queues one outcome for a later poll to report.
    pub fn push_outcome(&mut self, outcome: DownloadOutcome)
        ensures
            final(self).actions() == old(self).actions(),
            final(self).polled() == old(self).polled(),
            final(self).queued_outcomes() == old(self).queued_outcomes().push(outcome),
    {
        self.queued.push(outcome);
    }

    /// The commands received so far, oldest first.
    pub fn actions_taken(&self) -> (r: &Vec<DownloadAction>)
        ensures
            r@ == self.actions(),
    {
        &self.taken
    }
}

impl BlockDownloader for RecordingDownloader {
    closed spec fn actions(&self) -> Seq<DownloadAction> {
        self.taken@
    }

    closed spec fn polled(&self) -> Seq<PollOutcome<DownloadOutcome>> {
        self.polled_log@
    }

    fn on_action(&mut self, action: DownloadAction)
        ensures
            final(self).queued_outcomes() == old(self).queued_outcomes(),
    {
        self.taken.push(action);
    }

    fn poll(&mut self) -> (r: PollOutcome<DownloadOutcome>)
        ensures
            r == if old(self).queued_outcomes().len() > 0 {
                PollOutcome::Ready(old(self).queued_outcomes()[0])
            } else {
                PollOutcome::<DownloadOutcome>::Pending
            },
            final(self).queued_outcomes() == if old(self).queued_outcomes().len() > 0 {
                old(self).queued_outcomes().skip(1)
            } else {
                old(self).queued_outcomes()
            },
    {
        let r = if self.queued.len() > 0 {
            let head = self.queued.remove(0);
            proof {
                assert(self.queued@ =~= old(self).queued@.skip(1));
            }
            PollOutcome::Ready(head)
        } else {
            PollOutcome::Pending
        };
        let ghost recorded = self.polled_log@.push(r);
        self.polled_log = Ghost(recorded);
        r
    }
}

/// A request stream fed from a vector: yields its items in order, then
/// reports `Pending` forever, like an open channel with nothing queued.
pub struct QueuedRequests<Req> {
    /// Requests still to yield, next first.
    items: Vec<Req>,
    /// Every poll outcome reported, oldest first.
    polled_log: Ghost<Seq<PollOutcome<Option<Req>>>>,
}

impl<Req> QueuedRequests<Req> {
    /// The requests still to yield.
    pub closed spec fn pending_items(&self) -> Seq<Req> {
        self.items@
    }

    /// A stream that will yield `items`, in order.
    pub fn new(items: Vec<Req>) -> (r: Self)
        ensures
            r.polled() == Seq::<PollOutcome<Option<Req>>>::empty(),
            r.pending_items() == items@,
    {
        QueuedRequests { items, polled_log: Ghost(Seq::empty()) }
    }

    /// How many requests are still queued.
    pub fn remaining(&self) -> (r: usize)
        ensures
            r == self.pending_items().len(),
    {
        self.items.len()
    }
}

impl<Req> RequestStream<Req> for QueuedRequests<Req> {
    closed spec fn polled(&self) -> Seq<PollOutcome<Option<Req>>> {
        self.polled_log@
    }

    fn poll_next(&mut self) -> (r: PollOutcome<Option<Req>>)
        ensures
            r == if old(self).pending_items().len() > 0 {
                PollOutcome::Ready(Some(old(self).pending_items()[0]))
            } else {
                PollOutcome::<Option<Req>>::Pending
            },
            final(self).pending_items() == if old(self).pending_items().len() > 0 {
                old(self).pending_items().skip(1)
            } else {
                old(self).pending_items()
            },
    {
        let r = if self.items.len() > 0 {
            let head = self.items.remove(0);
            proof {
                assert(self.items@ =~= old(self).items@.skip(1));
            }
            PollOutcome::Ready(Some(head))
        } else {
            PollOutcome::Pending
        };
        let ghost recorded = self.polled_log@.push(r);
        self.polled_log = Ghost(recorded);
        r
    }
}

} // verus!
