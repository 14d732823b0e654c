//! The worker-pool pipeline: fan-out, fan-in, and the drain protocol.
//!
//! A [`Pipeline`] is the joint state of one batch run: the split work
//! queue, the pool sizes, how many workers of each pool are still alive,
//! how many items are mid-fetch or mid-persist, and the per-item outcome
//! counters. Each method is one atomic step some worker (or the seeder)
//! can take; its contract states exactly how the step moves the state,
//! that it preserves well-formedness, and that it shrinks the progress
//! measure, so no infinite run exists.
//!
//! The two-phase close lives here: the request channel closes when
//! seeding ends; the result channel closes only when the last fetch
//! worker has exited ([`Pipeline::fetch_exit`]), never earlier — while
//! any fetch is in flight the result channel is provably open, so no
//! produced result can be dropped, and never later — so the persist
//! workers always reach end-of-stream and exit.

use vstd::prelude::*;
use vstd::pervasive::unreached;

use crate::channel::RecvOutcome;
use crate::errors::FetchError;
use crate::parser::Parser;
use crate::requester::Requester;
use crate::saver::Saver;
use crate::scheduler::Scheduler;
use crate::scheduler::SchedulerReceiver;
use crate::scheduler::SchedulerSender;

verus! {

/// The network transport collaborator: issues one fetch for a request
/// and returns the raw content, or a transport error. Retries,
/// redirects and decoding are its concern, not the pipeline's.
pub trait Fetcher {
    /// Fetches the content behind one request.
    fn fetch(&self, requester: &Requester) -> Result<String, FetchError>;
}

/// What one fetch-worker loop iteration produced for one request.
pub enum WorkOutcome<T> {
    /// Fetch and transform both succeeded.
    Produced(T),
    /// The transport failed; the item is reported and dropped.
    FetchFailed,
    /// The transform rejected the content; the item is reported and
    /// dropped.
    TransformFailed,
}

/// The final accounting of one batch run.
#[derive(Clone, Copy, Debug, PartialEq, Eq, Structural)]
pub struct BatchReport {
    /// How many requests were seeded.
    pub seeded: usize,
    /// How many requests failed at the transport.
    pub fetch_failed: usize,
    /// How many fetched contents the transform rejected.
    pub transform_failed: usize,
    /// How many results the sink stored.
    pub persisted: usize,
    /// How many results the sink rejected.
    pub sink_failed: usize,
}

/// The joint state of one batch run.
pub struct Pipeline<T> {
    /// The dual-channel work queue, already split.
    pub scheduler: Scheduler<T>,
    /// The producer capability of the queue.
    pub sender: SchedulerSender,
    /// The consumer capability of the queue.
    pub receiver: SchedulerReceiver,
    /// The fetch concurrency ceiling.
    pub concurrency: usize,
    /// The size of the fetch worker pool.
    pub fetch_workers: usize,
    /// The size of the persist worker pool.
    pub persist_workers: usize,
    /// Fetch workers that have not yet observed end-of-stream.
    pub fetch_alive: usize,
    /// Persist workers that have not yet observed end-of-stream.
    pub persist_alive: usize,
    /// Requests dequeued and currently being fetched or transformed.
    pub fetching: usize,
    /// Results dequeued and currently being persisted.
    pub persisting: usize,
    /// Requests seeded so far.
    pub seeded: usize,
    /// Requests dropped by a transport failure.
    pub fetch_failed: usize,
    /// Requests dropped by a transform failure.
    pub transform_failed: usize,
    /// Results the sink stored.
    pub persisted: usize,
    /// Results the sink rejected.
    pub sink_failed: usize,
}

impl<T> Pipeline<T> {
    /// The pending requests.
    pub open spec fn requests(&self) -> Seq<Requester> {
        self.scheduler.requests@
    }

    /// The produced, not yet persisted results.
    pub open spec fn results(&self) -> Seq<T> {
        self.scheduler.results@
    }

    /// Whether seeding is still possible.
    pub open spec fn requests_open(&self) -> bool {
        self.scheduler.requests.is_open()
    }

    /// Whether fetch workers may still enqueue results.
    pub open spec fn results_open(&self) -> bool {
        self.scheduler.results.is_open()
    }

    /// Every worker of both pools has exited.
    pub open spec fn is_terminal(&self) -> bool {
        self.fetch_alive == 0 && self.persist_alive == 0
    }

    /// The invariant every step preserves. Besides structural bounds it
    /// carries the two keys of the design: the result channel is open
    /// exactly while fetch workers remain (the two-phase close), and the
    /// conservation identity — every seeded request is pending, in
    /// flight, dropped with a recorded failure, buffered, mid-persist,
    /// persisted, or rejected by the sink.
    pub open spec fn wf(&self) -> bool {
        &&& self.scheduler.wf()
        &&& self.scheduler.receiver_taken
        &&& self.concurrency >= 1
        &&& self.fetch_workers >= 1
        &&& self.persist_workers >= 1
        &&& self.fetching <= self.fetch_alive
        &&& self.fetching <= self.concurrency
        &&& self.persisting <= self.persist_alive
        &&& self.fetch_alive <= self.fetch_workers
        &&& self.persist_alive <= self.persist_workers
        &&& self.results_open() <==> self.fetch_alive > 0
        &&& self.results_open() ==> self.persist_alive == self.persist_workers
        &&& self.fetch_alive == 0 ==> !self.requests_open() && self.requests().len() == 0
        &&& self.persist_alive == 0 ==> self.results().len() == 0
        &&& self.seeded == self.requests().len() + self.fetching + self.fetch_failed
            + self.transform_failed + self.results().len() + self.persisting + self.persisted
            + self.sink_failed
    }

    /// The configuration never changes after construction.
    pub open spec fn same_config(pre: Self, post: Self) -> bool {
        &&& post.concurrency == pre.concurrency
        &&& post.fetch_workers == pre.fetch_workers
        &&& post.persist_workers == pre.persist_workers
        &&& post.scheduler.capacity == pre.scheduler.capacity
    }

    /// The progress measure: every worker step strictly shrinks it, so
    /// no infinite run exists once seeding has ended.
    pub open spec fn measure(&self) -> int {
        5 * self.requests().len() + 4 * self.fetching + 3 * self.results().len() + 2
            * self.persisting + self.fetch_alive + self.persist_alive + if self.requests_open() {
            1int
        } else {
            0int
        }
    }

    /// A fetch worker may dequeue a request: one is pending, a permit is
    /// free, and an idle worker exists.
    pub open spec fn can_fetch_begin(&self) -> bool {
        &&& self.requests().len() > 0
        &&& self.fetching < self.concurrency
        &&& self.fetching < self.fetch_alive
    }

    /// A fetch worker that produced a result may enqueue it: the result
    /// buffer has room. (A worker whose fetch or transform failed needs
    /// no room and can always finish.)
    pub open spec fn can_fetch_finish_produced(&self) -> bool {
        &&& self.fetching >= 1
        &&& self.results().len() < self.scheduler.capacity
    }

    /// A persist worker may dequeue a result.
    pub open spec fn can_persist_take(&self) -> bool {
        &&& self.results().len() > 0
        &&& self.persisting < self.persist_alive
    }

    /// A persist worker holding a result may record the sink's verdict.
    pub open spec fn can_persist_record(&self) -> bool {
        self.persisting >= 1
    }

    /// An idle fetch worker may observe end-of-stream and exit.
    pub open spec fn can_fetch_exit(&self) -> bool {
        &&& !self.requests_open()
        &&& self.requests().len() == 0
        &&& self.fetch_alive > self.fetching
    }

    /// An idle persist worker may observe end-of-stream and exit.
    pub open spec fn can_persist_exit(&self) -> bool {
        &&& !self.results_open()
        &&& self.results().len() == 0
        &&& self.persist_alive > self.persisting
    }

    /// Builds the state of a fresh run: queues allocated and split,
    /// every worker alive, nothing seeded yet.
    pub fn new(
        concurrency: usize,
        queue_capacity: usize,
        fetch_workers: usize,
        persist_workers: usize,
    ) -> (p: Pipeline<T>)
        requires
            concurrency >= 1,
            queue_capacity >= 1,
            fetch_workers >= 1,
            persist_workers >= 1,
        ensures
            p.wf(),
            p.concurrency == concurrency,
            p.scheduler.capacity == queue_capacity,
            p.fetch_workers == fetch_workers,
            p.persist_workers == persist_workers,
            p.fetch_alive == fetch_workers,
            p.persist_alive == persist_workers,
            p.fetching == 0,
            p.persisting == 0,
            p.seeded == 0,
            p.fetch_failed == 0,
            p.transform_failed == 0,
            p.persisted == 0,
            p.sink_failed == 0,
            p.requests().len() == 0,
            p.results().len() == 0,
            p.requests_open(),
    {
        let mut scheduler = Scheduler::<T>::new(queue_capacity);
        match scheduler.split() {
            Ok((sender, receiver)) => Pipeline {
                scheduler,
                sender,
                receiver,
                concurrency,
                fetch_workers,
                persist_workers,
                fetch_alive: fetch_workers,
                persist_alive: persist_workers,
                fetching: 0,
                persisting: 0,
                seeded: 0,
                fetch_failed: 0,
                transform_failed: 0,
                persisted: 0,
                sink_failed: 0,
            },
            Err(_) => unreached(),
        }
    }

    /// Seeds one request, if the request buffer has room. Returns false
    /// when the buffer is full; the seeder then lets workers drain it
    /// and retries.
    pub fn seed(&mut self, url: &str) -> (r: bool)
        requires
            old(self).wf(),
            old(self).requests_open(),
            old(self).seeded < usize::MAX,
        ensures
            final(self).wf(),
            Pipeline::same_config(*old(self), *final(self)),
            final(self).requests_open(),
            final(self).results() == old(self).results(),
            final(self).results_open() == old(self).results_open(),
            final(self).fetch_alive == old(self).fetch_alive,
            final(self).persist_alive == old(self).persist_alive,
            final(self).fetching == old(self).fetching,
            final(self).persisting == old(self).persisting,
            final(self).fetch_failed == old(self).fetch_failed,
            final(self).transform_failed == old(self).transform_failed,
            final(self).persisted == old(self).persisted,
            final(self).sink_failed == old(self).sink_failed,
            old(self).requests().len() == old(self).scheduler.capacity ==> !r && final(self).requests() == old(self).requests() && final(self).seeded == old(self).seeded,
            old(self).requests().len() < old(self).scheduler.capacity ==> {
                &&& r
                &&& final(self).seeded == old(self).seeded + 1
                &&& final(self).requests().len() == old(self).requests().len() + 1
                &&& final(self).requests().drop_last() == old(self).requests()
                &&& final(self).requests().last().url_spec() == url@
            },
    {
        if self.scheduler.requests.is_full() {
            false
        } else {
            let outcome = self.sender.add_request(&mut self.scheduler, url);
            self.seeded = self.seeded + 1;
            true
        }
    }

    /// Ends the seeding phase: closes the request channel, after which
    /// fetch workers drain what is buffered and then exit one by one.
    pub fn close_requests(&mut self)
        requires
            old(self).wf(),
            old(self).requests_open(),
        ensures
            final(self).wf(),
            Pipeline::same_config(*old(self), *final(self)),
            !final(self).requests_open(),
            final(self).requests() == old(self).requests(),
            final(self).results() == old(self).results(),
            final(self).results_open() == old(self).results_open(),
            final(self).fetch_alive == old(self).fetch_alive,
            final(self).persist_alive == old(self).persist_alive,
            final(self).fetching == old(self).fetching,
            final(self).persisting == old(self).persisting,
            final(self).seeded == old(self).seeded,
            final(self).fetch_failed == old(self).fetch_failed,
            final(self).transform_failed == old(self).transform_failed,
            final(self).persisted == old(self).persisted,
            final(self).sink_failed == old(self).sink_failed,
            final(self).measure() < old(self).measure(),
    {
        self.sender.close_requests(&mut self.scheduler);
    }

    /// A fetch worker dequeues the oldest pending request and goes to
    /// work on it, holding one unit of fetch concurrency.
    pub fn fetch_begin(&mut self) -> (r: Requester)
        requires
            old(self).wf(),
            old(self).can_fetch_begin(),
        ensures
            final(self).wf(),
            Pipeline::same_config(*old(self), *final(self)),
            r == old(self).requests()[0],
            final(self).requests() == old(self).requests().remove(0),
            final(self).fetching == old(self).fetching + 1,
            final(self).requests_open() == old(self).requests_open(),
            final(self).results() == old(self).results(),
            final(self).results_open() == old(self).results_open(),
            final(self).fetch_alive == old(self).fetch_alive,
            final(self).persist_alive == old(self).persist_alive,
            final(self).persisting == old(self).persisting,
            final(self).seeded == old(self).seeded,
            final(self).fetch_failed == old(self).fetch_failed,
            final(self).transform_failed == old(self).transform_failed,
            final(self).persisted == old(self).persisted,
            final(self).sink_failed == old(self).sink_failed,
            final(self).measure() < old(self).measure(),
    {
        let outcome = self.receiver.get_request(&mut self.scheduler);
        self.fetching = self.fetching + 1;
        match outcome {
            RecvOutcome::Item(req) => req,
            RecvOutcome::Empty => unreached(),
            RecvOutcome::EndOfStream => unreached(),
        }
    }

    /// The worker's fetch-and-transform ended: a produced result is
    /// enqueued, a failure is recorded and the item dropped. While any
    /// fetch is in flight the result channel is provably open, so a
    /// produced result is never lost.
    pub fn fetch_finish(&mut self, outcome: WorkOutcome<T>)
        requires
            old(self).wf(),
            old(self).fetching >= 1,
            outcome is Produced ==> old(self).results().len() < old(self).scheduler.capacity,
        ensures
            final(self).wf(),
            Pipeline::same_config(*old(self), *final(self)),
            final(self).fetching == old(self).fetching - 1,
            final(self).requests() == old(self).requests(),
            final(self).requests_open() == old(self).requests_open(),
            final(self).results_open() == old(self).results_open(),
            final(self).fetch_alive == old(self).fetch_alive,
            final(self).persist_alive == old(self).persist_alive,
            final(self).persisting == old(self).persisting,
            final(self).seeded == old(self).seeded,
            final(self).persisted == old(self).persisted,
            final(self).sink_failed == old(self).sink_failed,
            outcome matches WorkOutcome::Produced(t) ==> final(self).results() == old(self).results().push(t) && final(self).fetch_failed == old(self).fetch_failed && final(self).transform_failed == old(self).transform_failed,
            outcome is FetchFailed ==> final(self).results() == old(self).results() && final(self).fetch_failed == old(self).fetch_failed + 1 && final(self).transform_failed == old(self).transform_failed,
            outcome is TransformFailed ==> final(self).results() == old(self).results() && final(self).transform_failed == old(self).transform_failed + 1 && final(self).fetch_failed
                == old(self).fetch_failed,
            final(self).measure() < old(self).measure(),
    {
        self.fetching = self.fetching - 1;
        match outcome {
            WorkOutcome::Produced(data) => {
                self.sender.add_parsed_data(&mut self.scheduler, data);
            },
            WorkOutcome::FetchFailed => {
                self.fetch_failed = self.fetch_failed + 1;
            },
            WorkOutcome::TransformFailed => {
                self.transform_failed = self.transform_failed + 1;
            },
        }
    }

    /// A persist worker dequeues the oldest produced result and hands it
    /// to the sink.
    pub fn persist_take(&mut self) -> (r: T)
        requires
            old(self).wf(),
            old(self).can_persist_take(),
        ensures
            final(self).wf(),
            Pipeline::same_config(*old(self), *final(self)),
            r == old(self).results()[0],
            final(self).results() == old(self).results().remove(0),
            final(self).persisting == old(self).persisting + 1,
            final(self).requests() == old(self).requests(),
            final(self).requests_open() == old(self).requests_open(),
            final(self).results_open() == old(self).results_open(),
            final(self).fetch_alive == old(self).fetch_alive,
            final(self).persist_alive == old(self).persist_alive,
            final(self).fetching == old(self).fetching,
            final(self).seeded == old(self).seeded,
            final(self).fetch_failed == old(self).fetch_failed,
            final(self).transform_failed == old(self).transform_failed,
            final(self).persisted == old(self).persisted,
            final(self).sink_failed == old(self).sink_failed,
            final(self).measure() < old(self).measure(),
    {
        let outcome = self.receiver.get_parsed_data(&mut self.scheduler);
        self.persisting = self.persisting + 1;
        match outcome {
            RecvOutcome::Item(data) => data,
            RecvOutcome::Empty => unreached(),
            RecvOutcome::EndOfStream => unreached(),
        }
    }

    /// The sink's verdict on the result the worker was persisting:
    /// stored, or rejected — either way the worker moves on and the
    /// batch continues.
    pub fn persist_record(&mut self, ok: bool)
        requires
            old(self).wf(),
            old(self).persisting >= 1,
        ensures
            final(self).wf(),
            Pipeline::same_config(*old(self), *final(self)),
            final(self).persisting == old(self).persisting - 1,
            ok ==> final(self).persisted == old(self).persisted + 1 && final(self).sink_failed
                == old(self).sink_failed,
            !ok ==> final(self).sink_failed == old(self).sink_failed + 1 && final(self).persisted
                == old(self).persisted,
            final(self).requests() == old(self).requests(),
            final(self).requests_open() == old(self).requests_open(),
            final(self).results() == old(self).results(),
            final(self).results_open() == old(self).results_open(),
            final(self).fetch_alive == old(self).fetch_alive,
            final(self).persist_alive == old(self).persist_alive,
            final(self).fetching == old(self).fetching,
            final(self).seeded == old(self).seeded,
            final(self).fetch_failed == old(self).fetch_failed,
            final(self).transform_failed == old(self).transform_failed,
            final(self).measure() < old(self).measure(),
    {
        self.persisting = self.persisting - 1;
        if ok {
            self.persisted = self.persisted + 1;
        } else {
            self.sink_failed = self.sink_failed + 1;
        }
    }

    /// An idle fetch worker observes end-of-stream on the drained,
    /// closed request channel and exits. The last one to exit plays
    /// drain coordinator: only then is the result channel closed, so
    /// persist workers can in turn drain it and terminate.
    pub fn fetch_exit(&mut self)
        requires
            old(self).wf(),
            old(self).can_fetch_exit(),
        ensures
            final(self).wf(),
            Pipeline::same_config(*old(self), *final(self)),
            final(self).fetch_alive == old(self).fetch_alive - 1,
            final(self).results_open() == (old(self).fetch_alive > 1),
            final(self).requests() == old(self).requests(),
            final(self).requests_open() == old(self).requests_open(),
            final(self).results() == old(self).results(),
            final(self).persist_alive == old(self).persist_alive,
            final(self).fetching == old(self).fetching,
            final(self).persisting == old(self).persisting,
            final(self).seeded == old(self).seeded,
            final(self).fetch_failed == old(self).fetch_failed,
            final(self).transform_failed == old(self).transform_failed,
            final(self).persisted == old(self).persisted,
            final(self).sink_failed == old(self).sink_failed,
            final(self).measure() < old(self).measure(),
    {
        self.receiver.get_request(&mut self.scheduler);
        self.fetch_alive = self.fetch_alive - 1;
        if self.fetch_alive == 0 {
            self.sender.close_results(&mut self.scheduler);
        }
    }

    /// An idle persist worker observes end-of-stream on the drained,
    /// closed result channel and exits.
    pub fn persist_exit(&mut self)
        requires
            old(self).wf(),
            old(self).can_persist_exit(),
        ensures
            final(self).wf(),
            Pipeline::same_config(*old(self), *final(self)),
            final(self).persist_alive == old(self).persist_alive - 1,
            final(self).requests() == old(self).requests(),
            final(self).requests_open() == old(self).requests_open(),
            final(self).results() == old(self).results(),
            final(self).results_open() == old(self).results_open(),
            final(self).fetch_alive == old(self).fetch_alive,
            final(self).fetching == old(self).fetching,
            final(self).persisting == old(self).persisting,
            final(self).seeded == old(self).seeded,
            final(self).fetch_failed == old(self).fetch_failed,
            final(self).transform_failed == old(self).transform_failed,
            final(self).persisted == old(self).persisted,
            final(self).sink_failed == old(self).sink_failed,
            final(self).measure() < old(self).measure(),
    {
        self.receiver.get_parsed_data(&mut self.scheduler);
        self.persist_alive = self.persist_alive - 1;
    }
}

/// Two-phase close safety: while any fetch is in flight, the result
/// channel is still open. Closing it earlier would drop the in-flight
/// result; the drain protocol closes it only after the last fetch
/// worker — which can hold no item — has exited.
pub proof fn lemma_no_early_close<T>(p: Pipeline<T>)
    requires
        p.wf(),
        p.fetching >= 1,
    ensures
        p.results_open(),
{
}

/// No loss: in a finished run in which no per-item failure was
/// recorded, exactly as many items were persisted as were seeded —
/// whatever the pool sizes, capacities and interleaving were.
pub proof fn lemma_no_loss<T>(p: Pipeline<T>)
    requires
        p.wf(),
        p.is_terminal(),
        p.fetch_failed == 0,
        p.transform_failed == 0,
        p.sink_failed == 0,
    ensures
        p.persisted == p.seeded,
{
}

/// Error containment: per-item failures only ever cost the failed items
/// themselves. In a finished run every seeded request is accounted for
/// by exactly one outcome; with transport and sink sound, the persisted
/// count is the seeded count minus the transform failures.
pub proof fn lemma_error_containment<T>(p: Pipeline<T>)
    requires
        p.wf(),
        p.is_terminal(),
        p.fetch_failed == 0,
        p.sink_failed == 0,
    ensures
        p.persisted + p.transform_failed == p.seeded,
        p.transform_failed >= 1 ==> p.persisted < p.seeded && p.seeded >= 1,
{
}

/// No deadlock: once seeding has ended, a well-formed state in which
/// some worker remains always enables a step. A worker whose item
/// failed can always finish, so the only step that can wait — enqueuing
/// a produced result into a full buffer — is covered by an enabled
/// persist step that will drain it.
pub proof fn lemma_no_deadlock<T>(p: Pipeline<T>)
    requires
        p.wf(),
        !p.requests_open(),
        !p.is_terminal(),
    ensures
        p.can_fetch_begin() || p.can_fetch_finish_produced() || p.can_fetch_exit()
            || p.can_persist_take() || p.can_persist_record() || p.can_persist_exit(),
{
    if p.fetch_alive > 0 {
        if p.fetching > 0 {
            if p.results().len() < p.scheduler.capacity {
                assert(p.can_fetch_finish_produced());
            } else {
                assert(p.results_open());
                assert(p.persist_alive == p.persist_workers);
                if p.persisting < p.persist_alive {
                    assert(p.can_persist_take());
                } else {
                    assert(p.can_persist_record());
                }
            }
        } else {
            if p.requests().len() > 0 {
                assert(p.can_fetch_begin());
            } else {
                assert(p.can_fetch_exit());
            }
        }
    } else {
        assert(!p.results_open());
        if p.persisting >= 1 {
            assert(p.can_persist_record());
        } else if p.results().len() > 0 {
            assert(p.can_persist_take());
        } else {
            assert(p.can_persist_exit());
        }
    }
}

/// Runs one finite batch to completion: seeds every URL, fans the work
/// out over the configured pools' worth of state, drains both channels
/// and retires every worker. The report satisfies the conservation
/// identity; in particular, when no stage failed, exactly one item was
/// persisted per seeded URL.
pub fn run_batch<F: Fetcher, P: Parser, S: Saver<P::Output>>(
    fetcher: &F,
    parser: &P,
    saver: &S,
    urls: &Vec<String>,
    concurrency: usize,
    queue_capacity: usize,
    fetch_workers: usize,
    persist_workers: usize,
) -> (report: BatchReport)
    requires
        concurrency >= 1,
        queue_capacity >= 1,
        fetch_workers >= 1,
        persist_workers >= 1,
    ensures
        report.seeded == urls@.len(),
        report.persisted + report.sink_failed + report.fetch_failed + report.transform_failed
            == report.seeded,
        report.fetch_failed == 0 && report.sink_failed == 0 ==> report.persisted
            + report.transform_failed == urls@.len(),
        report.fetch_failed == 0 && report.transform_failed == 0 && report.sink_failed == 0
            ==> report.persisted == urls@.len(),
{
    let mut p = Pipeline::<P::Output>::new(
        concurrency,
        queue_capacity,
        fetch_workers,
        persist_workers,
    );
    let mut i: usize = 0;
    let n: usize = urls.len();
    while i < n || p.fetch_alive > 0 || p.persist_alive > 0
        invariant
            p.wf(),
            i <= n,
            n == urls@.len(),
            p.seeded == i,
            p.fetching == 0,
            p.persisting == 0,
            i < n ==> p.requests_open(),
        decreases 6 * (n - i) + p.measure(),
    {
        if p.scheduler.results.len() > 0 && p.persist_alive > 0 {
            let item = p.persist_take();
            let ok = match saver.save(item) {
                Ok(_) => true,
                Err(_) => false,
            };
            p.persist_record(ok);
        } else if p.persist_alive > 0 && !p.scheduler.results.is_open_now() {
            p.persist_exit();
        } else if p.scheduler.requests.len() > 0 {
            let req = p.fetch_begin();
            match fetcher.fetch(&req) {
                Ok(content) => match parser.parse(content.as_str()) {
                    Ok(data) => p.fetch_finish(WorkOutcome::Produced(data)),
                    Err(_) => p.fetch_finish(WorkOutcome::TransformFailed),
                },
                Err(_) => p.fetch_finish(WorkOutcome::FetchFailed),
            }
        } else if i < n {
            p.seed(urls[i].as_str());
            i += 1;
        } else if p.scheduler.requests.is_open_now() {
            p.close_requests();
        } else if p.fetch_alive > 0 {
            p.fetch_exit();
        } else {
            // Every guard above is false only once both pools have
            // drained and every URL is seeded, and then the loop guard
            // itself is false: this arm cannot be reached.
            proof {
                assert(false);
            }
        }
    }
    BatchReport {
        seeded: p.seeded,
        fetch_failed: p.fetch_failed,
        transform_failed: p.transform_failed,
        persisted: p.persisted,
        sink_failed: p.sink_failed,
    }
}

} // verus!
