//! The work queue: two bounded channels and the split-once protocol.
//!
//! A [`Scheduler`] owns a request channel and a result channel, created
//! together with one capacity. Splitting it yields a producer handle
//! ([`SchedulerSender`]) and a consumer handle ([`SchedulerReceiver`])
//! exactly once; a second split fails with a scheduling error, since it
//! signals a programming error in the setup, not a runtime condition.
//! The handles are capabilities: every queue operation goes through one
//! of them together with mutable access to the scheduler that issued it.

use vstd::prelude::*;

use crate::channel::Channel;
use crate::channel::RecvOutcome;
use crate::channel::SendOutcome;
use crate::errors::SchedulingError;
use crate::requester::Requester;

verus! {

/// The dual-channel work queue of one pipeline run.
pub struct Scheduler<T> {
    /// Pending fetch requests.
    pub requests: Channel<Requester>,
    /// Produced, not yet persisted results.
    pub results: Channel<T>,
    /// The capacity both channels were created with.
    pub capacity: usize,
    /// Whether the handles have already been taken by `split`.
    pub receiver_taken: bool,
}

/// The enqueue-only capability of a split scheduler.
#[derive(Debug)]
pub struct SchedulerSender {
    _private: (),
}

/// The dequeue-only capability of a split scheduler.
#[derive(Debug)]
pub struct SchedulerReceiver {
    _private: (),
}

impl<T> Scheduler<T> {
    /// Both channels are consistent and share the configured capacity.
    pub open spec fn wf(&self) -> bool {
        &&& self.requests.wf()
        &&& self.results.wf()
        &&& self.requests.cap() == self.capacity
        &&& self.results.cap() == self.capacity
    }

    /// Allocates the two bounded channels, both open and empty, with the
    /// handles not yet taken.
    pub fn new(capacity: usize) -> (s: Scheduler<T>)
        requires
            capacity >= 1,
        ensures
            s.wf(),
            s.capacity == capacity,
            !s.receiver_taken,
            s.requests@ == Seq::<Requester>::empty(),
            s.results@ == Seq::<T>::empty(),
            s.requests.is_open(),
            s.results.is_open(),
    {
        Scheduler {
            requests: Channel::new(capacity),
            results: Channel::new(capacity),
            capacity,
            receiver_taken: false,
        }
    }

    /// Hands out the producer/consumer capabilities, exactly once. The
    /// first call succeeds and leaves the channels untouched; every
    /// later call fails with a scheduling error and changes nothing.
    pub fn split(&mut self) -> (r: Result<(SchedulerSender, SchedulerReceiver), SchedulingError>)
        ensures
            final(self).requests == old(self).requests,
            final(self).results == old(self).results,
            final(self).capacity == old(self).capacity,
            !old(self).receiver_taken ==> r is Ok && final(self).receiver_taken,
            old(self).receiver_taken ==> r == Result::<(SchedulerSender, SchedulerReceiver),
                SchedulingError,
            >::Err(SchedulingError::ReceiverAlreadyTaken) && final(self).receiver_taken,
    {
        if self.receiver_taken {
            Err(SchedulingError::ReceiverAlreadyTaken)
        } else {
            self.receiver_taken = true;
            Ok((SchedulerSender { _private: () }, SchedulerReceiver { _private: () }))
        }
    }
}

impl SchedulerSender {
    /// Enqueues one request for `url` with no user-agent set.
    pub fn add_request<T>(&self, sched: &mut Scheduler<T>, url: &str) -> (r: SendOutcome<
        Requester,
    >)
        requires
            old(sched).wf(),
        ensures
            final(sched).wf(),
            final(sched).capacity == old(sched).capacity,
            final(sched).results == old(sched).results,
            final(sched).receiver_taken == old(sched).receiver_taken,
            final(sched).requests.is_open() == old(sched).requests.is_open(),
            !old(sched).requests.is_open() ==> r is Closed && final(sched).requests@ == old(sched).requests@,
            old(sched).requests.is_open() && old(sched).requests@.len() == old(sched).capacity
                ==> r is Full && final(sched).requests@ == old(sched).requests@,
            old(sched).requests.is_open() && old(sched).requests@.len() < old(sched).capacity ==> {
                &&& r is Sent
                &&& final(sched).requests@.len() == old(sched).requests@.len() + 1
                &&& final(sched).requests@.drop_last() == old(sched).requests@
                &&& final(sched).requests@.last().url_spec() == url@
                &&& final(sched).requests@.last().user_agent_spec() is None
            },
    {
        let req = Requester::new(url);
        let r = sched.requests.try_send(req);
        proof {
            if old(sched).requests.is_open() && old(sched).requests@.len() < old(sched).capacity {
                assert(sched.requests@.drop_last() =~= old(sched).requests@);
            }
        }
        r
    }

    /// Enqueues the URLs in order as fresh requests, as many as the
    /// channel has room for, and returns how many went in: the whole
    /// batch when it fits, otherwise exactly the fitting prefix — the
    /// caller submits the rest once consumers have drained the queue
    /// (backpressure). Fails if the request channel is already closed,
    /// in which case nothing is enqueued.
    pub fn add_requests<T>(&self, sched: &mut Scheduler<T>, urls: Vec<String>) -> (r: Result<
        usize,
        SchedulingError,
    >)
        requires
            old(sched).wf(),
        ensures
            final(sched).wf(),
            final(sched).capacity == old(sched).capacity,
            final(sched).results == old(sched).results,
            final(sched).receiver_taken == old(sched).receiver_taken,
            final(sched).requests.is_open() == old(sched).requests.is_open(),
            !old(sched).requests.is_open() ==> r == Result::<usize, SchedulingError>::Err(
                SchedulingError::ChannelClosed,
            ) && final(sched).requests@ == old(sched).requests@,
            old(sched).requests.is_open() ==> {
                &&& r matches Ok(enqueued)
                &&& enqueued as int == (if old(sched).requests@.len() + urls@.len() <= old(
                    sched,
                ).capacity {
                    urls@.len() as int
                } else {
                    old(sched).capacity - old(sched).requests@.len()
                })
                &&& final(sched).requests@.len() == old(sched).requests@.len() + enqueued
                &&& final(sched).requests@.subrange(0, old(sched).requests@.len() as int) == old(sched).requests@
                &&& forall|i: int|
                    0 <= i < enqueued ==> {
                        &&& (#[trigger] final(sched).requests@[old(sched).requests@.len() + i]).url_spec()
                            == urls@[i]@
                        &&& final(sched).requests@[old(sched).requests@.len() + i].user_agent_spec() is None
                    }
            },
    {
        if !sched.requests.is_open_now() {
            return Err(SchedulingError::ChannelClosed);
        }
        let mut i: usize = 0;
        let n: usize = urls.len();
        while i < n
            invariant
                old(sched).wf(),
                sched.wf(),
                i <= n,
                n == urls@.len(),
                old(sched).requests.is_open(),
                sched.capacity == old(sched).capacity,
                sched.results == old(sched).results,
                sched.receiver_taken == old(sched).receiver_taken,
                sched.requests.is_open(),
                sched.requests@.len() == old(sched).requests@.len() + i,
                sched.requests@.subrange(0, old(sched).requests@.len() as int) == old(sched).requests@,
                forall|j: int|
                    0 <= j < i ==> {
                        &&& (#[trigger] sched.requests@[old(sched).requests@.len() + j]).url_spec()
                            == urls@[j]@
                        &&& sched.requests@[old(sched).requests@.len() + j].user_agent_spec() is None
                    },
            decreases n - i,
        {
            if sched.requests.is_full() {
                // The fitting prefix is in; the caller retries the rest
                // once consumers have made room.
                return Ok(i);
            }
            let ghost pre = sched.requests@;
            let outcome = self.add_request(sched, urls[i].as_str());
            proof {
                assert(pre.len() < sched.capacity);
                assert(sched.requests@.drop_last() == pre);
                assert forall|k: int| 0 <= k < pre.len() implies sched.requests@[k] == pre[k] by {
                    assert(sched.requests@.drop_last()[k] == sched.requests@[k]);
                }
                assert(sched.requests@.subrange(0, old(sched).requests@.len() as int) =~= old(sched).requests@);
                assert forall|j: int| 0 <= j <= i implies (#[trigger] sched.requests@[old(sched).requests@.len() + j]).url_spec() == urls@[j]@
                    && sched.requests@[old(sched).requests@.len() + j].user_agent_spec() is None by {
                    if j < i {
                        assert(sched.requests@[old(sched).requests@.len() + j] == pre[old(sched).requests@.len() + j]);
                        assert((pre[old(sched).requests@.len() + j]).url_spec() == urls@[j]@);
                        assert(pre[old(sched).requests@.len() + j].user_agent_spec() is None);
                    } else {
                        assert(sched.requests@[old(sched).requests@.len() + j] == sched.requests@.last());
                    }
                }
            }
            i += 1;
        }
        Ok(i)
    }

    /// Enqueues one transformed result.
    pub fn add_parsed_data<T>(&self, sched: &mut Scheduler<T>, data: T) -> (r: SendOutcome<T>)
        requires
            old(sched).wf(),
        ensures
            final(sched).wf(),
            final(sched).capacity == old(sched).capacity,
            final(sched).requests == old(sched).requests,
            final(sched).receiver_taken == old(sched).receiver_taken,
            final(sched).results.is_open() == old(sched).results.is_open(),
            !old(sched).results.is_open() ==> r == SendOutcome::Closed(data) && final(sched).results@ == old(sched).results@,
            old(sched).results.is_open() && old(sched).results@.len() == old(sched).capacity ==> r
                == SendOutcome::Full(data) && final(sched).results@ == old(sched).results@,
            old(sched).results.is_open() && old(sched).results@.len() < old(sched).capacity ==> r
                == SendOutcome::<T>::Sent && final(sched).results@ == old(sched).results@.push(
                data,
            ),
    {
        sched.results.try_send(data)
    }

    /// Closes the request channel: seeding is finished. Consumers drain
    /// what is buffered and then observe end-of-stream.
    pub fn close_requests<T>(&self, sched: &mut Scheduler<T>)
        ensures
            final(sched).requests@ == old(sched).requests@,
            final(sched).requests.cap() == old(sched).requests.cap(),
            !final(sched).requests.is_open(),
            final(sched).results == old(sched).results,
            final(sched).capacity == old(sched).capacity,
            final(sched).receiver_taken == old(sched).receiver_taken,
    {
        sched.requests.close();
    }

    /// Closes the result channel. Only the drain coordinator may do
    /// this, once every fetch worker has stopped enqueuing.
    pub fn close_results<T>(&self, sched: &mut Scheduler<T>)
        ensures
            final(sched).results@ == old(sched).results@,
            final(sched).results.cap() == old(sched).results.cap(),
            !final(sched).results.is_open(),
            final(sched).requests == old(sched).requests,
            final(sched).capacity == old(sched).capacity,
            final(sched).receiver_taken == old(sched).receiver_taken,
    {
        sched.results.close();
    }
}

impl SchedulerReceiver {
    /// Dequeues the oldest pending request, reports that the stream has
    /// ended, or asks the worker to retry once a producer has run.
    pub fn get_request<T>(&self, sched: &mut Scheduler<T>) -> (r: RecvOutcome<Requester>)
        requires
            old(sched).wf(),
        ensures
            final(sched).wf(),
            final(sched).capacity == old(sched).capacity,
            final(sched).results == old(sched).results,
            final(sched).receiver_taken == old(sched).receiver_taken,
            final(sched).requests.is_open() == old(sched).requests.is_open(),
            old(sched).requests@.len() > 0 ==> r == RecvOutcome::Item(old(sched).requests@[0])
                && final(sched).requests@ == old(sched).requests@.remove(0),
            old(sched).requests@.len() == 0 && old(sched).requests.is_open() ==> r
                == RecvOutcome::<Requester>::Empty && final(sched).requests@ == old(sched).requests@,
            old(sched).requests@.len() == 0 && !old(sched).requests.is_open() ==> r
                == RecvOutcome::<Requester>::EndOfStream && final(sched).requests@ == old(sched).requests@,
    {
        sched.requests.try_recv()
    }

    /// Dequeues the oldest produced result, reports end-of-stream, or
    /// asks the worker to retry.
    pub fn get_parsed_data<T>(&self, sched: &mut Scheduler<T>) -> (r: RecvOutcome<T>)
        requires
            old(sched).wf(),
        ensures
            final(sched).wf(),
            final(sched).capacity == old(sched).capacity,
            final(sched).requests == old(sched).requests,
            final(sched).receiver_taken == old(sched).receiver_taken,
            final(sched).results.is_open() == old(sched).results.is_open(),
            old(sched).results@.len() > 0 ==> r == RecvOutcome::Item(old(sched).results@[0])
                && final(sched).results@ == old(sched).results@.remove(0),
            old(sched).results@.len() == 0 && old(sched).results.is_open() ==> r
                == RecvOutcome::<T>::Empty && final(sched).results@ == old(sched).results@,
            old(sched).results@.len() == 0 && !old(sched).results.is_open() ==> r
                == RecvOutcome::<T>::EndOfStream && final(sched).results@ == old(sched).results@,
    {
        sched.results.try_recv()
    }
}

} // verus!
