//! Bounded FIFO channels.
//!
//! A [`Channel`] models one half of the dual-channel work queue: a
//! first-in first-out buffer of fixed capacity that can be closed from
//! the producer side. Sends and receives are non-blocking here; a caller
//! that would block in a concurrent setting instead observes
//! [`SendOutcome::Full`] or [`RecvOutcome::Empty`] and retries once the
//! other side has made progress. A closed, drained channel reports
//! end-of-stream, which is the sole termination signal of the worker
//! loops built on top of it.

use vstd::prelude::*;

verus! {

/// Outcome of a non-blocking send.
#[derive(Debug)]
pub enum SendOutcome<T> {
    /// The value was appended to the buffer.
    Sent,
    /// The buffer is at capacity; the value is handed back so the caller
    /// can retry once the consumer has drained an item (backpressure).
    Full(T),
    /// The channel is closed; the value is handed back. No value ever
    /// enters a closed channel.
    Closed(T),
}

/// Outcome of a non-blocking receive.
#[derive(Debug)]
pub enum RecvOutcome<T> {
    /// The oldest buffered value.
    Item(T),
    /// The buffer is empty but the channel is still open; more values
    /// may arrive and the caller should retry.
    Empty,
    /// The channel is closed and drained: end of stream.
    EndOfStream,
}

/// A bounded FIFO channel with a producer-side close.
pub struct Channel<T> {
    items: Vec<T>,
    capacity: usize,
    open: bool,
}

impl<T> View for Channel<T> {
    type V = Seq<T>;

    /// The buffered values, oldest first.
    closed spec fn view(&self) -> Seq<T> {
        self.items@
    }
}

impl<T> Channel<T> {
    /// The fixed capacity of the buffer.
    pub closed spec fn cap(&self) -> int {
        self.capacity as int
    }

    /// Whether the producer side is still open.
    pub closed spec fn is_open(&self) -> bool {
        self.open
    }

    /// A channel never buffers more values than its capacity, and the
    /// capacity is positive.
    pub open spec fn wf(&self) -> bool {
        &&& self@.len() <= self.cap()
        &&& self.cap() >= 1
    }

    /// Allocates an open, empty channel of the given capacity.
    pub fn new(capacity: usize) -> (c: Channel<T>)
        requires
            capacity >= 1,
        ensures
            c.wf(),
            c@ == Seq::<T>::empty(),
            c.cap() == capacity,
            c.is_open(),
    {
        Channel { items: Vec::new(), capacity, open: true }
    }

    /// The number of buffered values.
    pub fn len(&self) -> (n: usize)
        ensures
            n == self@.len(),
    {
        self.items.len()
    }

    /// Whether the buffer is empty.
    pub fn is_empty(&self) -> (r: bool)
        ensures
            r == (self@.len() == 0),
    {
        self.items.len() == 0
    }

    /// Whether the buffer is at capacity.
    pub fn is_full(&self) -> (r: bool)
        ensures
            r == (self@.len() == self.cap()),
    {
        self.items.len() == self.capacity
    }

    /// Whether the producer side is still open.
    pub fn is_open_now(&self) -> (r: bool)
        ensures
            r == self.is_open(),
    {
        self.open
    }

    /// Closes the producer side. Buffered values stay receivable; once
    /// they are drained the channel reports end-of-stream.
    pub fn close(&mut self)
        ensures
            final(self)@ == old(self)@,
            final(self).cap() == old(self).cap(),
            !final(self).is_open(),
    {
        self.open = false;
    }

    /// Appends a value if the channel is open and below capacity.
    pub fn try_send(&mut self, value: T) -> (r: SendOutcome<T>)
        requires
            old(self).wf(),
        ensures
            final(self).wf(),
            final(self).cap() == old(self).cap(),
            final(self).is_open() == old(self).is_open(),
            !old(self).is_open() ==> r == SendOutcome::Closed(value) && final(self)@ == old(self)@,
            old(self).is_open() && old(self)@.len() == old(self).cap() ==> r
                == SendOutcome::Full(value) && final(self)@ == old(self)@,
            old(self).is_open() && old(self)@.len() < old(self).cap() ==> r
                == SendOutcome::<T>::Sent && final(self)@ == old(self)@.push(value),
    {
        if !self.open {
            SendOutcome::Closed(value)
        } else if self.items.len() == self.capacity {
            SendOutcome::Full(value)
        } else {
            self.items.push(value);
            SendOutcome::Sent
        }
    }

    /// Removes and returns the oldest value, if any; otherwise reports
    /// whether the stream has ended or the caller should retry.
    pub fn try_recv(&mut self) -> (r: RecvOutcome<T>)
        requires
            old(self).wf(),
        ensures
            final(self).wf(),
            final(self).cap() == old(self).cap(),
            final(self).is_open() == old(self).is_open(),
            old(self)@.len() > 0 ==> r == RecvOutcome::Item(old(self)@[0])
                && final(self)@ == old(self)@.remove(0),
            old(self)@.len() == 0 && old(self).is_open() ==> r == RecvOutcome::<T>::Empty
                && final(self)@ == old(self)@,
            old(self)@.len() == 0 && !old(self).is_open() ==> r == RecvOutcome::<T>::EndOfStream
                && final(self)@ == old(self)@,
    {
        if self.items.len() > 0 {
            let v = self.items.remove(0);
            RecvOutcome::Item(v)
        } else if self.open {
            RecvOutcome::Empty
        } else {
            RecvOutcome::EndOfStream
        }
    }
}

} // verus!
