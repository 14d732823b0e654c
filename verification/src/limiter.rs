//! The fetch limiter: a fixed pool of permits that bounds both the
//! number of simultaneous fetches and the rate at which they complete.
//!
//! A worker acquires one [`PermitSlot`] before a network call and hands
//! it back on every exit path. After a successful fetch the slot stays
//! unavailable for the configured delay beyond the moment the response
//! was fully received, so the next fetch on that slot cannot start — and
//! therefore cannot complete — until the delay has elapsed. A failed
//! fetch frees its slot at once, with no extra delay. Time enters the
//! limiter as caller-supplied millisecond readings of a monotonic clock;
//! the contracts state what holds whenever those readings respect the
//! preconditions.

use vstd::prelude::*;

verus! {

/// One unit of fetch concurrency.
pub struct PermitSlot {
    /// Whether a fetch currently holds this slot.
    pub busy: bool,
    /// When the current holder acquired the slot (meaningful while busy).
    pub acquired_at: u64,
    /// Whether any fetch has completed successfully on this slot yet.
    pub completed: bool,
    /// The time of the most recent successful completion on this slot
    /// (meaningful once completed).
    pub last_completion: u64,
    /// The earliest time at which the slot may be acquired again. Only a
    /// successful completion pushes it forward.
    pub free_at: u64,
}

impl PermitSlot {
    /// The internal consistency of one slot under delay `delay_ms`: the
    /// slot frees exactly one delay after its last successful
    /// completion, and a holder can only have acquired it once it was
    /// free.
    pub open spec fn wf(&self, delay_ms: u64) -> bool {
        &&& self.completed ==> self.free_at == self.last_completion + delay_ms
        &&& !self.completed ==> self.free_at == 0 && self.last_completion == 0
        &&& self.busy ==> self.acquired_at >= self.free_at
    }
}

/// A fixed pool of permit slots shared by all fetch workers.
pub struct FetchLimiter {
    /// The permit slots; the pool size is the concurrency ceiling.
    pub slots: Vec<PermitSlot>,
    /// The delay, in milliseconds, held after each completed fetch
    /// before the permit frees up again.
    pub delay_ms: u64,
}

/// How many of the first `n` slots are currently held.
pub open spec fn busy_count(s: Seq<PermitSlot>, n: int) -> int
    decreases n,
{
    if n <= 0 {
        0
    } else {
        busy_count(s, n - 1) + if s[n - 1].busy {
            1int
        } else {
            0int
        }
    }
}

/// At most `n` of the first `n` slots can be held.
pub proof fn lemma_busy_count_le(s: Seq<PermitSlot>, n: int)
    requires
        0 <= n,
    ensures
        0 <= busy_count(s, n) <= n,
    decreases n,
{
    if n > 0 {
        lemma_busy_count_le(s, n - 1);
    }
}

/// Updating one slot changes the busy count by that slot's change alone.
pub proof fn lemma_busy_count_update(s: Seq<PermitSlot>, n: int, i: int, v: PermitSlot)
    requires
        0 <= i < s.len(),
        0 <= n <= s.len(),
    ensures
        busy_count(s.update(i, v), n) == busy_count(s, n) + if i < n {
            (if v.busy {
                1int
            } else {
                0int
            }) - (if s[i].busy {
                1int
            } else {
                0int
            })
        } else {
            0int
        },
    decreases n,
{
    if n > 0 {
        lemma_busy_count_update(s, n - 1, i, v);
    }
}

impl FetchLimiter {
    /// The concurrency ceiling: the size of the permit pool.
    pub open spec fn capacity(&self) -> int {
        self.slots@.len() as int
    }

    /// How many fetches are in flight right now.
    pub open spec fn in_flight(&self) -> int {
        busy_count(self.slots@, self.slots@.len() as int)
    }

    /// Every slot is internally consistent and the pool is non-empty.
    pub open spec fn wf(&self) -> bool {
        &&& self.capacity() >= 1
        &&& forall|i: int|
            0 <= i < self.slots@.len() ==> #[trigger] self.slots@[i].wf(self.delay_ms)
    }

    /// The concurrency bound: however many workers contend for permits,
    /// the number of in-flight fetches never exceeds the pool size.
    pub proof fn lemma_concurrency_bound(&self)
        ensures
            self.in_flight() <= self.capacity(),
    {
        lemma_busy_count_le(self.slots@, self.slots@.len() as int);
    }

    /// Builds a pool of `concurrent_requests` free permits with the
    /// given post-completion delay.
    pub fn new(concurrent_requests: usize, delay_ms: u64) -> (l: FetchLimiter)
        requires
            concurrent_requests >= 1,
        ensures
            l.wf(),
            l.capacity() == concurrent_requests,
            l.delay_ms == delay_ms,
            l.in_flight() == 0,
            forall|i: int| 0 <= i < concurrent_requests ==> #[trigger] l.slots@[i] == (PermitSlot {
                busy: false,
                acquired_at: 0,
                completed: false,
                last_completion: 0,
                free_at: 0,
            }),
    {
        let mut slots: Vec<PermitSlot> = Vec::new();
        let mut i: usize = 0;
        while i < concurrent_requests
            invariant
                i <= concurrent_requests,
                slots@.len() == i,
                forall|j: int| 0 <= j < i ==> #[trigger] slots@[j] == (PermitSlot {
                    busy: false,
                    acquired_at: 0,
                    completed: false,
                    last_completion: 0,
                    free_at: 0,
                }),
            decreases concurrent_requests - i,
        {
            slots.push(
                PermitSlot {
                    busy: false,
                    acquired_at: 0,
                    completed: false,
                    last_completion: 0,
                    free_at: 0,
                },
            );
            i += 1;
        }
        let l = FetchLimiter { slots, delay_ms };
        proof {
            lemma_busy_count_all_free(l.slots@, l.slots@.len() as int);
        }
        l
    }

    /// Tries to acquire a permit at time `now`: returns the index of a
    /// slot that is neither held nor still cooling down, if one exists.
    pub fn try_acquire(&mut self, now: u64) -> (r: Option<usize>)
        requires
            old(self).wf(),
        ensures
            final(self).wf(),
            final(self).capacity() == old(self).capacity(),
            final(self).delay_ms == old(self).delay_ms,
            r matches Some(i) ==> {
                &&& 0 <= i < old(self).slots@.len()
                &&& !old(self).slots@[i as int].busy
                &&& old(self).slots@[i as int].free_at <= now
                &&& final(self).slots@ == old(self).slots@.update(
                    i as int,
                    PermitSlot { busy: true, acquired_at: now, ..old(self).slots@[i as int] },
                )
                &&& final(self).in_flight() == old(self).in_flight() + 1
            },
            r is None ==> *final(self) == *old(self) && (forall|i: int|
                0 <= i < old(self).slots@.len() ==> #[trigger] old(self).slots@[i].busy || old(
                    self,
                ).slots@[i].free_at > now),
    {
        let n = self.slots.len();
        let mut i: usize = 0;
        while i < n
            invariant
                self == old(self),
                n == self.slots@.len(),
                i <= n,
                old(self).wf(),
                forall|j: int|
                    0 <= j < i ==> #[trigger] self.slots@[j].busy || self.slots@[j].free_at > now,
            decreases n - i,
        {
            let slot = &self.slots[i];
            if !slot.busy && slot.free_at <= now {
                let ghost s_old = self.slots@;
                let updated = PermitSlot { busy: true, acquired_at: now, ..self.slots[i] };
                self.slots.set(i, updated);
                proof {
                    lemma_busy_count_update(s_old, s_old.len() as int, i as int, updated);
                    assert(s_old[i as int].wf(self.delay_ms));
                    assert forall|j: int|
                        0 <= j < self.slots@.len() implies #[trigger] self.slots@[j].wf(
                        self.delay_ms,
                    ) by {
                        if j != i as int {
                            assert(self.slots@[j] == s_old[j]);
                        }
                    }
                }
                return Some(i);
            }
            i += 1;
        }
        None
    }

    /// Records at time `now` that the fetch holding `permit` ended. The
    /// permit is handed back on every exit path; only a successful fetch
    /// (`succeeded`) starts the post-fetch cooldown, holding the slot
    /// for `delay_ms` beyond the completion. That bounds the completion
    /// rate: any completion on a slot comes at least one delay after the
    /// slot's last successful one, as the final `ensures` clause states.
    /// A failed fetch frees the slot with no extra delay.
    pub fn complete(&mut self, permit: usize, now: u64, succeeded: bool)
        requires
            old(self).wf(),
            permit < old(self).slots@.len(),
            old(self).slots@[permit as int].busy,
            now >= old(self).slots@[permit as int].acquired_at,
            succeeded ==> now + old(self).delay_ms <= u64::MAX,
        ensures
            final(self).wf(),
            final(self).capacity() == old(self).capacity(),
            final(self).delay_ms == old(self).delay_ms,
            succeeded ==> final(self).slots@ == old(self).slots@.update(
                permit as int,
                PermitSlot {
                    busy: false,
                    acquired_at: old(self).slots@[permit as int].acquired_at,
                    completed: true,
                    last_completion: now,
                    free_at: (now + old(self).delay_ms) as u64,
                },
            ),
            !succeeded ==> final(self).slots@ == old(self).slots@.update(
                permit as int,
                PermitSlot {
                    busy: false,
                    acquired_at: old(self).slots@[permit as int].acquired_at,
                    completed: old(self).slots@[permit as int].completed,
                    last_completion: old(self).slots@[permit as int].last_completion,
                    free_at: old(self).slots@[permit as int].free_at,
                },
            ) && final(self).slots@[permit as int].free_at <= now,
            final(self).in_flight() == old(self).in_flight() - 1,
            old(self).slots@[permit as int].completed ==> now >= old(self).slots@[
                permit as int
            ].last_completion + old(self).delay_ms,
    {
        let ghost s_old = self.slots@;
        let prior_acquired_at = self.slots[permit].acquired_at;
        let prior_completed = self.slots[permit].completed;
        let prior_last_completion = self.slots[permit].last_completion;
        let prior_free_at = self.slots[permit].free_at;
        let updated = if succeeded {
            PermitSlot {
                busy: false,
                acquired_at: prior_acquired_at,
                completed: true,
                last_completion: now,
                free_at: now + self.delay_ms,
            }
        } else {
            PermitSlot {
                busy: false,
                acquired_at: prior_acquired_at,
                completed: prior_completed,
                last_completion: prior_last_completion,
                free_at: prior_free_at,
            }
        };
        self.slots.set(permit, updated);
        proof {
            lemma_busy_count_update(s_old, s_old.len() as int, permit as int, updated);
            assert(s_old[permit as int].wf(self.delay_ms));
            assert forall|j: int|
                0 <= j < self.slots@.len() implies #[trigger] self.slots@[j].wf(self.delay_ms) by {
                if j != permit as int {
                    assert(self.slots@[j] == s_old[j]);
                }
            }
        }
    }

    /// The pool size, as configured at construction.
    pub fn concurrency(&self) -> (n: usize)
        ensures
            n == self.capacity(),
    {
        self.slots.len()
    }
}

/// A pool in which no slot is held has nothing in flight.
pub proof fn lemma_busy_count_all_free(s: Seq<PermitSlot>, n: int)
    requires
        0 <= n <= s.len(),
        forall|i: int| 0 <= i < s.len() ==> !(#[trigger] s[i].busy),
    ensures
        busy_count(s, n) == 0,
    decreases n,
{
    if n > 0 {
        lemma_busy_count_all_free(s, n - 1);
    }
}

} // verus!
