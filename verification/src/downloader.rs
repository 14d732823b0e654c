//! Downloader configuration and the verified half of the fetch protocol.
//!
//! A fetch runs in three phases: acquire a permit from the shared
//! [`FetchLimiter`], issue the network call, and record completion —
//! after a successful fetch the permit stays cold for the configured
//! delay, while a failed one frees it at once. The network call itself
//! belongs to the transport collaborator; the [`Downloader`] here
//! carries the configuration and the permit accounting that every exit
//! path of a fetch must respect.

use vstd::prelude::*;

use crate::limiter::FetchLimiter;
use crate::limiter::PermitSlot;
use crate::requester::Requester;

verus! {

/// Tuning knobs of the fetch stage.
pub struct DownloaderConfig {
    /// The concurrency ceiling: how many fetches may be in flight at
    /// once. Always positive.
    pub concurrent_requests: usize,
    /// How long a permit stays cold after a completed fetch, in
    /// milliseconds. Bounds the rate of fetch starts, not just their
    /// parallelism.
    pub request_delay_ms: u64,
}

impl DownloaderConfig {
    /// Builds a configuration from a concurrency ceiling and an
    /// inter-request delay in milliseconds.
    pub fn new(concurrent_requests: usize, request_delay_ms: u64) -> (c: DownloaderConfig)
        requires
            concurrent_requests >= 1,
        ensures
            c.concurrent_requests == concurrent_requests,
            c.request_delay_ms == request_delay_ms,
    {
        DownloaderConfig { concurrent_requests, request_delay_ms }
    }
}

impl Default for DownloaderConfig {
    /// Three concurrent fetches, one second between completions on each
    /// permit.
    fn default() -> (c: DownloaderConfig)
        ensures
            c.concurrent_requests == 3,
            c.request_delay_ms == 1000,
    {
        DownloaderConfig { concurrent_requests: 3, request_delay_ms: 1000 }
    }
}

/// The fetch stage: configuration plus the permit pool shared by all
/// fetch workers. The pool is never restructured after construction,
/// only acquired from and released to.
pub struct Downloader {
    /// The configuration the limiter was built from.
    pub config: DownloaderConfig,
    /// The permit pool bounding concurrency and completion rate.
    pub limiter: FetchLimiter,
}

impl Downloader {
    /// The limiter matches the configuration and is internally
    /// consistent.
    pub open spec fn wf(&self) -> bool {
        &&& self.limiter.wf()
        &&& self.limiter.capacity() == self.config.concurrent_requests
        &&& self.limiter.delay_ms == self.config.request_delay_ms
        &&& self.config.concurrent_requests >= 1
    }

    /// A downloader with the default configuration.
    pub fn new() -> (d: Downloader)
        ensures
            d.wf(),
            d.config.concurrent_requests == 3,
            d.config.request_delay_ms == 1000,
            d.limiter.in_flight() == 0,
    {
        Downloader::with_config(Default::default())
    }

    /// A downloader with the given configuration and a fresh, fully
    /// free permit pool.
    pub fn with_config(config: DownloaderConfig) -> (d: Downloader)
        requires
            config.concurrent_requests >= 1,
        ensures
            d.wf(),
            d.config == config,
            d.limiter.in_flight() == 0,
            forall|i: int|
                0 <= i < config.concurrent_requests ==> #[trigger] d.limiter.slots@[i]
                    == (PermitSlot {
                    busy: false,
                    acquired_at: 0,
                    completed: false,
                    last_completion: 0,
                    free_at: 0,
                }),
    {
        let limiter = FetchLimiter::new(config.concurrent_requests, config.request_delay_ms);
        Downloader { config, limiter }
    }

    /// First phase of a fetch: try to acquire a permit at time `now`.
    /// `None` means every permit is either held or still cooling down,
    /// and the worker must wait.
    pub fn begin_fetch(&mut self, now: u64) -> (r: Option<usize>)
        requires
            old(self).wf(),
        ensures
            final(self).wf(),
            final(self).config == old(self).config,
            r matches Some(i) ==> {
                &&& 0 <= i < old(self).limiter.capacity()
                &&& !old(self).limiter.slots@[i as int].busy
                &&& old(self).limiter.slots@[i as int].free_at <= now
                &&& final(self).limiter.slots@ == old(self).limiter.slots@.update(
                    i as int,
                    PermitSlot { busy: true, acquired_at: now, ..old(self).limiter.slots@[i as int] },
                )
                &&& final(self).limiter.in_flight() == old(self).limiter.in_flight() + 1
            },
            r is None ==> final(self).limiter == old(self).limiter && (forall|i: int|
                0 <= i < old(self).limiter.capacity() ==> #[trigger] old(self).limiter.slots@[i].busy
                    || old(self).limiter.slots@[i].free_at > now),
    {
        self.limiter.try_acquire(now)
    }

    /// Last phase of a fetch, on every exit path: hand the permit back
    /// at completion time `now`. Only a successful fetch (`succeeded`)
    /// starts the cooldown — the permit then stays cold for the
    /// configured delay, so completions on one permit come at least that
    /// delay after its last successful one. A failed fetch frees the
    /// permit at once, with no extra delay.
    pub fn finish_fetch(&mut self, permit: usize, now: u64, succeeded: bool)
        requires
            old(self).wf(),
            permit < old(self).limiter.capacity(),
            old(self).limiter.slots@[permit as int].busy,
            now >= old(self).limiter.slots@[permit as int].acquired_at,
            succeeded ==> now + old(self).config.request_delay_ms <= u64::MAX,
        ensures
            final(self).wf(),
            final(self).config == old(self).config,
            final(self).limiter.in_flight() == old(self).limiter.in_flight() - 1,
            succeeded ==> final(self).limiter.slots@ == old(self).limiter.slots@.update(
                permit as int,
                PermitSlot {
                    busy: false,
                    acquired_at: old(self).limiter.slots@[permit as int].acquired_at,
                    completed: true,
                    last_completion: now,
                    free_at: (now + old(self).config.request_delay_ms) as u64,
                },
            ),
            !succeeded ==> final(self).limiter.slots@ == old(self).limiter.slots@.update(
                permit as int,
                PermitSlot {
                    busy: false,
                    acquired_at: old(self).limiter.slots@[permit as int].acquired_at,
                    completed: old(self).limiter.slots@[permit as int].completed,
                    last_completion: old(self).limiter.slots@[permit as int].last_completion,
                    free_at: old(self).limiter.slots@[permit as int].free_at,
                },
            ) && final(self).limiter.slots@[permit as int].free_at <= now,
            old(self).limiter.slots@[permit as int].completed ==> now >= old(self).limiter.slots@[
                permit as int
            ].last_completion + old(self).config.request_delay_ms,
    {
        self.limiter.complete(permit, now, succeeded);
    }

    /// The user-agent header the transport should send for `requester`:
    /// the one set on the request, or the default identifying header.
    pub fn user_agent_for(&self, requester: &Requester) -> (r: String)
        ensures
            r@ == requester.effective_user_agent_spec(),
    {
        requester.effective_user_agent()
    }
}

impl Default for Downloader {
    fn default() -> (d: Downloader)
        ensures
            d.wf(),
            d.config.concurrent_requests == 3,
            d.config.request_delay_ms == 1000,
            d.limiter.in_flight() == 0,
    {
        Downloader::new()
    }
}

} // verus!
