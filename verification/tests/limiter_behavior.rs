use rust_crawler::limiter::FetchLimiter;
use rust_crawler::Downloader;
use rust_crawler::DownloaderConfig;
use rust_crawler::Requester;

#[test]
fn concurrency_never_exceeds_pool_size() {
    let mut limiter = FetchLimiter::new(2, 0);
    let first = limiter.try_acquire(0);
    let second = limiter.try_acquire(0);
    assert!(first.is_some());
    assert!(second.is_some());
    assert_ne!(first.unwrap(), second.unwrap());
    // Both permits are held: a third fetch cannot start.
    assert!(limiter.try_acquire(0).is_none());

    limiter.complete(first.unwrap(), 5, true);
    // With no delay configured the freed permit is available at once.
    assert!(limiter.try_acquire(5).is_some());
    assert!(limiter.try_acquire(5).is_none());
}

#[test]
fn completions_on_one_permit_respect_the_delay() {
    let mut limiter = FetchLimiter::new(1, 50);
    let permit = limiter.try_acquire(0).expect("fresh pool has a free permit");
    limiter.complete(permit, 10, true);

    // The permit cools down until 10 + 50: acquiring earlier fails.
    assert!(limiter.try_acquire(11).is_none());
    assert!(limiter.try_acquire(59).is_none());

    let permit = limiter.try_acquire(60).expect("delay has elapsed");
    limiter.complete(permit, 75, true);
    // The second completion starts the next cooldown, until 75 + 50.
    assert!(limiter.try_acquire(124).is_none());
    assert!(limiter.try_acquire(125).is_some());
}

#[test]
fn failed_fetch_frees_the_permit_without_cooldown() {
    let mut limiter = FetchLimiter::new(1, 50);
    let permit = limiter.try_acquire(0).expect("fresh pool has a free permit");
    limiter.complete(permit, 10, false);

    // A failure releases the permit at once: no cooldown to wait out.
    let permit = limiter.try_acquire(10).expect("failure frees the permit immediately");
    limiter.complete(permit, 20, true);
    // The following success starts a cooldown as usual, until 20 + 50.
    assert!(limiter.try_acquire(69).is_none());
    assert!(limiter.try_acquire(70).is_some());
}

#[test]
fn downloader_config_holds_its_values() {
    let config = DownloaderConfig::new(5, 250);
    assert_eq!(config.concurrent_requests, 5);
    assert_eq!(config.request_delay_ms, 250);

    let default_config = DownloaderConfig::default();
    assert_eq!(default_config.concurrent_requests, 3);
    assert_eq!(default_config.request_delay_ms, 1000);
}

#[test]
fn downloader_runs_the_permit_protocol() {
    let mut downloader = Downloader::with_config(DownloaderConfig::new(1, 0));
    let permit = downloader.begin_fetch(0).expect("one permit is free");
    assert!(downloader.begin_fetch(0).is_none());
    downloader.finish_fetch(permit, 3, true);
    assert!(downloader.begin_fetch(3).is_some());
}

#[test]
fn downloader_frees_the_permit_on_a_failed_fetch() {
    let mut downloader = Downloader::with_config(DownloaderConfig::new(1, 1000));
    let permit = downloader.begin_fetch(0).expect("one permit is free");
    downloader.finish_fetch(permit, 5, false);
    // No cooldown after a transport failure: the next fetch can start
    // at once despite the one-second delay configuration.
    assert!(downloader.begin_fetch(5).is_some());
}

#[test]
fn downloader_defaults_match_the_default_config() {
    let downloader = Downloader::new();
    assert_eq!(downloader.config.concurrent_requests, 3);
    assert_eq!(downloader.config.request_delay_ms, 1000);
    assert_eq!(downloader.limiter.concurrency(), 3);
}

#[test]
fn downloader_sends_the_effective_user_agent() {
    let downloader = Downloader::new();
    let plain = Requester::new("https://example.test");
    assert_eq!(
        downloader.user_agent_for(&plain),
        "Mozilla/5.0 (Macintosh; Intel Mac OS X 10_15_7) AppleWebKit/537.36 (KHTML, like Gecko) Chrome/131.0.0.0 Safari/537.36"
    );

    let custom = Requester::new("https://example.test").with_user_agent("probe/1.0");
    assert_eq!(downloader.user_agent_for(&custom), "probe/1.0");
}
