use std::cell::RefCell;

use rust_crawler::errors::FetchError;
use rust_crawler::errors::SinkError;
use rust_crawler::errors::TransformError;
use rust_crawler::pipeline::run_batch;
use rust_crawler::pipeline::Fetcher;
use rust_crawler::Parser;
use rust_crawler::Requester;
use rust_crawler::Saver;

/// A transport that returns each request's own URL as its content.
struct EchoFetcher;

impl Fetcher for EchoFetcher {
    fn fetch(&self, requester: &Requester) -> Result<String, FetchError> {
        Ok(requester.url().to_string())
    }
}

/// A transport that fails for one URL and succeeds for the rest.
struct FailingFetcher {
    poison: String,
}

impl Fetcher for FailingFetcher {
    fn fetch(&self, requester: &Requester) -> Result<String, FetchError> {
        if requester.url() == self.poison {
            Err(FetchError)
        } else {
            Ok(requester.url().to_string())
        }
    }
}

/// The identity transform.
struct IdentityParser;

impl Parser for IdentityParser {
    type Output = String;

    fn parse(&self, content: &str) -> Result<String, TransformError> {
        Ok(content.to_string())
    }
}

/// A transform that rejects one specific content and passes the rest.
struct SelectiveParser {
    reject: String,
}

impl Parser for SelectiveParser {
    type Output = String;

    fn parse(&self, content: &str) -> Result<String, TransformError> {
        if content == self.reject {
            Err(TransformError)
        } else {
            Ok(content.to_string())
        }
    }
}

/// A sink that appends everything it is given to a list.
struct ListSaver {
    items: RefCell<Vec<String>>,
}

impl Saver<String> for ListSaver {
    fn save(&self, data: String) -> Result<(), SinkError> {
        self.items.borrow_mut().push(data);
        Ok(())
    }
}

/// A sink that rejects one specific item and stores the rest.
struct PickySaver {
    items: RefCell<Vec<String>>,
    reject: String,
}

impl Saver<String> for PickySaver {
    fn save(&self, data: String) -> Result<(), SinkError> {
        if data == self.reject {
            Err(SinkError)
        } else {
            self.items.borrow_mut().push(data);
            Ok(())
        }
    }
}

#[test]
fn scenario_three_urls_one_permit_no_delay() {
    let urls = vec!["A".to_string(), "B".to_string(), "C".to_string()];
    let saver = ListSaver { items: RefCell::new(Vec::new()) };
    let report = run_batch(&EchoFetcher, &IdentityParser, &saver, &urls, 1, 10, 3, 3);

    assert_eq!(report.seeded, 3);
    assert_eq!(report.persisted, 3);
    assert_eq!(report.fetch_failed, 0);
    assert_eq!(report.transform_failed, 0);
    assert_eq!(report.sink_failed, 0);

    let mut stored = saver.items.borrow().clone();
    stored.sort();
    assert_eq!(stored, vec!["A".to_string(), "B".to_string(), "C".to_string()]);
}

#[test]
fn empty_batch_drains_cleanly() {
    let urls: Vec<String> = Vec::new();
    let saver = ListSaver { items: RefCell::new(Vec::new()) };
    let report = run_batch(&EchoFetcher, &IdentityParser, &saver, &urls, 2, 4, 3, 2);

    assert_eq!(report.seeded, 0);
    assert_eq!(report.persisted, 0);
    assert_eq!(report.fetch_failed, 0);
    assert_eq!(report.transform_failed, 0);
    assert_eq!(report.sink_failed, 0);
    assert!(saver.items.borrow().is_empty());
}

#[test]
fn no_loss_across_pool_sizes() {
    let urls: Vec<String> = (0..5).map(|i| format!("https://example.test/{}", i)).collect();
    let saver = ListSaver { items: RefCell::new(Vec::new()) };
    let report = run_batch(&EchoFetcher, &IdentityParser, &saver, &urls, 2, 8, 3, 2);

    assert_eq!(report.seeded, 5);
    assert_eq!(report.persisted, 5);
    assert_eq!(saver.items.borrow().len(), 5);
}

#[test]
fn no_loss_with_tiny_queue_capacity() {
    let urls: Vec<String> = (0..6).map(|i| format!("https://example.test/{}", i)).collect();
    let saver = ListSaver { items: RefCell::new(Vec::new()) };
    let report = run_batch(&EchoFetcher, &IdentityParser, &saver, &urls, 1, 1, 2, 1);

    assert_eq!(report.seeded, 6);
    assert_eq!(report.persisted, 6);
    assert_eq!(saver.items.borrow().len(), 6);
}

#[test]
fn one_transform_failure_costs_exactly_one_item() {
    let urls = vec!["A".to_string(), "B".to_string(), "C".to_string()];
    let parser = SelectiveParser { reject: "B".to_string() };
    let saver = ListSaver { items: RefCell::new(Vec::new()) };
    let report = run_batch(&EchoFetcher, &parser, &saver, &urls, 1, 10, 3, 3);

    assert_eq!(report.seeded, 3);
    assert_eq!(report.transform_failed, 1);
    assert_eq!(report.persisted, 2);
    assert_eq!(report.fetch_failed, 0);
    assert_eq!(report.sink_failed, 0);

    let mut stored = saver.items.borrow().clone();
    stored.sort();
    assert_eq!(stored, vec!["A".to_string(), "C".to_string()]);
}

#[test]
fn one_transport_failure_costs_exactly_one_item() {
    let urls = vec!["A".to_string(), "B".to_string(), "C".to_string()];
    let fetcher = FailingFetcher { poison: "C".to_string() };
    let saver = ListSaver { items: RefCell::new(Vec::new()) };
    let report = run_batch(&fetcher, &IdentityParser, &saver, &urls, 2, 4, 2, 2);

    assert_eq!(report.seeded, 3);
    assert_eq!(report.fetch_failed, 1);
    assert_eq!(report.persisted, 2);
    assert_eq!(report.transform_failed, 0);
    assert_eq!(report.sink_failed, 0);
}

#[test]
fn one_sink_failure_costs_exactly_one_item() {
    let urls = vec!["A".to_string(), "B".to_string(), "C".to_string()];
    let saver = PickySaver { items: RefCell::new(Vec::new()), reject: "A".to_string() };
    let report = run_batch(&EchoFetcher, &IdentityParser, &saver, &urls, 2, 4, 2, 2);

    assert_eq!(report.seeded, 3);
    assert_eq!(report.sink_failed, 1);
    assert_eq!(report.persisted, 2);
    assert_eq!(report.fetch_failed, 0);
    assert_eq!(report.transform_failed, 0);
    assert_eq!(saver.items.borrow().len(), 2);
}
