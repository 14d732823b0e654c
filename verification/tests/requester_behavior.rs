use rust_crawler::errors::TransformError;
use rust_crawler::Downloader;
use rust_crawler::HtmlParser;
use rust_crawler::Parser;
use rust_crawler::Requester;
use rust_crawler::saver::FileSaver;

/// The identity transform, for wiring the saver below.
struct PlainParser;

impl Parser for PlainParser {
    type Output = String;

    fn parse(&self, content: &str) -> Result<String, TransformError> {
        Ok(content.to_string())
    }
}

#[test]
fn requester_keeps_its_url() {
    let req = Requester::new("https://example.test/page");
    assert_eq!(req.url(), "https://example.test/page");
    assert!(req.user_agent().is_none());
}

#[test]
fn requester_takes_a_user_agent() {
    let req = Requester::new("https://example.test").with_user_agent("probe/2.0");
    assert_eq!(req.url(), "https://example.test");
    assert_eq!(req.user_agent(), Some("probe/2.0"));
    assert_eq!(req.effective_user_agent(), "probe/2.0");
}

#[test]
fn requester_falls_back_to_the_default_user_agent() {
    let req = Requester::new("https://example.test");
    assert_eq!(
        req.effective_user_agent(),
        "Mozilla/5.0 (Macintosh; Intel Mac OS X 10_15_7) AppleWebKit/537.36 (KHTML, like Gecko) Chrome/131.0.0.0 Safari/537.36"
    );
}

#[test]
fn html_parser_wraps_a_downloader() {
    let parser = HtmlParser::new(Downloader::new());
    assert_eq!(parser.downloader.config.concurrent_requests, 3);
}

#[test]
fn file_saver_keeps_its_path() {
    let saver = FileSaver::new(PlainParser, "out/results.json");
    assert_eq!(saver.path(), "out/results.json");
}
