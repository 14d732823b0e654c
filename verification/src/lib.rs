//! A small concurrent fetch -> transform -> persist pipeline.
//!
//! The crate verifies the scheduling and flow-control core of a crawler:
//! the bounded work queues with their split-once protocol, the permit
//! limiter that bounds fetch concurrency and throughput, and the worker
//! pool / drain state machine that lets a finite batch of requests run to
//! completion without loss or deadlock. Network transport, content
//! transformation and persistence are pluggable collaborators, specified
//! only at their interfaces.

pub mod channel;
pub mod downloader;
pub mod errors;
pub mod limiter;
pub mod parser;
pub mod pipeline;
pub mod requester;
pub mod saver;
pub mod scheduler;

pub use downloader::Downloader;
pub use downloader::DownloaderConfig;
pub use parser::HtmlParser;
pub use parser::Parser;
pub use requester::Requester;
pub use saver::Saver;
pub use scheduler::Scheduler;
