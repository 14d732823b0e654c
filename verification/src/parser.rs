//! The transform capability.
//!
//! A [`Parser`] turns raw fetched content into the pipeline's payload
//! type. It is a strategy supplied by the user of the library: the
//! pipeline core never inspects it, it only routes content in and
//! results out, and contains a failure to the single item that caused
//! it.

use vstd::prelude::*;

use crate::downloader::Downloader;
use crate::errors::TransformError;

verus! {

/// A content transform: pure with respect to the pipeline, safe to call
/// from any worker, failing only for the item it was given.
pub trait Parser {
    /// The payload produced from raw content.
    type Output;

    /// Transforms raw fetched content into one payload, or rejects it.
    fn parse(&self, content: &str) -> Result<Self::Output, TransformError>;
}

/// The fetch-then-transform stage: a downloader paired with whatever
/// transform the caller injects per call.
pub struct HtmlParser {
    /// The fetch stage used before each transform.
    pub downloader: Downloader,
}

impl HtmlParser {
    /// Wraps a downloader.
    pub fn new(downloader: Downloader) -> (p: HtmlParser)
        ensures
            p.downloader == downloader,
    {
        HtmlParser { downloader }
    }
}

} // verus!
