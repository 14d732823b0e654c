//! The persistence capability.
//!
//! A [`Saver`] stores one transformed payload. Like the transform, it is
//! an injected strategy: the pipeline hands it items one at a time and
//! contains any failure to the item that caused it.

use vstd::prelude::*;

use crate::errors::SinkError;
use crate::parser::Parser;

verus! {

/// A persistence sink: stores one payload, failing only for that item.
pub trait Saver<T> {
    /// Persists one payload.
    fn save(&self, data: T) -> Result<(), SinkError>;
}

/// A saver that pairs a parser with a filesystem destination. Writing
/// the serialized payload is the transport side of persistence and is
/// performed by the embedding program; the path and parser are carried
/// here.
pub struct FileSaver<P: Parser> {
    /// The parser whose output this saver persists.
    pub parser: P,
    /// Where the serialized payload goes.
    pub save_path: String,
}

impl<P: Parser> FileSaver<P> {
    /// Builds a file saver for the given destination path.
    pub fn new(parser: P, save_path: &str) -> (s: FileSaver<P>)
        ensures
            s.parser == parser,
            s.save_path@ == save_path@,
    {
        FileSaver { parser, save_path: save_path.to_owned() }
    }

    /// The destination path.
    pub fn path(&self) -> (r: &str)
        ensures
            r@ == self.save_path@,
    {
        self.save_path.as_str()
    }
}

} // verus!
