//! The error taxonomy of the pipeline.
//!
//! Failures at any stage are contained to the item that caused them: a
//! worker reports the error and moves on to the next item. Scheduling
//! errors, by contrast, signal a structural misuse of the queues and are
//! surfaced at setup time.

use vstd::prelude::*;

verus! {

/// The network transport failed while fetching one request.
#[derive(Clone, Copy, Debug, PartialEq, Eq, Structural)]
pub struct FetchError;

/// The transform stage could not produce a result from fetched content.
#[derive(Clone, Copy, Debug, PartialEq, Eq, Structural)]
pub struct TransformError;

/// The persistence stage failed to store one transformed result.
#[derive(Clone, Copy, Debug, PartialEq, Eq, Structural)]
pub struct SinkError;

/// A structural misuse of the work queues: these indicate a programming
/// error in the surrounding setup, not a runtime condition.
#[derive(Clone, Copy, Debug, PartialEq, Eq, Structural)]
pub enum SchedulingError {
    /// The consumer half of a work queue was requested a second time.
    ReceiverAlreadyTaken,
    /// An enqueue was attempted on a channel that is already closed.
    ChannelClosed,
}

} // verus!
