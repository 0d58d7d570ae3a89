//! The vocabulary of the streaming decode pipeline.
//!
//! A streaming exchange is decoded one event at a time: the transport and
//! the application-side JSON decoding hand the library a [`StreamEvent`],
//! and a per-provider step function answers with a [`StreamStep`] saying
//! what, if anything, the sequence yields next and whether it goes on.

use vstd::prelude::*;

use crate::error::Error;
use crate::types::AiResponse;

verus! {

/// One item observed on a provider's event stream.
#[derive(Debug, Clone)]
pub enum StreamEvent<T> {
    /// An event whose data payload decoded against the provider's
    /// streaming schema.
    Decoded(T),
    /// An event whose data payload failed to decode; carries the decoder's
    /// own detail.
    Undecodable(String),
    /// The transport failed mid-stream; carries its detail.
    Broken(String),
}

/// What the decoded sequence does at one event.
#[derive(Debug, Clone)]
pub enum StreamStep {
    /// Yield one normalized response and await the next event.
    Yield(AiResponse),
    /// Yield this error as the final element; the sequence ends.
    Terminal(Error),
    /// Yield nothing for this event and await the next one.
    Skip,
    /// The provider signalled completion; the sequence ends with no
    /// further element.
    Done,
}

} // verus!
