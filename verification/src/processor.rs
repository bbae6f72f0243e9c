use vstd::prelude::*;
use crate::error::SinkError;
use crate::record::RawRecord;

verus! {

/// The capability a partition worker needs from a batch processor: convert
/// and write one batch, and flush once the input stream has ended. Nothing is
/// assumed of an implementation's outcome; callers state what they do with
/// whatever comes back.
pub trait Processor {
    /// Handle one batch of records, in order; an error means the batch was
    /// abandoned at the failing record.
    fn process(&mut self, records: &Vec<RawRecord>) -> Result<(), SinkError>;

    /// Called once, after the owning worker's input is exhausted, to flush
    /// and finalize resources; not on the per-batch path.
    fn post_stream(&mut self) -> Result<(), SinkError>;
}

} // verus!
