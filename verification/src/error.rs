use vstd::prelude::*;

verus! {

/// What can go wrong while a batch is handled. Each variant names the stage
/// that failed; the first failure aborts the rest of its batch.
#[derive(Debug, Clone, Copy, PartialEq, Eq)]
pub enum SinkError {
    /// Destination-stream lookup or creation failed.
    Provisioning,
    /// The payload is not a valid document in the expected encoding.
    Decode,
    /// Building the columnar record against the stream's schema failed.
    Conversion,
    /// The durable write of a converted event failed.
    Store,
    /// The broker rejected or failed to acknowledge an offset commit.
    Commit,
}

} // verus!
