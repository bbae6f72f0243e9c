//! Ingestion-side worker core of a partitioned log pipeline: batches records
//! from one partition, converts each batch into storage-ready events, and
//! computes the offset marker to commit once a batch has been handled.

pub mod accumulator;
pub mod error;
pub mod processor;
pub mod record;
pub mod sink;
pub mod worker;
