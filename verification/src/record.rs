use vstd::prelude::*;

verus! {

/// One message read from the broker: its topic, partition, offset, and the
/// optional key and payload bytes. A record with no payload is a tombstone.
pub struct RawRecord {
    pub topic: String,
    pub partition: i32,
    pub offset: i64,
    pub key: Option<Vec<u8>>,
    pub payload: Option<Vec<u8>>,
}

impl RawRecord {
    /// Broker offsets are non-negative and leave room for the "next to read"
    /// marker one past the largest of them.
    pub open spec fn wf(self) -> bool {
        0 <= self.offset < i64::MAX
    }
}

/// The encoding a payload arrived in; the default pipeline decodes JSON.
pub enum OriginFormat {
    Json,
}

/// How a destination stream is classified.
pub enum StreamType {
    UserDefined,
    Internal,
}

/// The storage-ready unit built from one non-tombstone record: the metadata
/// that travels with the columnar body. The columnar body itself is built and
/// held by the storage collaborator between conversion and the durable write.
pub struct Event {
    pub stream_name: String,
    pub origin_format: OriginFormat,
    pub origin_size: u64,
    pub is_first_event: bool,
    pub parsed_timestamp_millis: i64,
    pub time_partition: Option<String>,
    pub custom_partition_values: Vec<(String, String)>,
    pub stream_type: StreamType,
}

/// The offset marker committed to the broker for one handled batch: the next
/// offset to read from the batch's partition.
pub struct CommitTarget {
    pub topic: String,
    pub partition: i32,
    pub offset: i64,
}

} // verus!
