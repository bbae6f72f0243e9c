use vstd::prelude::*;
use crate::error::SinkError;
use crate::processor::Processor;
use crate::record::{Event, OriginFormat, RawRecord, StreamType};

verus! {

/// Whether `bytes` parse as one JSON document — what `serde_json::from_slice`
/// decides, which depends on the bytes alone.
pub uninterp spec fn json_decodes(bytes: Seq<u8>) -> bool;

#[verifier::external_type_specification]
#[verifier::external_body]
pub struct ExValue(serde_json::Value);

/// Relies on serde_json::from_slice::<Value>: a pure parser, so whether the
/// bytes decode is a function of the bytes alone.
#[verifier::external_body]
fn decode_json(bytes: &Vec<u8>) -> (r: Option<serde_json::Value>)
    ensures
        r is Some <==> json_decodes(bytes@),
{
    serde_json::from_slice(bytes.as_slice()).ok()
}

/// Relies on chrono::Utc::now for the wall-clock parse timestamp, in
/// milliseconds since the Unix epoch. Nothing is promised of the value.
#[verifier::external_body]
fn now_timestamp_millis() -> i64 {
    chrono::Utc::now().timestamp_millis()
}

/// The outside services the conversion pipeline leans on: the provisioning
/// collaborator that looks up or creates destination streams, the columnar
/// builder working against the stream's schema, and the durable store.
/// Implementations live outside the verified library and nothing is assumed
/// of their outcomes, so every caller here handles every answer.
pub trait Collaborator {
    /// The columnar record built by `convert` and consumed by `store`.
    type Converted;

    /// Look up the destination stream, creating it if absent.
    fn ensure_stream(&mut self, stream: &String, kind: &StreamType) -> Result<(), SinkError>;

    /// Fetch the stream's schema and build the columnar record for one
    /// decoded payload; the flag says whether this is the stream's first
    /// event.
    fn convert(&mut self, stream: &String, data: &serde_json::Value) -> Result<
        (Self::Converted, bool),
        SinkError,
    >;

    /// Durably write one converted record together with its metadata.
    fn store(&mut self, body: Self::Converted, event: &Event) -> Result<(), SinkError>;
}

/// How far one record of a batch got through the pipeline.
pub enum RecordStep {
    /// Stream provisioning failed; the batch stopped at this record.
    EnsureFailed,
    /// The record is a tombstone (no payload): skipped, nothing built.
    Skipped,
    /// The payload is not valid JSON; the batch stopped at this record.
    DecodeFailed,
    /// Schema lookup or columnar conversion failed; the batch stopped here.
    ConvertFailed,
    /// The durable write failed; the batch stopped at this record.
    StoreFailed,
    /// The record's event was handed to the store, which accepted it.
    Stored,
}

/// A step on which the batch carries on to the next record.
pub open spec fn step_ok(s: RecordStep) -> bool {
    s is Skipped || s is Stored
}

/// A step on which the columnar builder was reached.
pub open spec fn convert_attempted(s: RecordStep) -> bool {
    s is ConvertFailed || s is StoreFailed || s is Stored
}

/// A step on which the durable store was reached.
pub open spec fn store_attempted(s: RecordStep) -> bool {
    s is StoreFailed || s is Stored
}

/// What a step may say of its record: only a tombstone is skipped, and the
/// decode outcome follows the payload bytes.
pub open spec fn step_matches(rec: RawRecord, s: RecordStep) -> bool {
    match s {
        RecordStep::EnsureFailed => true,
        RecordStep::Skipped => rec.payload is None,
        RecordStep::DecodeFailed => rec.payload matches Some(p) && !json_decodes(p@),
        RecordStep::ConvertFailed => rec.payload matches Some(p) && json_decodes(p@),
        RecordStep::StoreFailed => rec.payload matches Some(p) && json_decodes(p@),
        RecordStep::Stored => rec.payload matches Some(p) && json_decodes(p@),
    }
}

/// A well-formed run of one batch: one step per record reached, each step
/// true to its record, and only the last step other than a success —
/// processing is fail-fast.
pub open spec fn trace_wf(records: Seq<RawRecord>, t: Seq<RecordStep>) -> bool {
    &&& t.len() <= records.len()
    &&& forall|i: int| 0 <= i < t.len() ==> step_matches(records[i], #[trigger] t[i])
    &&& forall|i: int| 0 <= i < t.len() - 1 ==> step_ok(#[trigger] t[i])
}

/// The default batch-to-event pipeline: per record, in order — ensure the
/// destination stream exists, skip tombstones, decode the payload as JSON,
/// build the columnar record against the stream's schema, and hand it with
/// its metadata to the store. The first failure aborts the rest of the batch.
pub struct ParseableSinkProcessor<C: Collaborator> {
    collab: C,
}

/// Build the metadata that travels with one converted record.
fn build_event(stream: &String, payload_len: u64, is_first: bool, ts_millis: i64) -> (e: Event)
    ensures
        e.stream_name@ == stream@,
        e.origin_format is Json,
        e.origin_size == payload_len,
        e.is_first_event == is_first,
        e.parsed_timestamp_millis == ts_millis,
        e.time_partition is None,
        e.custom_partition_values@.len() == 0,
        e.stream_type is UserDefined,
{
    Event {
        stream_name: stream.clone(),
        origin_format: OriginFormat::Json,
        origin_size: payload_len,
        is_first_event: is_first,
        parsed_timestamp_millis: ts_millis,
        time_partition: None,
        custom_partition_values: Vec::new(),
        stream_type: StreamType::UserDefined,
    }
}

impl<C: Collaborator> ParseableSinkProcessor<C> {
    /// The collaborator the processor works through.
    pub closed spec fn spec_collaborator(self) -> C {
        self.collab
    }

    pub fn new(collab: C) -> (p: Self)
        ensures
            p.spec_collaborator() == collab,
    {
        ParseableSinkProcessor { collab }
    }

    /// The collaborator, for callers that own the processor.
    pub fn collaborator(&self) -> (c: &C)
        ensures
            *c == self.spec_collaborator(),
    {
        &self.collab
    }

    /// Process one batch in record order, stopping at the first failure.
    /// Returns the batch result together with the per-record trace of how
    /// far each record got; the trace witnesses that tombstones are skipped
    /// and that no record after a failing one is touched.
    pub fn process_batch(&mut self, records: &Vec<RawRecord>) -> (out: (
        Result<(), SinkError>,
        Ghost<Seq<RecordStep>>,
    ))
        ensures
            trace_wf(records@, out.1@),
            out.0 is Ok <==> (out.1@.len() == records@.len() && (forall|i: int|
                0 <= i < out.1@.len() ==> step_ok(#[trigger] out.1@[i]))),
            out.0 is Err ==> out.1@.len() > 0 && !step_ok(out.1@.last()),
            out.1@.len() > 0 && out.1@.last() is DecodeFailed ==> out.0 == Result::<
                (),
                SinkError,
            >::Err(SinkError::Decode),
    {
        let ghost mut trace: Seq<RecordStep> = Seq::<RecordStep>::empty();
        let n: usize = records.len();
        let mut i: usize = 0;
        while i < n
            invariant
                n == records@.len(),
                0 <= i <= n,
                trace.len() == i,
                forall|j: int| 0 <= j < i ==> step_matches(records@[j], #[trigger] trace[j]),
                forall|j: int| 0 <= j < i ==> step_ok(#[trigger] trace[j]),
            decreases n - i,
        {
            let rec = &records[i];
            match self.collab.ensure_stream(&rec.topic, &StreamType::UserDefined) {
                Err(e) => {
                    proof {
                        trace = trace.push(RecordStep::EnsureFailed);
                    }
                    return (Err(e), Ghost(trace));
                },
                Ok(()) => {},
            }
            match &rec.payload {
                None => {
                    proof {
                        trace = trace.push(RecordStep::Skipped);
                    }
                },
                Some(payload) => {
                    match decode_json(payload) {
                        None => {
                            proof {
                                trace = trace.push(RecordStep::DecodeFailed);
                            }
                            return (Err(SinkError::Decode), Ghost(trace));
                        },
                        Some(data) => {
                            match self.collab.convert(&rec.topic, &data) {
                                Err(e) => {
                                    proof {
                                        trace = trace.push(RecordStep::ConvertFailed);
                                    }
                                    return (Err(e), Ghost(trace));
                                },
                                Ok((body, is_first)) => {
                                    let ts: i64 = now_timestamp_millis();
                                    let event = build_event(
                                        &rec.topic,
                                        payload.len() as u64,
                                        is_first,
                                        ts,
                                    );
                                    match self.collab.store(body, &event) {
                                        Err(e) => {
                                            proof {
                                                trace = trace.push(RecordStep::StoreFailed);
                                            }
                                            return (Err(e), Ghost(trace));
                                        },
                                        Ok(()) => {
                                            proof {
                                                trace = trace.push(RecordStep::Stored);
                                            }
                                        },
                                    }
                                },
                            }
                        },
                    }
                },
            }
            i += 1;
        }
        (Ok(()), Ghost(trace))
    }
}

impl<C: Collaborator> Processor for ParseableSinkProcessor<C> {
    fn process(&mut self, records: &Vec<RawRecord>) -> Result<(), SinkError> {
        let (r, _trace) = self.process_batch(records);
        r
    }

    fn post_stream(&mut self) -> Result<(), SinkError> {
        Ok(())
    }
}

/// A tombstone never reaches the converter or the store: in any well-formed
/// run, the step of a record without a payload is a skip, or the provisioning
/// failure that stopped the batch before the payload was looked at.
pub proof fn lemma_tombstone_skipped(records: Seq<RawRecord>, t: Seq<RecordStep>, i: int)
    requires
        trace_wf(records, t),
        0 <= i < t.len(),
        records[i].payload is None,
    ensures
        !convert_attempted(t[i]),
        !store_attempted(t[i]),
        t[i] is Skipped || t[i] is EnsureFailed,
{
}

/// Fail-fast: once the step of record `i` failed, no later record of the
/// batch was touched — the run holds no step for it.
pub proof fn lemma_fail_fast(records: Seq<RawRecord>, t: Seq<RecordStep>, i: int, j: int)
    requires
        trace_wf(records, t),
        0 <= i < t.len(),
        !step_ok(t[i]),
        i < j,
    ensures
        j >= t.len(),
{
}

} // verus!
