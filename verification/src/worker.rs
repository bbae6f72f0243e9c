use vstd::prelude::*;
use crate::accumulator::BatchAccumulator;
use crate::error::SinkError;
use crate::processor::Processor;
use crate::record::{CommitTarget, RawRecord};

verus! {

/// The largest offset among `s`, or -1 when `s` is empty.
pub open spec fn max_offset(s: Seq<RawRecord>) -> int
    decreases s.len(),
{
    if s.len() == 0 {
        -1
    } else {
        let rest = max_offset(s.drop_last());
        if s.last().offset as int >= rest {
            s.last().offset as int
        } else {
            rest
        }
    }
}

/// `max_offset` is the batch's largest offset: no record exceeds it, and
/// some record attains it whenever the batch is non-empty — so a commit
/// marker of `max_offset + 1` stands one past every record of its batch.
pub proof fn lemma_max_offset_characterizes(s: Seq<RawRecord>)
    requires
        forall|i: int| 0 <= i < s.len() ==> (#[trigger] s[i]).wf(),
    ensures
        forall|i: int| 0 <= i < s.len() ==> (#[trigger] s[i]).offset <= max_offset(s),
        s.len() > 0 ==> exists|i: int|
            0 <= i < s.len() && (#[trigger] s[i]).offset == max_offset(s),
    decreases s.len(),
{
    if s.len() > 0 {
        assert forall|i: int| 0 <= i < s.drop_last().len() implies (#[trigger] s.drop_last()[i]).wf() by {
            assert(s.drop_last()[i] == s[i]);
        }
        lemma_max_offset_characterizes(s.drop_last());
        assert forall|i: int| 0 <= i < s.len() implies (#[trigger] s[i]).offset <= max_offset(
            s,
        ) by {
            if i < s.len() - 1 {
                assert(s.drop_last()[i] == s[i]);
            }
        }
        if s.last().offset as int >= max_offset(s.drop_last()) {
            assert(s[s.len() - 1].offset == max_offset(s));
        } else {
            let j = choose|j: int|
                0 <= j < s.drop_last().len() && (#[trigger] s.drop_last()[j]).offset == max_offset(
                    s.drop_last(),
                );
            assert(s.drop_last()[j] == s[j]);
            assert(s[j].offset == max_offset(s));
        }
    }
}

/// The marker to commit for a non-empty batch: the topic and partition of a
/// record holding the batch's largest offset, and the offset one past it —
/// the next offset to read.
pub fn commit_target(records: &Vec<RawRecord>) -> (out: Option<CommitTarget>)
    requires
        forall|i: int| 0 <= i < records@.len() ==> (#[trigger] records@[i]).wf(),
    ensures
        (out is Some) <==> records@.len() > 0,
        out matches Some(ct) ==> {
            &&& ct.offset == max_offset(records@) + 1
            &&& exists|i: int|
                0 <= i < records@.len() && (#[trigger] records@[i]).offset == max_offset(records@)
                    && ct.topic@ == records@[i].topic@ && ct.partition == records@[i].partition
        },
{
    if records.len() == 0 {
        return None;
    }
    let mut best: usize = 0;
    let mut i: usize = 1;
    proof {
        assert(max_offset(Seq::<RawRecord>::empty()) == -1);
        assert(records@.take(1).drop_last() =~= Seq::<RawRecord>::empty());
        assert(records@.take(1).last() == records@[0]);
        assert(max_offset(records@.take(1)) == records@[0].offset as int);
    }
    while i < records.len()
        invariant
            1 <= i <= records@.len(),
            best < i,
            forall|k: int| 0 <= k < records@.len() ==> (#[trigger] records@[k]).wf(),
            records@[best as int].offset as int == max_offset(records@.take(i as int)),
        decreases records@.len() - i,
    {
        proof {
            assert(records@.take(i + 1).drop_last() =~= records@.take(i as int));
            assert(records@.take(i + 1).last() == records@[i as int]);
        }
        if records[i].offset > records[best].offset {
            best = i;
        }
        i += 1;
    }
    proof {
        assert(records@.take(records@.len() as int) =~= records@);
    }
    let r = &records[best];
    Some(CommitTarget { topic: r.topic.clone(), partition: r.partition, offset: r.offset + 1 })
}

/// What one batch dispatch produced: the processing result, and the commit
/// marker to hand to the broker — present for every non-empty batch, whether
/// or not processing succeeded (the current no-withhold policy).
pub struct DispatchOutcome {
    pub process_result: Result<(), SinkError>,
    pub commit: Option<CommitTarget>,
}

/// The per-partition worker: it owns the batch processor and the batching
/// bounds, turns each batch into a processing run plus a commit marker, and
/// flushes the processor once the input ends. Pulling records, scheduling
/// dispatches concurrently, and the broker commit call itself belong to the
/// driver around it.
pub struct StreamWorker<P: Processor> {
    processor: P,
    buffer_size: usize,
    buffer_timeout_ms: u64,
}

impl<P: Processor> StreamWorker<P> {
    /// The processor the worker dispatches batches to.
    pub closed spec fn spec_processor(self) -> P {
        self.processor
    }

    /// The most records one batch may hold.
    pub closed spec fn spec_buffer_size(self) -> int {
        self.buffer_size as int
    }

    /// The longest a partial batch waits before it is emitted, in
    /// milliseconds.
    pub closed spec fn spec_buffer_timeout_ms(self) -> int {
        self.buffer_timeout_ms as int
    }

    /// Both batching bounds are positive.
    pub open spec fn wf(self) -> bool {
        self.spec_buffer_size() >= 1 && self.spec_buffer_timeout_ms() >= 1
    }

    pub fn new(processor: P, buffer_size: usize, buffer_timeout_ms: u64) -> (w: Self)
        requires
            buffer_size >= 1,
            buffer_timeout_ms >= 1,
        ensures
            w.wf(),
            w.spec_processor() == processor,
            w.spec_buffer_size() == buffer_size,
            w.spec_buffer_timeout_ms() == buffer_timeout_ms,
    {
        StreamWorker { processor, buffer_size, buffer_timeout_ms }
    }

    /// The processor, for callers that own the worker.
    pub fn processor(&self) -> (p: &P)
        ensures
            *p == self.spec_processor(),
    {
        &self.processor
    }

    /// A fresh accumulator for this worker's partition, carrying the
    /// worker's batching bounds.
    pub fn accumulator(&self) -> (acc: BatchAccumulator)
        requires
            self.wf(),
        ensures
            acc.wf(),
            acc.pending().len() == 0,
            acc.capacity() == self.spec_buffer_size(),
            acc.max_wait() == self.spec_buffer_timeout_ms(),
    {
        BatchAccumulator::new(self.buffer_size, self.buffer_timeout_ms)
    }

    /// Dispatch one batch: run the processor over it, then derive the commit
    /// marker. The marker is derived for every non-empty batch — a failed
    /// processing run does not withhold it — and its offset is one past the
    /// batch's largest.
    pub fn dispatch(&mut self, records: &Vec<RawRecord>) -> (out: DispatchOutcome)
        requires
            old(self).wf(),
            forall|i: int| 0 <= i < records@.len() ==> (#[trigger] records@[i]).wf(),
        ensures
            final(self).wf(),
            final(self).spec_buffer_size() == old(self).spec_buffer_size(),
            final(self).spec_buffer_timeout_ms() == old(self).spec_buffer_timeout_ms(),
            (out.commit is Some) <==> records@.len() > 0,
            out.commit matches Some(ct) ==> {
                &&& ct.offset == max_offset(records@) + 1
                &&& exists|i: int|
                    0 <= i < records@.len() && (#[trigger] records@[i]).offset == max_offset(
                        records@,
                    ) && ct.topic@ == records@[i].topic@ && ct.partition == records@[i].partition
            },
    {
        let process_result = self.processor.process(records);
        let commit = commit_target(records);
        DispatchOutcome { process_result, commit }
    }

    /// The input stream ended and every dispatch has completed: run the
    /// processor's end-of-stream hook and report its result.
    pub fn finish(&mut self) -> (r: Result<(), SinkError>)
        requires
            old(self).wf(),
        ensures
            final(self).wf(),
            final(self).spec_buffer_size() == old(self).spec_buffer_size(),
            final(self).spec_buffer_timeout_ms() == old(self).spec_buffer_timeout_ms(),
    {
        self.processor.post_stream()
    }
}

} // verus!
