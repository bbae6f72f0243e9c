use parseable_sink::accumulator::BatchAccumulator;
use parseable_sink::error::SinkError;
use parseable_sink::processor::Processor;
use parseable_sink::record::RawRecord;
use parseable_sink::worker::StreamWorker;

struct NoopProcessor;

impl Processor for NoopProcessor {
    fn process(&mut self, _records: &Vec<RawRecord>) -> Result<(), SinkError> {
        Ok(())
    }

    fn post_stream(&mut self) -> Result<(), SinkError> {
        Ok(())
    }
}

fn rec(offset: i64) -> RawRecord {
    RawRecord {
        topic: "logs".to_string(),
        partition: 0,
        offset,
        key: None,
        payload: None,
    }
}

#[test]
fn size_closes_a_batch() {
    let mut acc = BatchAccumulator::new(3, 2000);
    assert!(acc.push(rec(0), 0).is_none());
    assert!(acc.push(rec(1), 1).is_none());
    let batch = acc.push(rec(2), 2).unwrap();
    let offsets: Vec<i64> = batch.iter().map(|r| r.offset).collect();
    assert_eq!(offsets, vec![0, 1, 2]);
    // The next record opens a fresh window.
    assert!(acc.push(rec(3), 3).is_none());
}

#[test]
fn timeout_closes_a_partial_batch() {
    // Two records arrive at once, no third within the 2000 ms wait: the
    // window closes at 2000 ms with both records, not earlier.
    let mut acc = BatchAccumulator::new(3, 2000);
    assert!(acc.push(rec(0), 0).is_none());
    assert!(acc.push(rec(1), 0).is_none());
    assert!(acc.poll(1000).is_none());
    assert!(acc.poll(1999).is_none());
    let batch = acc.poll(2000).unwrap();
    assert_eq!(batch.len(), 2);
    assert_eq!(batch[0].offset, 0);
    assert_eq!(batch[1].offset, 1);
}

#[test]
fn empty_window_emits_nothing() {
    let mut acc = BatchAccumulator::new(3, 2000);
    assert!(acc.poll(10_000).is_none());
    assert!(acc.close().is_none());
}

#[test]
fn window_clock_starts_at_first_arrival() {
    let mut acc = BatchAccumulator::new(10, 100);
    assert!(acc.push(rec(0), 500).is_none());
    // 99 ms after the first arrival: still open.
    assert!(acc.poll(599).is_none());
    // 100 ms after: closed.
    assert_eq!(acc.poll(600).unwrap().len(), 1);
}

#[test]
fn close_flushes_the_open_window() {
    let mut acc = BatchAccumulator::new(5, 2000);
    assert!(acc.push(rec(7), 0).is_none());
    let batch = acc.close().unwrap();
    assert_eq!(batch.len(), 1);
    assert_eq!(batch[0].offset, 7);
    assert!(acc.close().is_none());
}

#[test]
fn worker_accumulator_carries_the_bounds() {
    let worker = StreamWorker::new(NoopProcessor, 2, 50);
    let mut acc = worker.accumulator();
    assert!(acc.push(rec(0), 0).is_none());
    // The second record fills the window to the worker's buffer size.
    assert_eq!(acc.push(rec(1), 0).unwrap().len(), 2);
    // And the worker's timeout governs the window.
    assert!(acc.push(rec(2), 10).is_none());
    assert!(acc.poll(59).is_none());
    assert_eq!(acc.poll(60).unwrap().len(), 1);
}
