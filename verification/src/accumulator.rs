use vstd::prelude::*;
use crate::record::RawRecord;

verus! {

/// Groups an ordered stream of records into bounded batches. A batch closes
/// when it reaches `max_size` records, or when `max_wait_ms` milliseconds
/// have passed since the first record of the open window arrived, whichever
/// comes first. Only non-empty batches are ever emitted; an empty window that
/// times out emits nothing.
///
/// The accumulator itself is clock-free: the driver reports arrival times to
/// `push` and checks the clock through `poll`.
pub struct BatchAccumulator {
    max_size: usize,
    max_wait_ms: u64,
    buf: Vec<RawRecord>,
    window_start_ms: Option<u64>,
}

impl BatchAccumulator {
    /// The records waiting in the open window, in arrival order.
    pub closed spec fn pending(self) -> Seq<RawRecord> {
        self.buf@
    }

    /// The most records a batch may hold.
    pub closed spec fn capacity(self) -> int {
        self.max_size as int
    }

    /// The longest a non-empty window stays open, in milliseconds.
    pub closed spec fn max_wait(self) -> int {
        self.max_wait_ms as int
    }

    /// When the first record of the open window arrived, if one did.
    pub closed spec fn window_start(self) -> Option<u64> {
        self.window_start_ms
    }

    /// Both bounds are positive, a full window never lingers (it is emitted
    /// by the `push` that filled it), and the window clock runs exactly when
    /// the window is non-empty.
    pub open spec fn wf(self) -> bool {
        &&& self.capacity() >= 1
        &&& self.max_wait() >= 1
        &&& self.pending().len() < self.capacity()
        &&& (self.window_start() is Some <==> self.pending().len() > 0)
    }

    pub fn new(max_size: usize, max_wait_ms: u64) -> (acc: Self)
        requires
            max_size >= 1,
            max_wait_ms >= 1,
        ensures
            acc.wf(),
            acc.pending() == Seq::<RawRecord>::empty(),
            acc.capacity() == max_size,
            acc.max_wait() == max_wait_ms,
    {
        BatchAccumulator { max_size, max_wait_ms, buf: Vec::new(), window_start_ms: None }
    }

    /// When the first record of the open window arrived — what a driver
    /// needs to arm its timeout timer.
    pub fn window_started_at(&self) -> (w: Option<u64>)
        ensures
            w == self.window_start(),
    {
        self.window_start_ms
    }

    /// A record arrived at `now_ms`. Returns the closed batch exactly when
    /// this arrival filled the window to capacity; otherwise the record joins
    /// the window, whose clock starts at the first arrival.
    pub fn push(&mut self, rec: RawRecord, now_ms: u64) -> (out: Option<Vec<RawRecord>>)
        requires
            old(self).wf(),
        ensures
            final(self).wf(),
            final(self).capacity() == old(self).capacity(),
            final(self).max_wait() == old(self).max_wait(),
            (out is Some) <==> old(self).pending().len() + 1 == old(self).capacity(),
            out matches Some(batch) ==> {
                &&& batch@ == old(self).pending().push(rec)
                &&& 1 <= batch@.len() <= old(self).capacity()
                &&& final(self).pending().len() == 0
            },
            out is None ==> {
                &&& final(self).pending() == old(self).pending().push(rec)
                &&& final(self).window_start() == (if old(self).pending().len() == 0 {
                    Some(now_ms)
                } else {
                    old(self).window_start()
                })
            },
    {
        if self.buf.len() == 0 {
            self.window_start_ms = Some(now_ms);
        }
        self.buf.push(rec);
        if self.buf.len() == self.max_size {
            self.window_start_ms = None;
            let mut full: Vec<RawRecord> = Vec::new();
            core::mem::swap(&mut full, &mut self.buf);
            Some(full)
        } else {
            None
        }
    }

    /// The driver checked the clock at `now_ms`. Returns the open window as a
    /// batch exactly when the window is non-empty and has been open for
    /// `max_wait` milliseconds or longer; otherwise nothing changes.
    pub fn poll(&mut self, now_ms: u64) -> (out: Option<Vec<RawRecord>>)
        requires
            old(self).wf(),
        ensures
            final(self).wf(),
            final(self).capacity() == old(self).capacity(),
            final(self).max_wait() == old(self).max_wait(),
            (out is Some) <==> (old(self).window_start() matches Some(w)
                && now_ms >= w + old(self).max_wait()),
            out matches Some(batch) ==> {
                &&& batch@ == old(self).pending()
                &&& 1 <= batch@.len() <= old(self).capacity()
                &&& final(self).pending().len() == 0
            },
            out is None ==> final(self).pending() == old(self).pending()
                && final(self).window_start() == old(self).window_start(),
    {
        let expired: bool = match self.window_start_ms {
            Some(w) => now_ms >= w && now_ms - w >= self.max_wait_ms,
            None => false,
        };
        if expired {
            self.window_start_ms = None;
            let mut full: Vec<RawRecord> = Vec::new();
            core::mem::swap(&mut full, &mut self.buf);
            Some(full)
        } else {
            None
        }
    }

    /// The input closed: flush whatever the open window still holds, exactly
    /// when it is non-empty.
    pub fn close(&mut self) -> (out: Option<Vec<RawRecord>>)
        requires
            old(self).wf(),
        ensures
            final(self).wf(),
            final(self).capacity() == old(self).capacity(),
            final(self).max_wait() == old(self).max_wait(),
            (out is Some) <==> old(self).pending().len() > 0,
            out matches Some(batch) ==> {
                &&& batch@ == old(self).pending()
                &&& 1 <= batch@.len() <= old(self).capacity()
            },
            final(self).pending().len() == 0,
    {
        if self.buf.len() == 0 {
            None
        } else {
            self.window_start_ms = None;
            let mut full: Vec<RawRecord> = Vec::new();
            core::mem::swap(&mut full, &mut self.buf);
            Some(full)
        }
    }
}

} // verus!
