//! Run-level decisions: the page-count estimate behind the progress bar,
//! its denominator, and the admission gate that keeps the number of
//! simultaneously running symbol pipelines at or under the ceiling.

use vstd::prelude::*;

use crate::types::Timespan;

verus! {

/// How many symbol pipelines may hold a slot at once.
pub const CONCURRENCY_LIMIT: usize = 10;

/// How long to pause after each persisted page, in milliseconds.
pub const PAGE_DELAY_MILLIS: u64 = 20;

/// The estimated number of granularity-sized intervals in a range of the
/// given length. Months and quarters are approximated from weeks, years
/// from days; the estimate feeds only the progress display.
pub open spec fn intervals_model(timespan: Timespan, duration_millis: int) -> int {
    match timespan {
        Timespan::Second => duration_millis / 1000,
        Timespan::Minute => duration_millis / 60000,
        Timespan::Hour => duration_millis / 3600000,
        Timespan::Day => duration_millis / 86400000,
        Timespan::Week => duration_millis / 604800000,
        Timespan::Month => (duration_millis / 604800000) / 4,
        Timespan::Quarter => (duration_millis / 604800000) / 12,
        Timespan::Year => (duration_millis / 86400000) / 365,
    }
}

/// Estimates how many pages one symbol's range will take: the interval
/// count divided by the page limit. A heuristic, not a promise; it only
/// sizes the progress bar.
pub fn num_chunks(timespan: Timespan, from_millis: i64, to_millis: i64, limit: u32) -> (n: i64)
    requires
        from_millis <= to_millis,
        to_millis - from_millis <= i64::MAX,
        limit > 0,
    ensures
        n == intervals_model(timespan, to_millis - from_millis) / (limit as int),
        n >= 0,
{
    let d: u64 = (to_millis - from_millis) as u64;
    let intervals: u64 = match timespan {
        Timespan::Second => d / 1000,
        Timespan::Minute => d / 60000,
        Timespan::Hour => d / 3600000,
        Timespan::Day => d / 86400000,
        Timespan::Week => d / 604800000,
        Timespan::Month => (d / 604800000) / 4,
        Timespan::Quarter => (d / 604800000) / 12,
        Timespan::Year => (d / 86400000) / 365,
    };
    let n: u64 = intervals / (limit as u64);
    n as i64
}

/// The progress bar's denominator: the per-symbol page estimate times the
/// number of symbols.
pub fn progress_total(num_tickers: usize, chunks: i64) -> (t: u64)
    requires
        chunks >= 0,
        num_tickers * chunks <= u64::MAX,
    ensures
        t == num_tickers * chunks,
{
    (num_tickers as u64) * (chunks as u64)
}

/// The admission gate of one run: symbols are started in list order, at
/// most `limit` pipelines hold a slot at once, and a slot is given back
/// when a pipeline ends, in success or failure alike.
#[derive(Clone, Copy, PartialEq, Eq, Structural, Debug)]
pub struct Scheduler {
    /// How many symbols the run has.
    pub total: usize,
    /// How many pipelines have been started so far.
    pub started: usize,
    /// How many pipelines have ended so far.
    pub finished: usize,
    /// The concurrency ceiling.
    pub limit: usize,
}

impl Scheduler {
    /// How many pipelines hold a slot now.
    pub open spec fn active(self) -> int {
        self.started - self.finished
    }

    /// Well-formed bookkeeping: ends never exceed starts, starts never
    /// exceed the symbol count, and the active pipelines stay at or under
    /// the ceiling.
    pub open spec fn wf(self) -> bool {
        self.finished <= self.started <= self.total && self.active() <= self.limit && self.limit
            >= 1
    }

    /// A fresh gate with nothing started.
    pub fn new(total: usize, limit: usize) -> (s: Self)
        requires
            limit >= 1,
        ensures
            s.wf(),
            s == (Scheduler { total, started: 0, finished: 0, limit }),
    {
        Scheduler { total, started: 0, finished: 0, limit }
    }

    /// Admits the next waiting symbol when a slot is free, and says which
    /// one by its index in the symbol list. Admission never lifts the
    /// active count above the ceiling; when nothing waits or no slot is
    /// free, nothing changes.
    pub fn try_start(&mut self) -> (r: Option<usize>)
        requires
            old(self).wf(),
        ensures
            final(self).wf(),
            final(self).total == old(self).total,
            final(self).limit == old(self).limit,
            final(self).finished == old(self).finished,
            r matches Some(i) ==> i == old(self).started && final(self).started == old(
                self,
            ).started + 1 && old(self).active() < old(self).limit && old(self).started < old(
                self,
            ).total,
            r is None ==> *final(self) == *old(self) && (old(self).started == old(self).total
                || old(self).active() == old(self).limit),
    {
        if self.started < self.total && self.started - self.finished < self.limit {
            let i = self.started;
            self.started = self.started + 1;
            Some(i)
        } else {
            None
        }
    }

    /// Gives a slot back when one pipeline ends, however it ended.
    pub fn finish(&mut self)
        requires
            old(self).wf(),
            old(self).active() > 0,
        ensures
            final(self).wf(),
            final(self).finished == old(self).finished + 1,
            final(self).started == old(self).started,
            final(self).total == old(self).total,
            final(self).limit == old(self).limit,
    {
        self.finished = self.finished + 1;
    }

    /// How many pipelines hold a slot now.
    pub fn active_count(&self) -> (n: usize)
        requires
            self.wf(),
        ensures
            n == self.active(),
    {
        self.started - self.finished
    }
}

/// Law: in every well-formed state, the number of active pipelines is at
/// or under the ceiling.
pub proof fn lemma_gate_ceiling(s: Scheduler)
    requires
        s.wf(),
    ensures
        s.active() <= s.limit,
{
}

} // verus!
