//! The resume point, and the timestamp search behind it.
//!
//! On startup the syncer fuses four sources, in fixed precedence: a durable
//! watermark `w` resumes at `w + 1`; otherwise a configured start block;
//! otherwise a configured start datetime, found by binary search over block
//! timestamps; otherwise the current chain head.

use vstd::prelude::*;

use crate::decimal::{dec_spec, lemma_watermark_round_trip, watermark_spec};
use crate::podping::Timestamp;

verus! {

/// Where the scanner starts: at a known block number, or at the first
/// block whose timestamp is at or after the given instant.
#[derive(Debug, Clone, Copy, PartialEq, Eq, Structural)]
pub enum ResumePoint {
    At(u64),
    SearchFrom(Timestamp),
}

/// The resume precedence: watermark, then start block, then start
/// datetime, then chain head.
pub open spec fn resume_spec(
    watermark: Option<u64>,
    start_block: Option<u64>,
    start_datetime: Option<Timestamp>,
    head: u64,
) -> ResumePoint {
    match watermark {
        Option::Some(w) => ResumePoint::At((w + 1) as u64),
        Option::None => match start_block {
            Option::Some(s) => ResumePoint::At(s),
            Option::None => match start_datetime {
                Option::Some(dt) => ResumePoint::SearchFrom(dt),
                Option::None => ResumePoint::At(head),
            },
        },
    }
}

/// Computes the resume point. A persisted watermark takes precedence over
/// every configured hint.
pub fn resume_point(
    watermark: Option<u64>,
    start_block: Option<u64>,
    start_datetime: Option<Timestamp>,
    head: u64,
) -> (r: ResumePoint)
    requires
        watermark is Some ==> watermark->0 < u64::MAX,
    ensures
        r == resume_spec(watermark, start_block, start_datetime, head),
{
    match watermark {
        Some(w) => ResumePoint::At(w + 1),
        None => match start_block {
            Some(s) => ResumePoint::At(s),
            None => match start_datetime {
                Some(dt) => ResumePoint::SearchFrom(dt),
                None => ResumePoint::At(head),
            },
        },
    }
}

/// Resume determinism: with a persisted watermark `w` the scanner's first
/// block is `w + 1`, whatever start hints are configured and wherever the
/// chain head stands.
pub proof fn lemma_resume_determinism(
    w: u64,
    start_block_a: Option<u64>,
    start_datetime_a: Option<Timestamp>,
    head_a: u64,
    start_block_b: Option<u64>,
    start_datetime_b: Option<Timestamp>,
    head_b: u64,
)
    requires
        w < u64::MAX,
    ensures
        resume_spec(Some(w), start_block_a, start_datetime_a, head_a) == ResumePoint::At(
            (w + 1) as u64,
        ),
        resume_spec(Some(w), start_block_a, start_datetime_a, head_a) == resume_spec(
            Some(w),
            start_block_b,
            start_datetime_b,
            head_b,
        ),
{
}

/// Resume from a stored watermark, end to end: a watermark object holding
/// the canonical decimal of `w` reads back as exactly `w`, and the scanner
/// then starts at `w + 1`, whatever start hints are configured and wherever
/// the chain head stands.
pub proof fn lemma_stored_watermark_resume(
    w: u64,
    start_block: Option<u64>,
    start_datetime: Option<Timestamp>,
    head: u64,
)
    requires
        w < u64::MAX,
    ensures
        watermark_spec(dec_spec(w as nat)) == Some(w),
        resume_spec(watermark_spec(dec_spec(w as nat)), start_block, start_datetime, head)
            == ResumePoint::At((w + 1) as u64),
{
    lemma_watermark_round_trip(w);
}

/// A binary search over block numbers `[lo, hi]` for the first block whose
/// timestamp is at or after a target instant. The caller fetches the probe
/// block's timestamp between steps; the search needs nothing but the
/// comparison's outcome.
pub struct BlockSearch {
    pub lo: u64,
    pub hi: u64,
}

impl BlockSearch {
    pub open spec fn wf(self) -> bool {
        self.lo <= self.hi
    }

    pub open spec fn mid_spec(self) -> u64 {
        (self.lo + (self.hi - self.lo) / 2) as u64
    }

    pub fn new(lo: u64, hi: u64) -> (r: BlockSearch)
        requires
            lo <= hi,
        ensures
            r.wf(),
            r.lo == lo,
            r.hi == hi,
    {
        BlockSearch { lo, hi }
    }

    /// The next block to probe, or `None` when the search has converged on
    /// `lo == hi`, the answer.
    pub fn next_probe(&self) -> (r: Option<u64>)
        requires
            self.wf(),
        ensures
            self.lo == self.hi ==> r is None,
            self.lo < self.hi ==> r == Some(self.mid_spec()) && self.lo <= self.mid_spec()
                < self.hi,
    {
        if self.lo == self.hi {
            None
        } else {
            Some(self.lo + (self.hi - self.lo) / 2)
        }
    }

    /// Narrows the interval by the probe's outcome: `at_or_after` is
    /// whether the probed block's timestamp is at or after the target.
    pub fn step(&mut self, at_or_after: bool)
        requires
            old(self).wf(),
            old(self).lo < old(self).hi,
        ensures
            final(self).wf(),
            at_or_after ==> final(self).lo == old(self).lo && final(self).hi == old(
                self,
            ).mid_spec(),
            !at_or_after ==> final(self).lo == old(self).mid_spec() + 1 && final(self).hi == old(
                self,
            ).hi,
            final(self).hi - final(self).lo < old(self).hi - old(self).lo,
    {
        let mid = self.lo + (self.hi - self.lo) / 2;
        if at_or_after {
            self.hi = mid;
        } else {
            self.lo = mid + 1;
        }
    }
}

/// Block timestamps in non-decreasing (on-chain) order.
pub open spec fn sorted_chain(ts: Seq<Timestamp>) -> bool {
    forall|i: int, j: int| 0 <= i <= j < ts.len() ==> !(#[trigger] ts[j]).lt_spec(#[trigger] ts[i])
}

/// The search invariant over the chain segment being searched, with block
/// offsets into `ts`: every block before `lo` is before the target, every
/// block at or past `hi` is at or after it.
pub open spec fn bracket(ts: Seq<Timestamp>, target: Timestamp, lo: int, hi: int) -> bool {
    &&& 0 <= lo <= hi <= ts.len()
    &&& forall|i: int| 0 <= i < lo ==> (#[trigger] ts[i]).lt_spec(target)
    &&& forall|i: int| hi <= i < ts.len() ==> (#[trigger] ts[i]).ge_spec(target)
}

/// The lexicographic timestamp order is transitive across a non-strict
/// bound: from `a <= b` and `b < c` follows `a < c`.
pub proof fn lemma_ts_order(a: Timestamp, b: Timestamp, c: Timestamp)
    requires
        !b.lt_spec(a),
        b.lt_spec(c),
    ensures
        a.lt_spec(c),
{
}

/// One search step preserves the invariant: on a sorted chain, a probe at
/// or after the target rules out everything past it, a probe before the
/// target rules out everything up to it.
pub proof fn lemma_search_step_preserves(
    ts: Seq<Timestamp>,
    target: Timestamp,
    lo: int,
    hi: int,
    at_or_after: bool,
)
    requires
        sorted_chain(ts),
        bracket(ts, target, lo, hi),
        lo < hi,
        at_or_after == ts[lo + (hi - lo) / 2].ge_spec(target),
    ensures
        at_or_after ==> bracket(ts, target, lo, lo + (hi - lo) / 2),
        !at_or_after ==> bracket(ts, target, lo + (hi - lo) / 2 + 1, hi),
{
    let mid = lo + (hi - lo) / 2;
    if at_or_after {
        assert forall|i: int| mid <= i < ts.len() implies (#[trigger] ts[i]).ge_spec(target) by {
            if i < hi {
                if ts[i].lt_spec(target) {
                    lemma_ts_order(ts[mid], ts[i], target);
                }
            }
        }
    } else {
        assert forall|i: int| 0 <= i < mid + 1 implies (#[trigger] ts[i]).lt_spec(target) by {
            if i >= lo {
                lemma_ts_order(ts[i], ts[mid], target);
            }
        }
    }
}

/// A converged search found the first block at or after the target: all
/// earlier blocks are before it, and — when the answer lies inside the
/// searched segment — the answer itself is at or after it.
pub proof fn lemma_search_done(ts: Seq<Timestamp>, target: Timestamp, lo: int)
    requires
        bracket(ts, target, lo, lo),
    ensures
        forall|i: int| 0 <= i < lo ==> (#[trigger] ts[i]).lt_spec(target),
        lo < ts.len() ==> ts[lo].ge_spec(target),
{
}

} // verus!
