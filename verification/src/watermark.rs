//! The durable watermark.
//!
//! A writer records the highest block number whose podpings it has handed
//! to its sink. Within a run the values written are strictly increasing;
//! a block that would not advance the watermark is recorded as already
//! covered and nothing is written.

use vstd::prelude::*;

use crate::decimal::watermark_spec;
use crate::decimal::parse_watermark;
use crate::status::GetObjectError;

verus! {

/// Whether persisting block `bn` advances watermark `w`.
pub open spec fn advances(w: Option<u64>, bn: u64) -> bool {
    match w {
        Option::None => true,
        Option::Some(x) => bn > x,
    }
}

/// The watermark after a writer hands block `bn` to its sink.
pub open spec fn apply_block_spec(w: Option<u64>, bn: u64) -> Option<u64> {
    if advances(w, bn) {
        Some(bn)
    } else {
        w
    }
}

/// A writer's watermark bookkeeping. `history` records every value ever
/// written to the sink's watermark location during this run, in order.
pub struct WriterState {
    pub watermark: Option<u64>,
    pub history: Ghost<Seq<u64>>,
}

impl WriterState {
    /// Within a run the watermark values written are strictly increasing,
    /// and the current watermark is the last one written (or the resumed
    /// one, recorded as history of length one).
    pub open spec fn wf(self) -> bool {
        &&& forall|i: int, j: int|
            0 <= i < j < self.history@.len() ==> self.history@[i] < self.history@[j]
        &&& self.watermark == (if self.history@.len() == 0 {
            Option::<u64>::None
        } else {
            Option::Some(self.history@.last())
        })
    }

    /// Starts a run from the watermark read back from the sink, if any.
    pub fn new(initial: Option<u64>) -> (r: WriterState)
        ensures
            r.wf(),
            r.watermark == initial,
            r.history@ == (match initial {
                Option::None => Seq::<u64>::empty(),
                Option::Some(w) => seq![w],
            }),
    {
        match initial {
            None => WriterState { watermark: None, history: Ghost(Seq::empty()) },
            Some(w) => WriterState { watermark: Some(w), history: Ghost(Seq::empty().push(w)) },
        }
    }

    /// Records that block `block_num` was handed to the sink. Returns
    /// whether the sink's watermark must be (over)written — true exactly
    /// when the block advances it, also for a block with no podpings.
    pub fn record_block(&mut self, block_num: u64) -> (wrote: bool)
        requires
            old(self).wf(),
        ensures
            final(self).wf(),
            wrote == advances(old(self).watermark, block_num),
            final(self).watermark == apply_block_spec(old(self).watermark, block_num),
            wrote ==> final(self).history@ == old(self).history@.push(block_num),
            !wrote ==> *final(self) == *old(self),
    {
        let write = match self.watermark {
            None => true,
            Some(w) => block_num > w,
        };
        if write {
            self.watermark = Some(block_num);
            proof {
                self.history@ = self.history@.push(block_num);
            }
        }
        write
    }
}

/// Monotonic watermark: within a run, the sequence of values a writer
/// writes to the watermark location is strictly increasing.
pub proof fn lemma_watermark_monotonic(w: WriterState)
    requires
        w.wf(),
    ensures
        forall|i: int, j: int| 0 <= i < j < w.history@.len() ==> w.history@[i] < w.history@[j],
{
}

/// Lag recovery: dropped blocks leave the watermark untouched, so any
/// later block that is ahead of it still advances it. Historical gaps are
/// tolerated; progress is not lost.
pub proof fn lemma_lag_recovery(w: Option<u64>, block_num: u64)
    requires
        advances(w, block_num),
    ensures
        apply_block_spec(w, block_num) == Some(block_num),
{
}

/// Interprets a watermark fetch as the writers do: a missing object means
/// "no watermark yet" and is not an error; unreadable contents read as
/// absent; any other fetch failure surfaces.
pub fn read_watermark(fetch: Result<Vec<u8>, GetObjectError>) -> (r: Result<
    Option<u64>,
    GetObjectError,
>)
    ensures
        match fetch {
            Result::Ok(body) => r == Result::<Option<u64>, GetObjectError>::Ok(
                watermark_spec(body@),
            ),
            Result::Err(e) => if e == GetObjectError::NotFound {
                r == Result::<Option<u64>, GetObjectError>::Ok(Option::<u64>::None)
            } else {
                r == Result::<Option<u64>, GetObjectError>::Err(e)
            },
        },
{
    match fetch {
        Ok(body) => Ok(parse_watermark(&body)),
        Err(GetObjectError::NotFound) => Ok(None),
        Err(e) => Err(e),
    }
}

} // verus!
