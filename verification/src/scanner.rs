//! The scanner: the producer side of the pipeline.
//!
//! Given a resume block, the scanner walks the chain: while its cursor is
//! past the head it polls; otherwise it fetches the next batch, assembles
//! one `HiveBlockWithNum` per fetched block, emits it, and advances the
//! cursor past the emitted block. A scanner instance emits block numbers in
//! strictly increasing order.

use vstd::prelude::*;

use crate::decoder::{
    decode_operation, op_podpings, op_skipped, ops_podpings, ops_skipped, CustomJsonOp,
    DecodeOutcome,
};
use crate::json::json_well_formed;
use crate::podping::{BlockTransaction, HiveBlockWithNum, Podping, Timestamp};

verus! {

/// One decision of the scan loop: wait a block time, or fetch a range.
#[derive(Debug, Clone, Copy, PartialEq, Eq, Structural)]
pub enum ScanAction {
    Poll,
    Fetch { lo: u64, hi: u64 },
}

/// The upper end of the next fetch: at most `batch` blocks, never past the
/// head.
pub open spec fn fetch_hi_spec(cursor: u64, head: u64, batch: u64) -> int {
    if head - cursor < batch {
        head as int
    } else {
        cursor + batch - 1
    }
}

/// Decides the scan loop's next move from the cursor and the chain head.
pub fn scan_step(cursor: u64, head: u64, batch: u64) -> (a: ScanAction)
    requires
        batch >= 1,
    ensures
        cursor > head ==> a == ScanAction::Poll,
        cursor <= head ==> a == (ScanAction::Fetch {
            lo: cursor,
            hi: fetch_hi_spec(cursor, head, batch) as u64,
        }),
        cursor <= head ==> cursor <= fetch_hi_spec(cursor, head, batch) <= head && fetch_hi_spec(
            cursor,
            head,
            batch,
        ) - cursor < batch,
{
    if cursor > head {
        ScanAction::Poll
    } else {
        let hi = if head - cursor < batch {
            head
        } else {
            cursor + batch - 1
        };
        ScanAction::Fetch { lo: cursor, hi }
    }
}

/// The scanner's cursor together with the (ghost) numbers of every block it
/// has emitted, in order.
pub struct ScannerState {
    pub cursor: u64,
    pub emitted: Ghost<Seq<u64>>,
}

impl ScannerState {
    /// Emitted block numbers are strictly increasing and all below the
    /// cursor.
    pub open spec fn wf(self) -> bool {
        &&& forall|i: int, j: int|
            0 <= i < j < self.emitted@.len() ==> self.emitted@[i] < self.emitted@[j]
        &&& forall|i: int| 0 <= i < self.emitted@.len() ==> self.emitted@[i] < self.cursor
    }

    /// A fresh scanner at its resume block.
    pub fn new(start: u64) -> (r: ScannerState)
        ensures
            r.wf(),
            r.cursor == start,
            r.emitted@ == Seq::<u64>::empty(),
    {
        ScannerState { cursor: start, emitted: Ghost(Seq::empty()) }
    }

    /// Records the emission of block `block_num` and advances the cursor
    /// past it. Blocks are only ever emitted at or ahead of the cursor, so
    /// emission order is strictly increasing.
    pub fn emit(&mut self, block_num: u64)
        requires
            old(self).wf(),
            block_num >= old(self).cursor,
            block_num < u64::MAX,
        ensures
            final(self).wf(),
            final(self).cursor == block_num + 1,
            final(self).emitted@ == old(self).emitted@.push(block_num),
    {
        self.cursor = block_num + 1;
        proof {
            self.emitted@ = self.emitted@.push(block_num);
        }
    }
}

/// A scanner instance emits blocks in strictly increasing number order.
pub proof fn lemma_emission_order(s: ScannerState)
    requires
        s.wf(),
    ensures
        forall|i: int, j: int| 0 <= i < j < s.emitted@.len() ==> s.emitted@[i] < s.emitted@[j],
{
}

/// The transactions a block keeps: those with at least one surviving
/// podping, in on-chain order.
pub open spec fn keep_nonempty(txs: Seq<BlockTransaction>) -> Seq<BlockTransaction>
    decreases txs.len(),
{
    if txs.len() == 0 {
        Seq::empty()
    } else if txs.last().podpings@.len() > 0 {
        keep_nonempty(txs.drop_last()).push(txs.last())
    } else {
        keep_nonempty(txs.drop_last())
    }
}

/// Drops the transactions without surviving podpings, keeping order.
pub fn group_transactions(decoded: Vec<BlockTransaction>) -> (r: Vec<BlockTransaction>)
    ensures
        r@ == keep_nonempty(decoded@),
{
    let ghost whole = decoded@;
    let mut rest = decoded;
    let mut stack: Vec<BlockTransaction> = Vec::new();
    while rest.len() > 0
        invariant
            keep_nonempty(whole) == keep_nonempty(rest@) + stack@.reverse(),
        decreases rest@.len(),
    {
        let ghost rest_old = rest@;
        let ghost stack_old = stack@;
        let tx = rest.pop().unwrap();
        if tx.podpings.len() > 0 {
            stack.push(tx);
            proof {
                assert(stack@.reverse() =~= seq![stack_old.push(rest_old.last()).last()]
                    + stack_old.reverse());
                assert(keep_nonempty(rest_old) + stack_old.reverse() =~= keep_nonempty(rest@)
                    + stack@.reverse());
            }
        } else {
            proof {
                assert(keep_nonempty(rest_old) == keep_nonempty(rest@));
            }
        }
    }
    proof {
        assert(keep_nonempty(rest@) == Seq::<BlockTransaction>::empty());
        assert(keep_nonempty(whole) =~= stack@.reverse());
    }
    let mut out: Vec<BlockTransaction> = Vec::new();
    while stack.len() > 0
        invariant
            keep_nonempty(whole) == out@ + stack@.reverse(),
        decreases stack@.len(),
    {
        let ghost out_old = out@;
        let ghost stack_old = stack@;
        let tx = stack.pop().unwrap();
        out.push(tx);
        proof {
            assert(stack_old.reverse() =~= seq![stack_old.last()] + stack@.reverse());
            assert(out_old + stack_old.reverse() =~= out@ + stack@.reverse());
        }
    }
    proof {
        assert(keep_nonempty(whole) =~= out@);
    }
    out
}

/// One raw transaction as fetched: its id and its custom-JSON operations.
#[derive(Debug, Clone)]
pub struct RawTransaction {
    pub tx_id: Vec<u8>,
    pub ops: Vec<CustomJsonOp>,
}

/// Decodes one raw transaction: operations without a posting authority are
/// not considered; recognized podpings are collected in operation order; an
/// invalid podping operation is counted (for one warning each) and skipped,
/// never stalling the scan. The result is exactly the decode of its
/// operations.
pub fn decode_transaction(tx: RawTransaction) -> (r: (BlockTransaction, u64))
    ensures
        r.0.tx_id@ == tx.tx_id@,
        r.0.podpings@ == ops_podpings(tx.ops@),
        r.1 as nat == ops_skipped(tx.ops@),
{
    let mut podpings: Vec<Podping> = Vec::new();
    let mut skipped: u64 = 0;
    let ops = tx.ops;
    let mut i: usize = 0;
    while i < ops.len()
        invariant
            0 <= i <= ops@.len(),
            podpings@ == ops_podpings(ops@.take(i as int)),
            skipped as nat == ops_skipped(ops@.take(i as int)),
            skipped <= i,
        decreases ops@.len() - i,
    {
        proof {
            assert(ops@.take(i + 1).drop_last() =~= ops@.take(i as int));
            assert(ops@.take(i + 1).last() == ops@[i as int]);
        }
        let op = &ops[i];
        if op.required_posting_auths.len() > 0 {
            match decode_operation(op) {
                DecodeOutcome::Podpings(mut ps) => {
                    proof {
                        // A decoded operation was recognized, well-formed
                        // and fully classified; its podpings are owed.
                        assert(id_recognized_of(op));
                        assert(json_well_formed(op.json@));
                        assert(ps@ == op_podpings(ops@[i as int]));
                        assert(op_skipped(ops@[i as int]) == 0);
                    }
                    podpings.append(&mut ps);
                },
                DecodeOutcome::Invalid(_) => {
                    proof {
                        assert(id_recognized_of(op));
                        assert(op_podpings(ops@[i as int]) =~= Seq::<Podping>::empty());
                        assert(op_skipped(ops@[i as int]) == 1);
                        assert(podpings@ + Seq::<Podping>::empty() =~= podpings@);
                    }
                    skipped = skipped + 1;
                },
                DecodeOutcome::NotPodping => {
                    proof {
                        assert(!id_recognized_of(op));
                        assert(podpings@ + Seq::<Podping>::empty() =~= podpings@);
                    }
                },
            }
        } else {
            proof {
                assert(op_podpings(ops@[i as int]) == Seq::<Podping>::empty());
                assert(op_skipped(ops@[i as int]) == 0);
                assert(podpings@ + Seq::<Podping>::empty() =~= podpings@);
            }
        }
        i = i + 1;
    }
    proof {
        assert(ops@.take(ops@.len() as int) =~= ops@);
    }
    (BlockTransaction { tx_id: tx.tx_id, podpings }, skipped)
}

/// Shorthand for the decoder's id predicate over a borrowed operation.
spec fn id_recognized_of(op: &CustomJsonOp) -> bool {
    crate::decoder::id_recognized(op.id@)
}

/// The (tx id, podpings) views of the transactions a decoded block keeps:
/// those whose operations contributed at least one podping, in on-chain
/// order.
pub open spec fn kept_tx_views(txs: Seq<RawTransaction>) -> Seq<(Seq<u8>, Seq<Podping>)>
    decreases txs.len(),
{
    if txs.len() == 0 {
        Seq::empty()
    } else {
        let rest = kept_tx_views(txs.drop_last());
        if ops_podpings(txs.last().ops@).len() > 0 {
            rest.push((txs.last().tx_id@, ops_podpings(txs.last().ops@)))
        } else {
            rest
        }
    }
}

/// How many operations of a whole raw block count as invalid podpings.
pub open spec fn block_skipped(txs: Seq<RawTransaction>) -> nat
    decreases txs.len(),
{
    if txs.len() == 0 {
        0
    } else {
        block_skipped(txs.drop_last()) + ops_skipped(txs.last().ops@)
    }
}

/// Transactions decoded elementwise from raw transactions keep exactly the
/// kept views after empty ones are dropped.
pub proof fn lemma_keep_matches(decoded: Seq<BlockTransaction>, txs: Seq<RawTransaction>)
    requires
        decoded.len() == txs.len(),
        forall|j: int|
            0 <= j < txs.len() ==> (#[trigger] decoded[j]).tx_id@ == txs[j].tx_id@
                && decoded[j].podpings@ == ops_podpings(txs[j].ops@),
    ensures
        keep_nonempty(decoded).len() == kept_tx_views(txs).len(),
        forall|i: int|
            0 <= i < keep_nonempty(decoded).len() ==> (#[trigger] keep_nonempty(decoded)[i]).tx_id@
                == kept_tx_views(txs)[i].0 && keep_nonempty(decoded)[i].podpings@ == kept_tx_views(
                txs,
            )[i].1,
    decreases txs.len(),
{
    if txs.len() > 0 {
        assert forall|j: int| 0 <= j < txs.len() - 1 implies (#[trigger] decoded.drop_last()[j]).tx_id@
            == txs.drop_last()[j].tx_id@ && decoded.drop_last()[j].podpings@ == ops_podpings(
            txs.drop_last()[j].ops@,
        ) by {
            assert(decoded.drop_last()[j] == decoded[j]);
            assert(txs.drop_last()[j] == txs[j]);
        }
        lemma_keep_matches(decoded.drop_last(), txs.drop_last());
        let kd = keep_nonempty(decoded.drop_last());
        let kv = kept_tx_views(txs.drop_last());
        assert(decoded.last() == decoded[txs.len() - 1]);
        assert(txs.last() == txs[txs.len() - 1]);
        if decoded.last().podpings@.len() > 0 {
            let k = keep_nonempty(decoded);
            let v = kept_tx_views(txs);
            assert forall|i: int| 0 <= i < k.len() implies (#[trigger] k[i]).tx_id@ == v[i].0
                && k[i].podpings@ == v[i].1 by {
                if i < kd.len() {
                    assert(k[i] == kd[i]);
                    assert(v[i] == kv[i]);
                } else {
                    assert(k[i] == decoded.last());
                    assert(v[i] == (txs.last().tx_id@, ops_podpings(txs.last().ops@)));
                }
            }
        }
    }
}

/// Decodes one raw block into the block the scanner emits, together with
/// the number of invalid podping operations it skipped (saturating, should
/// the count not fit). The kept transactions are exactly those whose
/// operations decoded to podpings, in order; a block may legally come out
/// with no transactions at all.
pub fn decode_block(block_num: u64, timestamp: Timestamp, txs: Vec<RawTransaction>) -> (r: (
    HiveBlockWithNum,
    u64,
))
    ensures
        r.0.block_num == block_num,
        r.0.timestamp == timestamp,
        r.0.transactions@.len() == kept_tx_views(txs@).len(),
        forall|i: int|
            0 <= i < r.0.transactions@.len() ==> (#[trigger] r.0.transactions@[i]).tx_id@
                == kept_tx_views(txs@)[i].0 && r.0.transactions@[i].podpings@ == kept_tx_views(
                txs@,
            )[i].1,
        block_skipped(txs@) <= u64::MAX ==> r.1 as nat == block_skipped(txs@),
        block_skipped(txs@) > u64::MAX ==> r.1 == u64::MAX,
{
    let ghost whole = txs@;
    let mut rest = txs;
    let mut decoded: Vec<BlockTransaction> = Vec::new();
    let mut skipped: u64 = 0;
    while rest.len() > 0
        invariant
            decoded@.len() <= whole.len(),
            rest@ == whole.skip(decoded@.len() as int),
            forall|j: int|
                0 <= j < decoded@.len() ==> (#[trigger] decoded@[j]).tx_id@ == whole[j].tx_id@
                    && decoded@[j].podpings@ == ops_podpings(whole[j].ops@),
            block_skipped(whole.take(decoded@.len() as int)) <= u64::MAX ==> skipped as nat
                == block_skipped(whole.take(decoded@.len() as int)),
            block_skipped(whole.take(decoded@.len() as int)) > u64::MAX ==> skipped == u64::MAX,
        decreases rest@.len(),
    {
        let ghost k = decoded@.len() as int;
        proof {
            assert(whole.skip(k).remove(0) =~= whole.skip(k + 1));
            assert(whole.take(k + 1).drop_last() =~= whole.take(k));
            assert(whole.take(k + 1).last() == whole[k]);
        }
        let tx = rest.remove(0);
        proof {
            assert(tx == whole[k]);
        }
        let (bt, sk) = decode_transaction(tx);
        decoded.push(bt);
        skipped = if skipped <= u64::MAX - sk {
            skipped + sk
        } else {
            u64::MAX
        };
    }
    proof {
        assert(decoded@.len() == whole.len());
        assert(whole.take(whole.len() as int) =~= whole);
    }
    let ghost decoded_view = decoded@;
    let block = assemble_block(block_num, timestamp, decoded);
    proof {
        lemma_keep_matches(decoded_view, whole);
    }
    (block, skipped)
}

/// Assembles the block the scanner emits: its number, its UTC timestamp,
/// and only the transactions that kept podpings. A block whose transactions
/// all dropped out is still a legal, empty block.
pub fn assemble_block(block_num: u64, timestamp: Timestamp, decoded: Vec<BlockTransaction>) -> (r:
    HiveBlockWithNum)
    ensures
        r.block_num == block_num,
        r.timestamp == timestamp,
        r.transactions@ == keep_nonempty(decoded@),
{
    HiveBlockWithNum { block_num, timestamp, transactions: group_transactions(decoded) }
}

} // verus!
