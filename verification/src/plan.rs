//! The write plan of a block.
//!
//! Persisting a block means issuing one write per surviving podping — path,
//! body and content type — and the pipeline's guarantees are stated over
//! that plan: exactly one write per (block, transaction, index) triple, in
//! on-chain order, each to the variant-appropriate file name. The sink
//! itself is modelled as a map from paths to bytes on which every write is
//! an unconditional overwrite, which makes replaying a block idempotent.

use vstd::prelude::*;

use crate::decimal::push_all;
use crate::paths::{last_updated_block_name, podping_path, podping_path_spec};
use crate::podping::{BlockTransaction, HiveBlockWithNum, Podping, Timestamp};

verus! {

/// Content type of one write: podpings are JSON, the watermark plain text.
#[derive(Debug, Clone, Copy, PartialEq, Eq, Structural)]
pub enum ContentType {
    ApplicationJson,
    TextPlain,
}

/// One write a sink must perform: an unconditional overwrite of `path`
/// (relative to the sink root) with `body`.
pub struct PutRequest {
    pub path: Vec<u8>,
    pub body: Vec<u8>,
    pub content_type: ContentType,
}

/// The mathematical form of one write.
pub struct PutSpec {
    pub path: Seq<u8>,
    pub body: Seq<u8>,
    pub content_type: ContentType,
}

/// The writes of one transaction: one per podping, in transaction order.
pub open spec fn tx_puts_spec(ts: Timestamp, block_num: u64, tx: BlockTransaction) -> Seq<
    PutSpec,
> {
    Seq::new(
        tx.podpings@.len(),
        |i: int|
            PutSpec {
                path: podping_path_spec(ts, block_num, tx.tx_id@, i as nat, tx.podpings@[i]),
                body: tx.podpings@[i].payload_view(),
                content_type: ContentType::ApplicationJson,
            },
    )
}

pub open spec fn txs_puts_spec(ts: Timestamp, block_num: u64, txs: Seq<BlockTransaction>) -> Seq<
    PutSpec,
>
    decreases txs.len(),
{
    if txs.len() == 0 {
        Seq::empty()
    } else {
        txs_puts_spec(ts, block_num, txs.drop_last()) + tx_puts_spec(ts, block_num, txs.last())
    }
}

/// All podping writes of one block, in on-chain order.
pub open spec fn block_puts_spec(b: HiveBlockWithNum) -> Seq<PutSpec> {
    txs_puts_spec(b.timestamp, b.block_num, b.transactions@)
}

/// The executable plan realizes the mathematical one element by element.
pub open spec fn puts_match(r: Seq<PutRequest>, s: Seq<PutSpec>) -> bool {
    &&& r.len() == s.len()
    &&& forall|i: int|
        0 <= i < r.len() ==> {
            &&& (#[trigger] r[i]).path@ == s[i].path
            &&& r[i].body@ == s[i].body
            &&& r[i].content_type == s[i].content_type
        }
}

/// Copies a byte vector.
pub fn copy_bytes(src: &Vec<u8>) -> (r: Vec<u8>)
    ensures
        r@ == src@,
{
    let mut out: Vec<u8> = Vec::new();
    push_all(&mut out, src.as_slice());
    proof {
        assert(out@ =~= src@);
    }
    out
}

/// Builds the write plan of a block: one put per podping, grouped by
/// transaction, both in on-chain order. A block with no transactions has an
/// empty plan; its watermark update alone records it.
pub fn block_put_plan(block: &HiveBlockWithNum) -> (r: Vec<PutRequest>)
    ensures
        puts_match(r@, block_puts_spec(*block)),
{
    let mut out: Vec<PutRequest> = Vec::new();
    let mut t: usize = 0;
    while t < block.transactions.len()
        invariant
            0 <= t <= block.transactions@.len(),
            puts_match(
                out@,
                txs_puts_spec(block.timestamp, block.block_num, block.transactions@.take(t as int)),
            ),
        decreases block.transactions@.len() - t,
    {
        let tx = &block.transactions[t];
        let ghost prefix = txs_puts_spec(
            block.timestamp,
            block.block_num,
            block.transactions@.take(t as int),
        );
        let mut i: usize = 0;
        while i < tx.podpings.len()
            invariant
                0 <= i <= tx.podpings@.len(),
                tx == block.transactions@[t as int],
                0 <= t < block.transactions@.len(),
                prefix == txs_puts_spec(
                    block.timestamp,
                    block.block_num,
                    block.transactions@.take(t as int),
                ),
                puts_match(
                    out@,
                    prefix + tx_puts_spec(block.timestamp, block.block_num, *tx).take(i as int),
                ),
            decreases tx.podpings@.len() - i,
        {
            let p = &tx.podpings[i];
            let path = podping_path(&block.timestamp, block.block_num, &tx.tx_id, i, p);
            let body = copy_bytes(p.payload());
            out.push(PutRequest { path, body, content_type: ContentType::ApplicationJson });
            proof {
                let full = tx_puts_spec(block.timestamp, block.block_num, *tx);
                assert(prefix + full.take(i + 1) =~= (prefix + full.take(i as int)).push(
                    full[i as int],
                ));
            }
            i = i + 1;
        }
        proof {
            let txs = block.transactions@;
            assert(txs.take(t + 1).drop_last() =~= txs.take(t as int));
            assert(txs.take(t + 1).last() == txs[t as int]);
            let full = tx_puts_spec(block.timestamp, block.block_num, *tx);
            assert(full.take(full.len() as int) =~= full);
        }
        t = t + 1;
    }
    proof {
        assert(block.transactions@.take(block.transactions@.len() as int)
            =~= block.transactions@);
    }
    out
}

/// Schema coverage: a block holding exactly one podping plans exactly one
/// write, to that podping's variant-appropriate path, carrying its payload.
pub proof fn lemma_schema_coverage(b: HiveBlockWithNum)
    requires
        b.transactions@.len() == 1,
        b.transactions@[0].podpings@.len() == 1,
    ensures
        block_puts_spec(b).len() == 1,
        block_puts_spec(b)[0].path == podping_path_spec(
            b.timestamp,
            b.block_num,
            b.transactions@[0].tx_id@,
            0,
            b.transactions@[0].podpings@[0],
        ),
        block_puts_spec(b)[0].body == b.transactions@[0].podpings@[0].payload_view(),
        block_puts_spec(b)[0].content_type == ContentType::ApplicationJson,
{
    let txs = b.transactions@;
    assert(txs.drop_last() =~= Seq::<BlockTransaction>::empty());
    assert(txs.last() == txs[0]);
    assert(txs_puts_spec(b.timestamp, b.block_num, Seq::<BlockTransaction>::empty())
        == Seq::<PutSpec>::empty());
    assert(block_puts_spec(b) == Seq::<PutSpec>::empty() + tx_puts_spec(
        b.timestamp,
        b.block_num,
        txs[0],
    ));
    assert(block_puts_spec(b) =~= tx_puts_spec(b.timestamp, b.block_num, txs[0]));
}

/// A sink: a map from paths to the bytes last written there.
pub open spec fn apply_puts(files: Map<Seq<u8>, Seq<u8>>, puts: Seq<PutSpec>) -> Map<
    Seq<u8>,
    Seq<u8>,
>
    decreases puts.len(),
{
    if puts.len() == 0 {
        files
    } else {
        apply_puts(files, puts.drop_last()).insert(puts.last().path, puts.last().body)
    }
}

/// The last body a plan writes to `path`, if any.
pub open spec fn last_write(puts: Seq<PutSpec>, path: Seq<u8>) -> Option<Seq<u8>>
    decreases puts.len(),
{
    if puts.len() == 0 {
        None
    } else if puts.last().path == path {
        Some(puts.last().body)
    } else {
        last_write(puts.drop_last(), path)
    }
}

/// After a plan runs, each path holds its last written body; untouched
/// paths keep what the sink held before.
pub proof fn lemma_apply_puts_lookup(files: Map<Seq<u8>, Seq<u8>>, puts: Seq<PutSpec>, path: Seq<
    u8,
>)
    ensures
        match last_write(puts, path) {
            Some(body) => apply_puts(files, puts).contains_key(path) && apply_puts(files, puts)[path]
                == body,
            None => apply_puts(files, puts).contains_key(path) == files.contains_key(path) && (
            files.contains_key(path) ==> apply_puts(files, puts)[path] == files[path]),
        },
    decreases puts.len(),
{
    if puts.len() > 0 {
        lemma_apply_puts_lookup(files, puts.drop_last(), path);
    }
}

/// The sink state after one block: all its podping writes, then the
/// watermark overwrite.
pub open spec fn sink_after_block(
    files: Map<Seq<u8>, Seq<u8>>,
    b: HiveBlockWithNum,
    watermark_body: Seq<u8>,
) -> Map<Seq<u8>, Seq<u8>> {
    apply_puts(files, block_puts_spec(b)).insert(last_updated_block_name(), watermark_body)
}

/// Replay idempotence: because every write is an unconditional overwrite
/// and a block's plan is a function of the block alone, running the same
/// plan a second time leaves the sink byte-identical.
pub proof fn lemma_replay_idempotent(files: Map<Seq<u8>, Seq<u8>>, puts: Seq<PutSpec>)
    ensures
        apply_puts(apply_puts(files, puts), puts) == apply_puts(files, puts),
{
    let once = apply_puts(files, puts);
    let twice = apply_puts(once, puts);
    assert forall|path: Seq<u8>| #[trigger]
        twice.contains_key(path) == once.contains_key(path) && (once.contains_key(path)
            ==> twice[path] == once[path]) by {
        lemma_apply_puts_lookup(files, puts, path);
        lemma_apply_puts_lookup(once, puts, path);
    }
    assert(twice =~= once);
}

/// Replaying one block leaves the sink byte-identical: the same files and
/// the same watermark.
pub proof fn lemma_replay_block_idempotent(
    files: Map<Seq<u8>, Seq<u8>>,
    b: HiveBlockWithNum,
    watermark_body: Seq<u8>,
)
    ensures
        sink_after_block(sink_after_block(files, b, watermark_body), b, watermark_body)
            == sink_after_block(files, b, watermark_body),
{
    let once = sink_after_block(files, b, watermark_body);
    let puts = block_puts_spec(b);
    assert forall|path: Seq<u8>| #[trigger]
        sink_after_block(once, b, watermark_body).contains_key(path) == once.contains_key(path) && (
        once.contains_key(path) ==> sink_after_block(once, b, watermark_body)[path] == once[path])
        by {
        if path != last_updated_block_name() {
            lemma_apply_puts_lookup(files, puts, path);
            lemma_apply_puts_lookup(apply_puts(files, puts), puts, path);
            lemma_apply_puts_lookup(once, puts, path);
        }
    }
    assert(sink_after_block(once, b, watermark_body) =~= once);
}

} // verus!
