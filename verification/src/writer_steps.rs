//! Writer reactions to the broadcast channel.
//!
//! A writer consumes from a bounded broadcast ring. Each receive yields a
//! value, a lag signal (the ring dropped `n` blocks it could not hold), or
//! channel closure. The reaction is pure decision logic: lag is warned
//! about and tolerated; closure is fatal to a streaming writer and a clean
//! shutdown for a batched one.

use vstd::prelude::*;

use crate::plan::{block_put_plan, block_puts_spec, puts_match, PutRequest};
use crate::podping::HiveBlockWithNum;
use crate::watermark::{advances, apply_block_spec, WriterState};

verus! {

/// What one receive from the broadcast channel yielded.
pub enum RecvOutcome {
    Block(HiveBlockWithNum),
    Lagged(u64),
    Closed,
}

/// A streaming writer's reaction to one receive.
pub enum StreamAction {
    Persist(HiveBlockWithNum),
    WarnLag(u64),
    FatalChannelClosed,
}

/// What one receive of a block batch yielded.
pub enum BatchRecvOutcome {
    Batch(Vec<HiveBlockWithNum>),
    Lagged(u64),
    Closed,
}

/// A batched writer's reaction to one receive.
pub enum BatchAction {
    PersistBatch(Vec<HiveBlockWithNum>),
    WarnLag(u64),
    Shutdown,
}

/// The streaming writer's decision: persist what arrived, warn and carry on
/// under lag, fail when the channel closed under it.
pub fn streaming_step(r: RecvOutcome) -> (a: StreamAction)
    ensures
        match r {
            RecvOutcome::Block(b) => a == StreamAction::Persist(b),
            RecvOutcome::Lagged(n) => a == StreamAction::WarnLag(n),
            RecvOutcome::Closed => a == StreamAction::FatalChannelClosed,
        },
{
    match r {
        RecvOutcome::Block(b) => StreamAction::Persist(b),
        RecvOutcome::Lagged(n) => StreamAction::WarnLag(n),
        RecvOutcome::Closed => StreamAction::FatalChannelClosed,
    }
}

/// The batched writer's decision: as the streaming one, but closure is a
/// clean shutdown.
pub fn batch_step(r: BatchRecvOutcome) -> (a: BatchAction)
    ensures
        match r {
            BatchRecvOutcome::Batch(bs) => a == BatchAction::PersistBatch(bs),
            BatchRecvOutcome::Lagged(n) => a == BatchAction::WarnLag(n),
            BatchRecvOutcome::Closed => a == BatchAction::Shutdown,
        },
{
    match r {
        BatchRecvOutcome::Batch(bs) => BatchAction::PersistBatch(bs),
        BatchRecvOutcome::Lagged(n) => BatchAction::WarnLag(n),
        BatchRecvOutcome::Closed => BatchAction::Shutdown,
    }
}

/// One block through a writer: plan all its podping writes, then record it
/// against the watermark. A block with no transactions has an empty plan
/// but still advances the watermark to its number.
pub fn process_block(state: &mut WriterState, block: &HiveBlockWithNum) -> (r: (
    Vec<PutRequest>,
    bool,
))
    requires
        old(state).wf(),
    ensures
        final(state).wf(),
        puts_match(r.0@, block_puts_spec(*block)),
        r.1 == advances(old(state).watermark, block.block_num),
        final(state).watermark == apply_block_spec(old(state).watermark, block.block_num),
{
    let plan = block_put_plan(block);
    let wrote = state.record_block(block.block_num);
    (plan, wrote)
}

/// The single watermark update of a batch: the number of its last block.
/// An empty batch updates nothing.
pub fn batch_last_block(blocks: &Vec<HiveBlockWithNum>) -> (r: Option<u64>)
    ensures
        blocks@.len() == 0 ==> r is None,
        blocks@.len() > 0 ==> r == Some(blocks@.last().block_num),
{
    if blocks.len() == 0 {
        None
    } else {
        Some(blocks[blocks.len() - 1].block_num)
    }
}

} // verus!
