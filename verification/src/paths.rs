//! Sink locations.
//!
//! Every sink places a block's podpings under a calendar directory
//! `<year>/<month>/<day>/<hour>/<minute>/<second>` and names each file from
//! its (block, transaction, index) origin; the newest schema version embeds
//! its session identifier and nanosecond timestamp instead of the index.
//! The watermark lives beside the tree under a fixed name.

use vstd::prelude::*;

use crate::decimal::{dec_spec, dec_u64, push_all};
use crate::podping::{Podping, Timestamp};

verus! {

/// The `/` separator.
pub open spec fn sep() -> Seq<u8> {
    seq![47u8]
}

/// The `_` joiner inside file names.
pub open spec fn joiner() -> Seq<u8> {
    seq![95u8]
}

/// The `.json` suffix.
pub open spec fn json_suffix() -> Seq<u8> {
    seq![46u8, 106u8, 115u8, 111u8, 110u8]
}

/// The name of the durable watermark object, `last_updated_block`.
pub open spec fn last_updated_block_name() -> Seq<u8> {
    seq![
        108u8, 97u8, 115u8, 116u8, 95u8, 117u8, 112u8, 100u8, 97u8, 116u8, 101u8, 100u8, 95u8,
        98u8, 108u8, 111u8, 99u8, 107u8,
    ]
}

/// Returns the watermark object name, `last_updated_block`.
pub fn last_updated_block_filename() -> (r: Vec<u8>)
    ensures
        r@ == last_updated_block_name(),
{
    let mut out: Vec<u8> = Vec::new();
    out.push(108);
    out.push(97);
    out.push(115);
    out.push(116);
    out.push(95);
    out.push(117);
    out.push(112);
    out.push(100);
    out.push(97);
    out.push(116);
    out.push(101);
    out.push(100);
    out.push(95);
    out.push(98);
    out.push(108);
    out.push(111);
    out.push(99);
    out.push(107);
    proof {
        assert(out@ =~= last_updated_block_name());
    }
    out
}

/// The calendar directory of a block:
/// `<year>/<month>/<day>/<hour>/<minute>/<second>`, each field a plain
/// decimal without padding.
pub open spec fn block_dir_spec(ts: Timestamp) -> Seq<u8> {
    dec_spec(ts.year as nat) + sep() + dec_spec(ts.month as nat) + sep() + dec_spec(ts.day as nat)
        + sep() + dec_spec(ts.hour as nat) + sep() + dec_spec(ts.minute as nat) + sep() + dec_spec(
        ts.second as nat,
    )
}

/// The file name of one podping:
/// `<block_num>_<tx_id>_<index>.json` for the four older schema versions,
/// `<block_num>_<tx_id>_<session_id>_<timestamp_ns>.json` for the newest.
pub open spec fn podping_file_name_spec(block_num: u64, tx_id: Seq<u8>, index: nat, p: Podping) -> Seq<
    u8,
> {
    match p {
        Podping::V11 { session_id, timestamp_ns, .. } => dec_spec(block_num as nat) + joiner()
            + tx_id + joiner() + session_id@ + joiner() + dec_spec(timestamp_ns as nat)
            + json_suffix(),
        _ => dec_spec(block_num as nat) + joiner() + tx_id + joiner() + dec_spec(index)
            + json_suffix(),
    }
}

/// The full sink path of one podping relative to the sink root.
pub open spec fn podping_path_spec(
    ts: Timestamp,
    block_num: u64,
    tx_id: Seq<u8>,
    index: nat,
    p: Podping,
) -> Seq<u8> {
    block_dir_spec(ts) + sep() + podping_file_name_spec(block_num, tx_id, index, p)
}

/// Builds the calendar directory of a block.
pub fn block_dir(ts: &Timestamp) -> (r: Vec<u8>)
    ensures
        r@ == block_dir_spec(*ts),
{
    let mut out: Vec<u8> = Vec::new();
    let part = dec_u64(ts.year as u64);
    push_all(&mut out, part.as_slice());
    out.push(47);
    let part = dec_u64(ts.month as u64);
    push_all(&mut out, part.as_slice());
    out.push(47);
    let part = dec_u64(ts.day as u64);
    push_all(&mut out, part.as_slice());
    out.push(47);
    let part = dec_u64(ts.hour as u64);
    push_all(&mut out, part.as_slice());
    out.push(47);
    let part = dec_u64(ts.minute as u64);
    push_all(&mut out, part.as_slice());
    out.push(47);
    let part = dec_u64(ts.second as u64);
    push_all(&mut out, part.as_slice());
    proof {
        assert(out@ =~= block_dir_spec(*ts));
    }
    out
}

/// Builds the file name of one podping.
pub fn podping_file_name(block_num: u64, tx_id: &Vec<u8>, index: usize, p: &Podping) -> (r: Vec<
    u8,
>)
    ensures
        r@ == podping_file_name_spec(block_num, tx_id@, index as nat, *p),
{
    let mut out: Vec<u8> = Vec::new();
    let part = dec_u64(block_num);
    push_all(&mut out, part.as_slice());
    out.push(95);
    push_all(&mut out, tx_id.as_slice());
    out.push(95);
    match p {
        Podping::V11 { session_id, timestamp_ns, .. } => {
            push_all(&mut out, session_id.as_slice());
            out.push(95);
            let part = dec_u64(*timestamp_ns);
            push_all(&mut out, part.as_slice());
        },
        _ => {
            let part = dec_u64(index as u64);
            push_all(&mut out, part.as_slice());
        },
    }
    out.push(46);
    out.push(106);
    out.push(115);
    out.push(111);
    out.push(110);
    proof {
        assert(out@ =~= podping_file_name_spec(block_num, tx_id@, index as nat, *p));
    }
    out
}

/// Builds the full sink path of one podping relative to the sink root.
pub fn podping_path(
    ts: &Timestamp,
    block_num: u64,
    tx_id: &Vec<u8>,
    index: usize,
    p: &Podping,
) -> (r: Vec<u8>)
    ensures
        r@ == podping_path_spec(*ts, block_num, tx_id@, index as nat, *p),
{
    let mut out = block_dir(ts);
    out.push(47);
    let name = podping_file_name(block_num, tx_id, index, p);
    push_all(&mut out, name.as_slice());
    proof {
        assert(out@ =~= podping_path_spec(*ts, block_num, tx_id@, index as nat, *p));
    }
    out
}

} // verus!
