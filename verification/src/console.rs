//! The console writer's output line.
//!
//! One JSON line per podping, carrying its origin (block number,
//! transaction id, index), its variant tag, and the payload itself. The
//! console sink persists nothing, so its watermark read is always absent.

use vstd::prelude::*;

use crate::decimal::{dec_spec, dec_u64, push_all};
use crate::podping::Podping;

verus! {

/// `{"block_num":`
pub open spec fn lit_block_num() -> Seq<u8> {
    seq![123u8, 34u8, 98u8, 108u8, 111u8, 99u8, 107u8, 95u8, 110u8, 117u8, 109u8, 34u8, 58u8]
}

/// `,"tx_id":"`
pub open spec fn lit_tx_id() -> Seq<u8> {
    seq![44u8, 34u8, 116u8, 120u8, 95u8, 105u8, 100u8, 34u8, 58u8, 34u8]
}

/// `","index":`
pub open spec fn lit_index() -> Seq<u8> {
    seq![34u8, 44u8, 34u8, 105u8, 110u8, 100u8, 101u8, 120u8, 34u8, 58u8]
}

/// `,"variant":"`
pub open spec fn lit_variant() -> Seq<u8> {
    seq![44u8, 34u8, 118u8, 97u8, 114u8, 105u8, 97u8, 110u8, 116u8, 34u8, 58u8, 34u8]
}

/// `","podping":`
pub open spec fn lit_podping() -> Seq<u8> {
    seq![34u8, 44u8, 34u8, 112u8, 111u8, 100u8, 112u8, 105u8, 110u8, 103u8, 34u8, 58u8]
}

/// The console line of one podping (without the line terminator).
pub open spec fn console_line_spec(block_num: u64, tx_id: Seq<u8>, index: nat, p: Podping) -> Seq<
    u8,
> {
    lit_block_num() + dec_spec(block_num as nat) + lit_tx_id() + tx_id + lit_index() + dec_spec(
        index,
    ) + lit_variant() + p.variant_name_view() + lit_podping() + p.payload_view() + seq![125u8]
}

fn build_lit_block_num() -> (r: Vec<u8>)
    ensures
        r@ == lit_block_num(),
{
    let mut out: Vec<u8> = Vec::new();
    out.push(123);
    out.push(34);
    out.push(98);
    out.push(108);
    out.push(111);
    out.push(99);
    out.push(107);
    out.push(95);
    out.push(110);
    out.push(117);
    out.push(109);
    out.push(34);
    out.push(58);
    proof {
        assert(out@ =~= lit_block_num());
    }
    out
}

fn build_lit_tx_id() -> (r: Vec<u8>)
    ensures
        r@ == lit_tx_id(),
{
    let mut out: Vec<u8> = Vec::new();
    out.push(44);
    out.push(34);
    out.push(116);
    out.push(120);
    out.push(95);
    out.push(105);
    out.push(100);
    out.push(34);
    out.push(58);
    out.push(34);
    proof {
        assert(out@ =~= lit_tx_id());
    }
    out
}

fn build_lit_index() -> (r: Vec<u8>)
    ensures
        r@ == lit_index(),
{
    let mut out: Vec<u8> = Vec::new();
    out.push(34);
    out.push(44);
    out.push(34);
    out.push(105);
    out.push(110);
    out.push(100);
    out.push(101);
    out.push(120);
    out.push(34);
    out.push(58);
    proof {
        assert(out@ =~= lit_index());
    }
    out
}

fn build_lit_variant() -> (r: Vec<u8>)
    ensures
        r@ == lit_variant(),
{
    let mut out: Vec<u8> = Vec::new();
    out.push(44);
    out.push(34);
    out.push(118);
    out.push(97);
    out.push(114);
    out.push(105);
    out.push(97);
    out.push(110);
    out.push(116);
    out.push(34);
    out.push(58);
    out.push(34);
    proof {
        assert(out@ =~= lit_variant());
    }
    out
}

fn build_lit_podping() -> (r: Vec<u8>)
    ensures
        r@ == lit_podping(),
{
    let mut out: Vec<u8> = Vec::new();
    out.push(34);
    out.push(44);
    out.push(34);
    out.push(112);
    out.push(111);
    out.push(100);
    out.push(112);
    out.push(105);
    out.push(110);
    out.push(103);
    out.push(34);
    out.push(58);
    proof {
        assert(out@ =~= lit_podping());
    }
    out
}

/// Renders the console line of one podping.
pub fn console_line(block_num: u64, tx_id: &Vec<u8>, index: usize, p: &Podping) -> (r: Vec<u8>)
    ensures
        r@ == console_line_spec(block_num, tx_id@, index as nat, *p),
{
    let mut out = build_lit_block_num();
    let part = dec_u64(block_num);
    push_all(&mut out, part.as_slice());
    let part = build_lit_tx_id();
    push_all(&mut out, part.as_slice());
    push_all(&mut out, tx_id.as_slice());
    let part = build_lit_index();
    push_all(&mut out, part.as_slice());
    let part = dec_u64(index as u64);
    push_all(&mut out, part.as_slice());
    let part = build_lit_variant();
    push_all(&mut out, part.as_slice());
    let part = p.variant_name();
    push_all(&mut out, part.as_slice());
    let part = build_lit_podping();
    push_all(&mut out, part.as_slice());
    push_all(&mut out, p.payload().as_slice());
    out.push(125);
    proof {
        assert(out@ =~= console_line_spec(block_num, tx_id@, index as nat, *p));
    }
    out
}

/// The console sink keeps no watermark: reading it back is always absent.
pub fn console_last_block() -> (r: Option<u64>)
    ensures
        r is None,
{
    None
}

} // verus!
