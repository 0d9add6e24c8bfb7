//! ASCII decimal rendering and parsing.
//!
//! Every sink location is built from decimal renderings (block numbers,
//! calendar fields, podping indices, nanosecond timestamps), and the durable
//! watermark is stored as an ASCII decimal with optional surrounding
//! whitespace. Both directions are specified here: `dec_spec` is the
//! canonical decimal form of a number, `watermark_spec` the value read back
//! from a watermark file.

use vstd::prelude::*;

verus! {

/// The ASCII digit for `d`, which must be below ten.
pub open spec fn dec_digit(d: nat) -> u8 {
    (48 + d) as u8
}

/// Canonical ASCII decimal rendering of `n`: no sign, no leading zeros
/// (except for `n == 0`, rendered as a single zero digit).
pub open spec fn dec_spec(n: nat) -> Seq<u8>
    decreases n,
{
    if n < 10 {
        seq![dec_digit(n)]
    } else {
        dec_spec(n / 10).push(dec_digit(n % 10))
    }
}

pub open spec fn is_digit(b: u8) -> bool {
    48 <= b <= 57
}

/// The number denoted by a digit string, most significant digit first.
pub open spec fn digits_val(s: Seq<u8>) -> nat
    decreases s.len(),
{
    if s.len() == 0 {
        0
    } else {
        digits_val(s.drop_last()) * 10 + (s.last() - 48) as nat
    }
}

pub open spec fn all_digits(s: Seq<u8>) -> bool {
    forall|i: int| 0 <= i < s.len() ==> is_digit(#[trigger] s[i])
}

/// ASCII whitespace as the watermark reader tolerates it: space, tab,
/// line feed, carriage return.
pub open spec fn is_ascii_ws(b: u8) -> bool {
    b == 32 || b == 9 || b == 10 || b == 13
}

pub open spec fn trim_front_spec(s: Seq<u8>) -> Seq<u8>
    decreases s.len(),
{
    if s.len() > 0 && is_ascii_ws(s[0]) {
        trim_front_spec(s.drop_first())
    } else {
        s
    }
}

pub open spec fn trim_back_spec(s: Seq<u8>) -> Seq<u8>
    decreases s.len(),
{
    if s.len() > 0 && is_ascii_ws(s.last()) {
        trim_back_spec(s.drop_last())
    } else {
        s
    }
}

/// `s` with leading and trailing ASCII whitespace removed.
pub open spec fn trim_spec(s: Seq<u8>) -> Seq<u8> {
    trim_back_spec(trim_front_spec(s))
}

/// The value read from a watermark file: the trimmed contents must be a
/// non-empty digit string whose value fits in a `u64`; anything else is
/// treated as "no watermark".
pub open spec fn watermark_spec(s: Seq<u8>) -> Option<u64> {
    let t = trim_spec(s);
    if t.len() > 0 && all_digits(t) && digits_val(t) <= u64::MAX {
        Some(digits_val(t) as u64)
    } else {
        None
    }
}

/// Appends all of `src` to `dst`.
pub fn push_all(dst: &mut Vec<u8>, src: &[u8])
    ensures
        final(dst)@ == old(dst)@ + src@,
{
    let mut i: usize = 0;
    while i < src.len()
        invariant
            0 <= i <= src@.len(),
            dst@ == old(dst)@ + src@.take(i as int),
        decreases src@.len() - i,
    {
        dst.push(src[i]);
        proof {
            assert(old(dst)@ + src@.take(i + 1) =~= (old(dst)@ + src@.take(i as int)).push(
                src@[i as int],
            ));
        }
        i = i + 1;
    }
    proof {
        assert(src@.take(src@.len() as int) =~= src@);
    }
}

/// Renders `n` as ASCII decimal.
pub fn dec_u64(n: u64) -> (r: Vec<u8>)
    ensures
        r@ == dec_spec(n as nat),
{
    let mut out: Vec<u8> = Vec::new();
    let d0: u8 = (n % 10) as u8 + 48;
    out.push(d0);
    let mut m: u64 = n / 10;
    proof {
        if n < 10 {
            assert(out@ =~= dec_spec(n as nat));
        } else {
            assert(dec_spec(n as nat) =~= dec_spec((n / 10) as nat) + out@);
        }
    }
    while m > 0
        invariant
            m > 0 ==> dec_spec(n as nat) == dec_spec(m as nat) + out@,
            m == 0 ==> dec_spec(n as nat) == out@,
        decreases m,
    {
        let d: u8 = (m % 10) as u8 + 48;
        let ghost old_out = out@;
        let ghost old_m = m;
        out.insert(0, d);
        m = m / 10;
        proof {
            assert(out@ =~= seq![d] + old_out);
            if old_m < 10 {
                assert(dec_spec(old_m as nat) =~= seq![d]);
                assert(dec_spec(n as nat) =~= out@);
            } else {
                assert(dec_spec(old_m as nat) =~= dec_spec((old_m / 10) as nat) + seq![d]);
                assert(dec_spec(m as nat) + out@ =~= (dec_spec(m as nat) + seq![d]) + old_out);
                assert(dec_spec(n as nat) == dec_spec(m as nat) + out@);
            }
        }
    }
    out
}

/// The canonical decimal of `n` is a non-empty digit string whose value is
/// `n` itself.
pub proof fn lemma_dec_digits(n: nat)
    ensures
        dec_spec(n).len() > 0,
        all_digits(dec_spec(n)),
        digits_val(dec_spec(n)) == n,
    decreases n,
{
    if n < 10 {
        let s = dec_spec(n);
        assert(s == seq![dec_digit(n)]);
        assert(s.last() == dec_digit(n));
        assert(s.drop_last() =~= Seq::<u8>::empty());
        assert(digits_val(s) == digits_val(s.drop_last()) * 10 + (s.last() - 48) as nat);
        assert(digits_val(Seq::<u8>::empty()) == 0);
    } else {
        lemma_dec_digits(n / 10);
        let s = dec_spec(n / 10);
        let d = dec_digit(n % 10);
        assert(s.push(d).drop_last() =~= s);
        assert(s.push(d).last() == d);
        assert(digits_val(dec_spec(n)) == digits_val(s) * 10 + (d - 48) as nat);
        assert forall|i: int| 0 <= i < s.push(d).len() implies is_digit(#[trigger] s.push(d)[i]) by {
            if i < s.len() {
                assert(s.push(d)[i] == s[i]);
            } else {
                assert(s.push(d)[i] == d);
            }
        }
    }
}

/// Round trip: a watermark written as the canonical decimal of `w` reads
/// back as exactly `w`.
pub proof fn lemma_watermark_round_trip(w: u64)
    ensures
        watermark_spec(dec_spec(w as nat)) == Some(w),
{
    lemma_dec_digits(w as nat);
    let s = dec_spec(w as nat);
    assert(is_digit(s[0]) && !is_ascii_ws(s[0]));
    assert(trim_front_spec(s) == s);
    assert(is_digit(s.last()) && !is_ascii_ws(s.last()));
    assert(trim_back_spec(s) == s);
}

/// The value of a digit-string prefix never exceeds the value of the whole
/// string.
pub proof fn lemma_digits_prefix_le(s: Seq<u8>, k: int)
    requires
        0 <= k <= s.len(),
    ensures
        digits_val(s.take(k)) <= digits_val(s),
    decreases s.len() - k,
{
    if k == s.len() {
        assert(s.take(k) =~= s);
    } else {
        assert(s.take(k + 1).drop_last() =~= s.take(k));
        assert(digits_val(s.take(k + 1)) == digits_val(s.take(k)) * 10 + (s[k] - 48) as nat);
        lemma_digits_prefix_le(s, k + 1);
    }
}

/// Decides ASCII whitespace as `is_ascii_ws` defines it.
pub fn is_ws_byte(b: u8) -> (r: bool)
    ensures
        r == is_ascii_ws(b),
{
    b == 32 || b == 9 || b == 10 || b == 13
}

/// Parses the contents of a watermark file: optional surrounding ASCII
/// whitespace around a decimal block number. Empty, non-numeric and
/// out-of-range contents all read as "no watermark".
pub fn parse_watermark(s: &Vec<u8>) -> (r: Option<u64>)
    ensures
        r == watermark_spec(s@),
{
    let mut start: usize = 0;
    proof {
        assert(s@.subrange(0, s@.len() as int) =~= s@);
    }
    while start < s.len() && is_ws_byte(s[start])
        invariant
            0 <= start <= s@.len(),
            trim_front_spec(s@) == trim_front_spec(s@.subrange(start as int, s@.len() as int)),
        decreases s@.len() - start,
    {
        proof {
            let sub = s@.subrange(start as int, s@.len() as int);
            assert(sub.drop_first() =~= s@.subrange(start + 1, s@.len() as int));
        }
        start = start + 1;
    }
    proof {
        let sub = s@.subrange(start as int, s@.len() as int);
        if sub.len() > 0 {
            assert(sub[0] == s@[start as int]);
        }
        assert(trim_front_spec(s@) == sub);
    }
    let mut end: usize = s.len();
    while end > start && is_ws_byte(s[end - 1])
        invariant
            start <= end <= s@.len(),
            trim_front_spec(s@) == s@.subrange(start as int, s@.len() as int),
            trim_spec(s@) == trim_back_spec(s@.subrange(start as int, end as int)),
        decreases end,
    {
        proof {
            let sub = s@.subrange(start as int, end as int);
            assert(sub.drop_last() =~= s@.subrange(start as int, end - 1));
        }
        end = end - 1;
    }
    let ghost t = s@.subrange(start as int, end as int);
    proof {
        if t.len() > 0 {
            assert(t.last() == s@[end - 1]);
        }
        assert(trim_spec(s@) == t);
    }
    if start == end {
        proof {
            assert(t.len() == 0);
        }
        return None;
    }
    let mut acc: u64 = 0;
    let mut i: usize = start;
    while i < end
        invariant
            start <= i <= end <= s@.len(),
            start < end,
            t == s@.subrange(start as int, end as int),
            trim_spec(s@) == t,
            all_digits(t.take(i - start)),
            acc as nat == digits_val(t.take(i - start)),
        decreases end - i,
    {
        let b = s[i];
        if b < 48 || b > 57 {
            proof {
                assert(t[i - start] == b);
                assert(!all_digits(t));
            }
            return None;
        }
        let d: u64 = (b - 48) as u64;
        proof {
            assert(t.take(i - start + 1).drop_last() =~= t.take(i - start));
            assert(t.take(i - start + 1).last() == t[i - start] == b);
        }
        let m = match acc.checked_mul(10) {
            Some(m) => m,
            None => {
                proof {
                    assert(digits_val(t.take(i - start + 1)) > u64::MAX);
                    lemma_digits_prefix_le(t, i - start + 1);
                }
                return None;
            },
        };
        acc = match m.checked_add(d) {
            Some(a) => a,
            None => {
                proof {
                    assert(digits_val(t.take(i - start + 1)) > u64::MAX);
                    lemma_digits_prefix_le(t, i - start + 1);
                }
                return None;
            },
        };
        i = i + 1;
    }
    proof {
        assert(t.take(end - start) =~= t);
    }
    Some(acc)
}

} // verus!
