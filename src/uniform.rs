use vstd::prelude::*;

use crate::bytes::lemma_words_bytes_len;
use crate::bytes::push_words;
use crate::bytes::words_bytes;

verus! {

/// Number of per-draw records the uniform buffer holds.
pub const MAX_UNIFORM_COUNT: u64 = 1048576;

/// Minimum dynamic uniform offset alignment that every device supports.
pub const UNIFORM_ALIGNMENT: u64 = 256;

/// Bytes of one per-draw record before padding.
pub const LOCALS_SIZE: u64 = 64;

/// Per-draw transform data: the model-view-projection matrix, column-major,
/// each entry the IEEE-754 bit pattern of a 32-bit float.
#[derive(Clone, Copy, Debug, PartialEq, Eq)]
pub struct Locals {
    pub mvp: [u32; 16],
}

pub open spec fn is_pow2(n: int) -> bool
    decreases n,
{
    if n <= 0 {
        false
    } else if n == 1 {
        true
    } else {
        n % 2 == 0 && is_pow2(n / 2)
    }
}

/// Decides whether `n` is a power of two.
pub fn is_power_of_two(n: u64) -> (r: bool)
    ensures
        r == is_pow2(n as int),
{
    if n == 0 {
        return false;
    }
    let mut m: u64 = n;
    while m > 1 && m % 2 == 0
        invariant
            m >= 1,
            is_pow2(m as int) == is_pow2(n as int),
        decreases m,
    {
        m = m / 2;
    }
    m == 1
}

/// A per-draw record followed by zero padding up to the alignment.
pub open spec fn record_bytes(l: Locals, alignment: int) -> Seq<u8> {
    words_bytes(l.mvp@) + Seq::new((alignment - LOCALS_SIZE) as nat, |i: int| 0u8)
}

/// Records laid out at multiples of the alignment.
pub open spec fn records_bytes(ls: Seq<Locals>, alignment: int) -> Seq<u8>
    decreases ls.len(),
{
    if ls.len() == 0 {
        Seq::empty()
    } else {
        records_bytes(ls.drop_last(), alignment) + record_bytes(ls.last(), alignment)
    }
}

pub proof fn lemma_records_bytes_len(ls: Seq<Locals>, alignment: int)
    requires
        alignment >= LOCALS_SIZE,
    ensures
        records_bytes(ls, alignment).len() == ls.len() * alignment,
    decreases ls.len(),
{
    if ls.len() > 0 {
        lemma_records_bytes_len(ls.drop_last(), alignment);
        lemma_words_bytes_len(ls.last().mvp@);
        let n = ls.len() as int;
        assert((n - 1) * alignment + alignment == n * alignment) by (nonlinear_arith);
    }
}

/// Serializes per-draw records, record `k` at byte `k * alignment`, the
/// space after each record filled with zeros.
pub fn encode_records(ls: &Vec<Locals>, alignment: u64) -> (r: Vec<u8>)
    requires
        alignment >= LOCALS_SIZE,
    ensures
        r@ == records_bytes(ls@, alignment as int),
        r@.len() == ls@.len() * alignment,
{
    let mut out: Vec<u8> = Vec::new();
    let mut i: usize = 0;
    while i < ls.len()
        invariant
            i <= ls@.len(),
            alignment >= LOCALS_SIZE,
            out@ == records_bytes(ls@.take(i as int), alignment as int),
        decreases ls@.len() - i,
    {
        let l = ls[i];
        let ghost before = out@;
        push_words(&mut out, &l.mvp);
        let ghost words = out@;
        let pad = alignment - LOCALS_SIZE;
        let mut j: u64 = 0;
        while j < pad
            invariant
                j <= pad,
                out@ == words + Seq::new(j as nat, |k: int| 0u8),
            decreases pad - j,
        {
            out.push(0u8);
            j = j + 1;
            assert(out@ =~= words + Seq::new(j as nat, |k: int| 0u8));
        }
        proof {
            assert(ls@.take(i as int + 1).drop_last() =~= ls@.take(i as int));
            assert(out@ =~= before + record_bytes(l, alignment as int));
        }
        i = i + 1;
    }
    assert(ls@.take(i as int) =~= ls@);
    proof {
        lemma_records_bytes_len(ls@, alignment as int);
    }
    out
}


} // verus!
