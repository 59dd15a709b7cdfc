use vstd::prelude::*;

verus! {

/// The four bytes of a 32-bit word, least significant first.
pub open spec fn le_bytes(w: u32) -> Seq<u8> {
    seq![w as u8, (w >> 8u32) as u8, (w >> 16u32) as u8, (w >> 24u32) as u8]
}

/// A sequence of words laid out one after the other, each little-endian.
pub open spec fn words_bytes(ws: Seq<u32>) -> Seq<u8>
    decreases ws.len(),
{
    if ws.len() == 0 {
        Seq::empty()
    } else {
        words_bytes(ws.drop_last()) + le_bytes(ws.last())
    }
}

pub proof fn lemma_words_bytes_len(ws: Seq<u32>)
    ensures
        words_bytes(ws).len() == 4 * ws.len(),
    decreases ws.len(),
{
    if ws.len() > 0 {
        lemma_words_bytes_len(ws.drop_last());
    }
}

/// Appends one word, least significant byte first.
pub fn push_word(out: &mut Vec<u8>, w: u32)
    ensures
        final(out)@ == old(out)@ + le_bytes(w),
{
    let ghost start = out@;
    out.push(w as u8);
    out.push((w >> 8u32) as u8);
    out.push((w >> 16u32) as u8);
    out.push((w >> 24u32) as u8);
    assert(out@ =~= start + le_bytes(w));
}

/// Appends every word of `ws` in order, each little-endian.
pub fn push_words(out: &mut Vec<u8>, ws: &[u32])
    ensures
        final(out)@ == old(out)@ + words_bytes(ws@),
{
    let ghost start = out@;
    let mut i: usize = 0;
    while i < ws.len()
        invariant
            i <= ws@.len(),
            out@ == start + words_bytes(ws@.take(i as int)),
        decreases ws@.len() - i,
    {
        proof {
            assert(ws@.take(i as int + 1).drop_last() =~= ws@.take(i as int));
        }
        push_word(out, ws[i]);
        i = i + 1;
        proof {
            assert(out@ =~= start + words_bytes(ws@.take(i as int)));
        }
    }
    assert(ws@.take(i as int) =~= ws@);
}

} // verus!
