//! Little-endian byte images of 32-bit words, as the GPU reads them.
use vstd::prelude::*;

verus! {

/// The four bytes of `x`, least significant first.
pub open spec fn word_bytes(x: u32) -> Seq<u8> {
    seq![
        (x % 256) as u8,
        ((x / 256) % 256) as u8,
        ((x / 65536) % 256) as u8,
        (x / 16777216) as u8,
    ]
}

/// The words of `s` laid out one after the other, each little-endian.
pub open spec fn words_bytes(s: Seq<u32>) -> Seq<u8>
    decreases s.len(),
{
    if s.len() == 0 {
        Seq::empty()
    } else {
        words_bytes(s.drop_last()) + word_bytes(s.last())
    }
}

pub proof fn lemma_words_bytes_len(s: Seq<u32>)
    ensures
        words_bytes(s).len() == 4 * s.len(),
    decreases s.len(),
{
    if s.len() > 0 {
        lemma_words_bytes_len(s.drop_last());
    }
}

/// Appends the little-endian bytes of `x` to `out`.
pub fn push_word(out: &mut Vec<u8>, x: u32)
    ensures
        final(out)@ == old(out)@ + word_bytes(x),
{
    out.push((x % 256) as u8);
    out.push(((x / 256) % 256) as u8);
    out.push(((x / 65536) % 256) as u8);
    out.push((x / 16777216) as u8);
    assert(final(out)@ =~= old(out)@ + word_bytes(x));
}

/// Appends the little-endian bytes of every word of `words` to `out`, in order.
pub fn push_words(out: &mut Vec<u8>, words: &[u32])
    ensures
        final(out)@ == old(out)@ + words_bytes(words@),
{
    let ghost start = out@;
    let mut i: usize = 0;
    while i < words.len()
        invariant
            i <= words@.len(),
            out@ == start + words_bytes(words@.subrange(0, i as int)),
        decreases words@.len() - i,
    {
        proof {
            assert(words@.subrange(0, i as int + 1).drop_last() =~= words@.subrange(0, i as int));
        }
        push_word(out, words[i]);
        i = i + 1;
    }
    assert(words@.subrange(0, i as int) =~= words@);
}

/// Overwrites the bytes of `memory` from `start` on with `bytes`.
pub fn write_at(memory: &mut Vec<u8>, start: usize, bytes: &Vec<u8>)
    requires
        start + bytes@.len() <= old(memory)@.len(),
    ensures
        final(memory)@ == old(memory)@.subrange(0, start as int) + bytes@ + old(memory)@.subrange(
            start + bytes@.len(),
            old(memory)@.len() as int,
        ),
{
    let n = memory.len();
    let mut k: usize = 0;
    while k < bytes.len()
        invariant
            k <= bytes@.len(),
            start + bytes@.len() <= n,
            n == old(memory)@.len(),
            memory@ == old(memory)@.subrange(0, start as int) + bytes@.subrange(0, k as int)
                + old(memory)@.subrange(start + k, old(memory)@.len() as int),
        decreases bytes@.len() - k,
    {
        assert(memory@.len() == old(memory)@.len());
        memory.set(start + k, bytes[k]);
        k = k + 1;
        assert(memory@ =~= old(memory)@.subrange(0, start as int) + bytes@.subrange(0, k as int)
            + old(memory)@.subrange(start + k, old(memory)@.len() as int));
    }
    assert(bytes@.subrange(0, k as int) =~= bytes@);
}

} // verus!
