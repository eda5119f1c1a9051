//! Small operations on byte buffers shared by the request builders and the
//! response reader.
use vstd::prelude::*;

verus! {

/// Appends `src[start..stop]` to `out`.
pub fn push_range(out: &mut Vec<u8>, src: &[u8], start: usize, stop: usize)
    requires
        start <= stop <= src@.len(),
    ensures
        final(out)@ == old(out)@ + src@.subrange(start as int, stop as int),
{
    let ghost begin = out@;
    let mut i: usize = start;
    while i < stop
        invariant
            start <= i <= stop <= src@.len(),
            out@ == begin + src@.subrange(start as int, i as int),
        decreases stop - i,
    {
        out.push(src[i]);
        i = i + 1;
        assert(out@ =~= begin + src@.subrange(start as int, i as int));
    }
}

/// Appends the bytes of `src` to `out`.
pub fn push_bytes(out: &mut Vec<u8>, src: &[u8])
    ensures
        final(out)@ == old(out)@ + src@,
{
    push_range(out, src, 0, src.len());
    assert(src@.subrange(0, src@.len() as int) =~= src@);
}

/// Whether `src` holds `pat` from position `at` on, within `src[..stop]`.
pub fn holds_at(src: &[u8], at: usize, stop: usize, pat: &[u8]) -> (r: bool)
    requires
        at <= stop <= src@.len(),
    ensures
        r == (pat@.len() <= stop - at && src@.subrange(at as int, at + pat@.len()) == pat@),
{
    if pat.len() > stop - at {
        return false;
    }
    let mut k: usize = 0;
    while k < pat.len()
        invariant
            pat@.len() <= stop - at,
            at <= stop <= src@.len(),
            k <= pat@.len(),
            forall|j: int| 0 <= j < k ==> src@[at + j] == pat@[j],
        decreases pat@.len() - k,
    {
        if src[at + k] != pat[k] {
            assert(src@.subrange(at as int, at + pat@.len())[k as int] != pat@[k as int]);
            return false;
        }
        k = k + 1;
    }
    assert(src@.subrange(at as int, at + pat@.len()) =~= pat@);
    true
}

} // verus!
