//! Deep copies of host-owned buffers into owned vectors.
use vstd::prelude::*;

verus! {

/// The byte contents of each pair of a resolved-input sequence.
pub open spec fn pairs_view(s: Seq<(Vec<u8>, Vec<u8>)>) -> Seq<(Seq<u8>, Seq<u8>)> {
    s.map_values(|p: (Vec<u8>, Vec<u8>)| (p.0@, p.1@))
}

/// The byte contents of each pair of borrowed host buffers.
pub open spec fn borrowed_pairs_view(s: Seq<(&[u8], &[u8])>) -> Seq<(Seq<u8>, Seq<u8>)> {
    s.map_values(|p: (&[u8], &[u8])| (p.0@, p.1@))
}

/// The contents of an optional buffer, keeping absence apart from emptiness.
pub open spec fn optional_view(b: Option<&[u8]>) -> Option<Seq<u8>> {
    match b {
        Some(s) => Some(s@),
        None => None,
    }
}

/// The contents of an optional owned buffer.
pub open spec fn optional_vec_view(b: Option<Vec<u8>>) -> Option<Seq<u8>> {
    match b {
        Some(v) => Some(v@),
        None => None,
    }
}

/// Copies a byte buffer into a freshly owned vector of exactly its length.
pub fn copy_bytes(src: &[u8]) -> (r: Vec<u8>)
    ensures
        r@ == src@,
{
    let mut out: Vec<u8> = Vec::new();
    let mut i: usize = 0;
    while i < src.len()
        invariant
            i <= src@.len(),
            out@ == src@.subrange(0, i as int),
        decreases src@.len() - i,
    {
        out.push(src[i]);
        i = i + 1;
    }
    assert(out@ =~= src@);
    out
}

/// Copies every pair of buffers independently, keeping the order of the pairs.
pub fn copy_pairs(src: &[(&[u8], &[u8])]) -> (r: Vec<(Vec<u8>, Vec<u8>)>)
    ensures
        pairs_view(r@) == borrowed_pairs_view(src@),
{
    let mut out: Vec<(Vec<u8>, Vec<u8>)> = Vec::new();
    let mut i: usize = 0;
    while i < src.len()
        invariant
            i <= src@.len(),
            out@.len() == i,
            forall|j: int|
                0 <= j < i ==> (#[trigger] out@[j]).0@ == src@[j].0@ && out@[j].1@ == src@[j].1@,
        decreases src@.len() - i,
    {
        let (key, value) = src[i];
        let k = copy_bytes(key);
        let v = copy_bytes(value);
        out.push((k, v));
        i = i + 1;
    }
    assert(pairs_view(out@) =~= borrowed_pairs_view(src@));
    out
}

/// Copies an optional buffer: absence stays absence, and a present buffer,
/// empty or not, is copied as it is.
pub fn copy_optional(src: Option<&[u8]>) -> (r: Option<Vec<u8>>)
    ensures
        optional_vec_view(r) == optional_view(src),
{
    match src {
        Some(s) => Some(copy_bytes(s)),
        None => None,
    }
}

} // verus!
