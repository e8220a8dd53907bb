//! Feeding a recording to a speech recognizer: the recording is handed over
//! in consecutive pieces of fixed length.

use vstd::prelude::*;

verus! {

/// How many samples the recognizer is given at a time.
pub const RECOGNIZER_CHUNK_LEN: usize = 4000;

/// The half-open sample ranges `(start, end)` that cut a recording of `len`
/// samples into consecutive pieces of `chunk_len` samples, the last piece
/// holding what is left; a recording without samples has no pieces.
pub fn chunk_bounds(len: usize, chunk_len: usize) -> (bounds: Vec<(usize, usize)>)
    requires
        chunk_len > 0,
    ensures
        bounds@.len() == 0 <==> len == 0,
        bounds@.len() > 0 ==> bounds@[0].0 == 0 && bounds@[bounds@.len() - 1].1 == len,
        forall|i: int|
            0 <= i < bounds@.len() - 1 ==> #[trigger] bounds@[i].1 == bounds@[i + 1].0
                && bounds@[i].1 - bounds@[i].0 == chunk_len,
        forall|i: int|
            0 <= i < bounds@.len() ==> 0 < #[trigger] bounds@[i].1 - bounds@[i].0 <= chunk_len,
{
    let mut bounds: Vec<(usize, usize)> = Vec::new();
    let mut start: usize = 0;
    while start < len
        invariant
            chunk_len > 0,
            start <= len,
            bounds@.len() == 0 <==> start == 0,
            bounds@.len() > 0 ==> bounds@[0].0 == 0 && bounds@[bounds@.len() - 1].1 == start,
            forall|i: int|
                0 <= i < bounds@.len() - 1 ==> #[trigger] bounds@[i].1 == bounds@[i + 1].0
                    && bounds@[i].1 - bounds@[i].0 == chunk_len,
            forall|i: int|
                0 <= i < bounds@.len() ==> 0 < #[trigger] bounds@[i].1 - bounds@[i].0 <= chunk_len,
            bounds@.len() > 0 && start < len ==> bounds@[bounds@.len() - 1].1
                - bounds@[bounds@.len() - 1].0 == chunk_len,
        decreases len - start,
    {
        let end = if len - start > chunk_len {
            start + chunk_len
        } else {
            len
        };
        bounds.push((start, end));
        start = end;
    }
    bounds
}

} // verus!
