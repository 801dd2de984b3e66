//! The resumable HTTP fetch plan that feeds the decoder: sequential
//! 256 KiB ranges until the known total is covered, with fixed backoffs
//! on chunk and request errors. The caller issues the requests; start
//! positions, range bounds and backoff times are computed here.

use vstd::prelude::*;

verus! {

/// Bytes requested per range.
pub const FETCH_CHUNK: u64 = 262144;

/// The next inclusive byte range to request, or `None` when `start` has
/// reached the total: from `start` to `min(start + FETCH_CHUNK - 1, total - 1)`.
pub open spec fn spec_next_range(start: u64, total: u64) -> Option<(u64, u64)> {
    if start < total {
        if start + FETCH_CHUNK - 1 <= total - 1 {
            Option::Some((start, (start + FETCH_CHUNK - 1) as u64))
        } else {
            Option::Some((start, (total - 1) as u64))
        }
    } else {
        Option::None
    }
}

/// Computes the next range to request.
pub fn next_range(start: u64, total: u64) -> (r: Option<(u64, u64)>)
    ensures
        r == spec_next_range(start, total),
        r matches Some(p) ==> start == p.0 && p.0 <= p.1 < total && p.1 - p.0 < FETCH_CHUNK,
{
    if start < total {
        let cap = total - 1;
        if start <= u64::MAX - (FETCH_CHUNK - 1) && start + (FETCH_CHUNK - 1) <= cap {
            Some((start, start + (FETCH_CHUNK - 1)))
        } else {
            Some((start, cap))
        }
    } else {
        None
    }
}

/// The fetch total from a HEAD response: the parsed Content-Length, or 0
/// when the request failed or the header was absent — the fetch then ends
/// at once and the decoder sees EOF.
pub fn total_from_head(content_length: Option<u64>) -> (t: u64)
    ensures
        t == (match content_length {
            Option::Some(n) => n,
            Option::None => 0u64,
        }),
{
    match content_length {
        Option::Some(n) => n,
        Option::None => 0,
    }
}

/// Advances the stream position by a delivered chunk, saturating at the
/// numeric limit.
pub fn advance_start(start: u64, delivered: usize) -> (n: u64)
    ensures
        start + delivered <= u64::MAX ==> n == start + delivered,
        start + delivered > u64::MAX ==> n == u64::MAX,
{
    if (delivered as u64) <= u64::MAX - start {
        start + (delivered as u64)
    } else {
        u64::MAX
    }
}

/// A transient failure while fetching.
#[derive(Debug, Clone, Copy, PartialEq, Eq, Structural)]
pub enum FetchError {
    /// A body chunk failed mid-stream; the current range is re-requested.
    Chunk,
    /// The range request itself failed.
    Request,
}

/// The fixed backoff before retrying: one second after a chunk error,
/// two after a failed request.
pub fn retry_backoff_ms(e: FetchError) -> (ms: u64)
    ensures
        e == FetchError::Chunk ==> ms == 1000,
        e == FetchError::Request ==> ms == 2000,
{
    match e {
        FetchError::Chunk => 1000,
        FetchError::Request => 2000,
    }
}

} // verus!
