//! What the play command decides about a URL before any metadata is
//! fetched: whether it names a playlist. The metadata extractor itself
//! is an external subprocess run by the caller.

use vstd::prelude::*;
use vstd::string::StringSliceAdditionalSpecFns;

verus! {

/// The byte pattern that marks a playlist URL: the ASCII text `list=`.
pub open spec fn playlist_marker() -> Seq<u8> {
    seq![108u8, 105u8, 115u8, 116u8, 61u8]
}

/// Whether the bytes contain the playlist marker.
pub open spec fn spec_is_playlist_url(b: Seq<u8>) -> bool {
    exists|i: int| 0 <= i && i + 5 <= b.len() && #[trigger] b.subrange(i, i + 5) == playlist_marker()
}

/// True exactly when the URL's bytes contain `list=`, the query key of a
/// playlist link.
pub fn is_playlist_url(url: &str) -> (r: bool)
    ensures
        r == spec_is_playlist_url(url.spec_bytes()),
{
    let b: &[u8] = url.as_bytes();
    if b.len() < 5 {
        return false;
    }
    let mut i: usize = 0;
    while i <= b.len() - 5
        invariant
            b@ == url.spec_bytes(),
            b@.len() >= 5,
            i <= b@.len() - 5 + 1,
            forall|j: int| 0 <= j < i ==> #[trigger] b@.subrange(j, j + 5) != playlist_marker(),
        decreases b@.len() - i,
    {
        if b[i] == 108 && b[i + 1] == 105 && b[i + 2] == 115 && b[i + 3] == 116 && b[i + 4] == 61 {
            assert(b@.subrange(i as int, i + 5) =~= playlist_marker());
            assert(url.spec_bytes().subrange(i as int, i + 5) == playlist_marker());
            return true;
        }
        proof {
            assert(b@.subrange(i as int, i + 5)[0] == b@[i as int]);
            assert(b@.subrange(i as int, i + 5)[1] == b@[i + 1]);
            assert(b@.subrange(i as int, i + 5)[2] == b@[i + 2]);
            assert(b@.subrange(i as int, i + 5)[3] == b@[i + 3]);
            assert(b@.subrange(i as int, i + 5)[4] == b@[i + 4]);
            assert(b@.subrange(i as int, i + 5) != playlist_marker());
        }
        i = i + 1;
    }
    false
}

} // verus!
