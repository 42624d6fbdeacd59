//! The staging file: a per-request unique path for the fetched image bytes.
//!
//! Each request stages the downloaded image under a path derived from its own
//! request number, so concurrent requests never read or delete each other's
//! files.

use vstd::prelude::*;
use crate::text::{dec_digits, u64_to_dec, lemma_dec_digits_injective};

verus! {

/// A staged image: the unique path the bytes were written to, how many bytes,
/// and whether the file was marked read-only.  It lives only for the span of
/// one request and is removed before the response goes out.
#[derive(Clone, Debug)]
pub struct StagedImage {
    pub path: String,
    pub size_bytes: usize,
    pub read_only: bool,
}

/// The staging path of request number `id`.
pub open spec fn staging_path_spec(id: nat) -> Seq<char> {
    "emoji_"@ + dec_digits(id) + ".png"@
}

/// Builds the staging path of request number `req_id`.
pub fn staging_path(req_id: u64) -> (r: String)
    ensures
        r@ == staging_path_spec(req_id as nat),
{
    let num = u64_to_dec(req_id);
    let s = String::from_str("emoji_");
    let s = s.concat(num.as_str());
    let s = s.concat(".png");
    proof {
        assert(s@ =~= staging_path_spec(req_id as nat));
    }
    s
}

/// Distinct request numbers always get distinct staging paths, so concurrent
/// requests never collide on the staging file.
pub proof fn lemma_staging_paths_distinct(id1: nat, id2: nat)
    requires
        id1 != id2,
    ensures
        staging_path_spec(id1) != staging_path_spec(id2),
{
    if staging_path_spec(id1) == staging_path_spec(id2) {
        let p = "emoji_"@;
        let s = ".png"@;
        let d1 = dec_digits(id1);
        let d2 = dec_digits(id2);
        assert((p + d1 + s).len() == (p + d2 + s).len());
        assert(d1 =~= (p + d1 + s).subrange(p.len() as int, (p.len() + d1.len()) as int));
        assert(d2 =~= (p + d2 + s).subrange(p.len() as int, (p.len() + d2.len()) as int));
        lemma_dec_digits_injective(id1, id2);
    }
}

} // verus!
