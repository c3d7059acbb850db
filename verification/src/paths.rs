//! Lexical classification of module source paths: a path names a worker
//! module iff it is non-empty and ends with the literal suffix `.worker`.

use vstd::prelude::*;
use vstd::string::StrSliceExecFns;

verus! {

/// `s` ends with `suffix`.
pub open spec fn ends_with_spec(s: Seq<char>, suffix: Seq<char>) -> bool {
    suffix.len() <= s.len() && s.skip(s.len() - suffix.len()) == suffix
}

/// A source path is classified as a worker-module path iff it is non-empty
/// and its final characters are exactly `.worker`.
pub open spec fn worker_path_spec(p: Seq<char>) -> bool {
    p.len() > 0 && ends_with_spec(p, ".worker"@)
}

/// Index where the final path segment of `p` begins: just after the last
/// `/`, or 0 when `p` has none.
pub open spec fn seg_start(p: Seq<char>) -> int
    decreases p.len(),
{
    if p.len() == 0 {
        0
    } else if p[p.len() - 1] == '/' {
        p.len() as int
    } else {
        seg_start(p.drop_last())
    }
}

/// The final path segment of `p` (everything after the last `/`).
pub open spec fn last_segment(p: Seq<char>) -> Seq<char> {
    p.skip(seg_start(p))
}

proof fn lemma_seg_start_bounds(p: Seq<char>)
    ensures
        0 <= seg_start(p) <= p.len(),
    decreases p.len(),
{
    if p.len() > 0 && p[p.len() - 1] != '/' {
        lemma_seg_start_bounds(p.drop_last());
    }
}

proof fn lemma_seg_start_slash(p: Seq<char>)
    ensures
        seg_start(p) > 0 ==> p[seg_start(p) - 1] == '/',
    decreases p.len(),
{
    if p.len() > 0 && p[p.len() - 1] != '/' {
        lemma_seg_start_slash(p.drop_last());
        lemma_seg_start_bounds(p.drop_last());
        if seg_start(p) > 0 {
            assert(p.drop_last()[seg_start(p) - 1] == p[seg_start(p) - 1]);
        }
    }
}

/// The classification is exactly "the last path segment ends with
/// `.worker`": since the suffix contains no `/`, testing the whole path is
/// the same as testing its final segment.
pub proof fn lemma_worker_iff_last_segment(p: Seq<char>)
    ensures
        worker_path_spec(p) <==> (p.len() > 0 && ends_with_spec(last_segment(p), ".worker"@)),
{
    reveal_strlit(".worker");
    let w = ".worker"@;
    let n = p.len() as int;
    let s = seg_start(p);
    lemma_seg_start_bounds(p);
    lemma_seg_start_slash(p);
    if worker_path_spec(p) {
        assert(forall|d: int| 0 <= d < 7 ==> #[trigger] w[d] != '/');
        if s > n - 7 {
            let d = s - 1 - (n - 7);
            assert(p.skip(n - 7)[d] == p[s - 1]);
            assert(false);
        }
        assert(last_segment(p).skip(last_segment(p).len() - 7) =~= p.skip(n - 7));
    }
    if p.len() > 0 && ends_with_spec(last_segment(p), w) {
        let m = last_segment(p).len() as int;
        assert(last_segment(p).skip(m - 7) =~= p.skip(n - 7));
    }
}

/// Decides the worker-module classification for a source path.
pub fn is_worker_path(path: &str) -> (b: bool)
    ensures
        b == worker_path_spec(path@),
{
    proof {
        reveal_strlit(".worker");
    }
    let suffix = ".worker";
    let n = path.unicode_len();
    if n < 7 {
        return false;
    }
    let mut k: usize = 0;
    while k < 7
        invariant
            0 <= k <= 7,
            7 <= n,
            n == path@.len(),
            suffix@ == ".worker"@,
            ".worker"@.len() == 7,
            forall|m: int| 0 <= m < k ==> path@[n - 7 + m] == ".worker"@[m],
        decreases 7 - k,
    {
        if path.get_char(n - 7 + k) != suffix.get_char(k) {
            proof {
                assert(path@.skip(n - 7)[k as int] != ".worker"@[k as int]);
            }
            return false;
        }
        k += 1;
    }
    proof {
        assert(path@.skip(n - 7) =~= ".worker"@);
    }
    true
}

} // verus!
