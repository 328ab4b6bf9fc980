//! The storage rules of path geometry conversions.
use vstd::prelude::*;
use vstd::arithmetic::power2::{pow2, lemma_pow2_unfold, lemma_pow2_pos, lemma2_to64};

verus! {

/// The number of points that `2^pow2` quadratic curves approximating a conic
/// are written as: a start point, then a control and an end point per quad.
pub open spec fn spec_conic_quads_point_count(pow2_count: nat) -> nat {
    1 + 2 * pow2(pow2_count)
}

/// The number of points written for `2^pow2` quads.
pub fn conic_quads_point_count(pow2_count: usize) -> (r: usize)
    requires
        spec_conic_quads_point_count(pow2_count as nat) <= usize::MAX,
    ensures
        r == spec_conic_quads_point_count(pow2_count as nat),
{
    let mut quads: usize = 1;
    let mut i: usize = 0;
    proof {
        lemma2_to64();
    }
    while i < pow2_count
        invariant
            i <= pow2_count,
            quads == pow2(i as nat),
            spec_conic_quads_point_count(pow2_count as nat) <= usize::MAX,
        decreases pow2_count - i,
    {
        proof {
            lemma_pow2_unfold((i + 1) as nat);
            lemma_pow2_monotone((i + 1) as nat, pow2_count as nat);
        }
        quads = quads * 2;
        i = i + 1;
    }
    1 + 2 * quads
}

/// `pow2` grows with its exponent.
proof fn lemma_pow2_monotone(a: nat, b: nat)
    requires
        a <= b,
    ensures
        pow2(a) <= pow2(b),
    decreases b - a,
{
    if a < b {
        lemma_pow2_monotone(a, (b - 1) as nat);
        lemma_pow2_unfold(b);
        lemma_pow2_pos((b - 1) as nat);
    }
}

/// Whether `pts_len` points can hold the quads that approximate a conic with
/// `2^pow2` quads; when they cannot, nothing is converted.
pub fn conic_quads_fit(pts_len: usize, pow2_count: usize) -> (r: bool)
    requires
        spec_conic_quads_point_count(pow2_count as nat) <= usize::MAX,
    ensures
        r == (pts_len >= spec_conic_quads_point_count(pow2_count as nat)),
{
    pts_len >= conic_quads_point_count(pow2_count)
}

} // verus!
