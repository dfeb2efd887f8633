//! The exact identities behind the estimators.
//!
//! Three methods compute a variance: the simple one from `Σx` and `Σx²`, the
//! shifted one from the same sums of `x − c` for a constant `c` of the
//! caller's choice, and the two-pass one from the squared deviations from
//! the mean. A fourth, vectorized, splits the sums of the shifted method
//! over four lanes. In exact arithmetic they all give the same number. This
//! module states that over sequences of integers, without any division: with
//! `N` observations, every variance is the [`dispersion`] `N·Σx² − (Σx)²`
//! over `N²` (biased) or over `N·(N − 1)` (unbiased).
//!
//! Floating-point arithmetic rounds after each operation, so an estimator
//! that runs in it meets these identities only up to rounding; how far off
//! it is depends on the method, which is why there are several.
use vstd::prelude::*;
use crate::lanes::{covered, groups, lane};

verus! {

/// `Σx`: the sum of the elements.
pub open spec fn total(xs: Seq<int>) -> int
    decreases xs.len(),
{
    if xs.len() == 0 {
        0
    } else {
        total(xs.drop_last()) + xs.last()
    }
}

/// `Σx²`: the sum of the squares of the elements.
pub open spec fn total_sq(xs: Seq<int>) -> int
    decreases xs.len(),
{
    if xs.len() == 0 {
        0
    } else {
        total_sq(xs.drop_last()) + xs.last() * xs.last()
    }
}

/// The sequence of the `x − c`.
pub open spec fn shifted(xs: Seq<int>, c: int) -> Seq<int> {
    Seq::new(xs.len(), |i: int| xs[i] - c)
}

/// The sequence of the `k·x`.
pub open spec fn scaled(xs: Seq<int>, k: int) -> Seq<int> {
    Seq::new(xs.len(), |i: int| k * xs[i])
}

/// The sequence of the `N·x − Σx`: the deviations of the elements from their
/// mean, each multiplied by the number of elements `N`.
pub open spec fn deviations(xs: Seq<int>) -> Seq<int> {
    shifted(scaled(xs, xs.len() as int), total(xs))
}

/// `N·Σx² − (Σx)²`, the numerator that all the variance formulas share.
pub open spec fn dispersion(xs: Seq<int>) -> int {
    xs.len() * total_sq(xs) - total(xs) * total(xs)
}

/// The sums of a sequence shift with it: `Σ(x − c) = Σx − N·c` and
/// `Σ(x − c)² = Σx² − 2c·Σx + N·c²`.
pub proof fn lemma_shifted_sums(xs: Seq<int>, c: int)
    ensures
        total(shifted(xs, c)) == total(xs) - xs.len() * c,
        total_sq(shifted(xs, c)) == total_sq(xs) - 2 * c * total(xs) + xs.len() * c * c,
    decreases xs.len(),
{
    let n = xs.len() as int;
    if n == 0 {
        assert(n * c == 0 && n * c * c == 0) by (nonlinear_arith)
            requires
                n == 0,
        ;
    } else {
        let ys = xs.drop_last();
        let x = xs.last();
        lemma_shifted_sums(ys, c);
        assert(shifted(xs, c).drop_last() =~= shifted(ys, c));
        assert(shifted(xs, c).last() == x - c);
        let s = total(ys);
        let q = total_sq(ys);
        assert(s - (n - 1) * c + (x - c) == (s + x) - n * c) by (nonlinear_arith);
        assert(q - 2 * c * s + (n - 1) * c * c + (x - c) * (x - c) == (q + x * x) - 2 * c * (s + x)
            + n * c * c) by (nonlinear_arith);
    }
}

/// The sums of a sequence scale with it: `Σ(k·x) = k·Σx` and
/// `Σ(k·x)² = k²·Σx²`.
pub proof fn lemma_scaled_sums(xs: Seq<int>, k: int)
    ensures
        total(scaled(xs, k)) == k * total(xs),
        total_sq(scaled(xs, k)) == k * k * total_sq(xs),
    decreases xs.len(),
{
    if xs.len() == 0 {
        assert(k * 0 == 0 && k * k * 0 == 0) by (nonlinear_arith);
    } else {
        let ys = xs.drop_last();
        let x = xs.last();
        lemma_scaled_sums(ys, k);
        assert(scaled(xs, k).drop_last() =~= scaled(ys, k));
        assert(scaled(xs, k).last() == k * x);
        let s = total(ys);
        let q = total_sq(ys);
        assert(k * s + k * x == k * (s + x)) by (nonlinear_arith);
        assert(k * k * q + (k * x) * (k * x) == k * k * (q + x * x)) by (nonlinear_arith);
    }
}

/// A sum of squares is not negative.
pub proof fn lemma_total_sq_nonnegative(xs: Seq<int>)
    ensures
        total_sq(xs) >= 0,
    decreases xs.len(),
{
    if xs.len() > 0 {
        let x = xs.last();
        lemma_total_sq_nonnegative(xs.drop_last());
        assert(x * x >= 0) by (nonlinear_arith);
    }
}

/// Shift invariance: subtracting a constant from every element leaves the
/// dispersion, and with it every variance, as it was. Whatever shift the
/// shifted method is given, it computes the quantity of the simple method.
pub proof fn lemma_shift_invariance(xs: Seq<int>, c: int)
    ensures
        dispersion(shifted(xs, c)) == dispersion(xs),
{
    lemma_shifted_sums(xs, c);
    let n = xs.len() as int;
    let s = total(xs);
    let q = total_sq(xs);
    assert(n * (q - 2 * c * s + n * c * c) - (s - n * c) * (s - n * c) == n * q - s * s)
        by (nonlinear_arith);
}

/// Any two shifts give the shifted method the same dispersion.
pub proof fn lemma_shifts_agree(xs: Seq<int>, c1: int, c2: int)
    ensures
        dispersion(shifted(xs, c1)) == dispersion(shifted(xs, c2)),
{
    lemma_shift_invariance(xs, c1);
    lemma_shift_invariance(xs, c2);
}

/// The two-pass method: the deviations from the mean sum to zero, and the
/// sum of their squares is the dispersion over `N`. With the deviations
/// scaled by `N` as in [`deviations`]: `Σ(N·x − Σx)² = N·(N·Σx² − (Σx)²)`.
pub proof fn lemma_two_pass(xs: Seq<int>)
    ensures
        total(deviations(xs)) == 0,
        total_sq(deviations(xs)) == xs.len() * dispersion(xs),
{
    let n = xs.len() as int;
    let s = total(xs);
    let q = total_sq(xs);
    let ys = scaled(xs, n);
    lemma_scaled_sums(xs, n);
    lemma_shifted_sums(ys, s);
    assert(ys.len() == n);
    assert(n * n * q - 2 * s * (n * s) + n * s * s == n * (n * q - s * s)) by (nonlinear_arith);
}

/// The simple, the shifted and the two-pass method compute one quantity:
/// for every shift `c`, the dispersion of the shifted sequence is that of
/// the sequence itself, and `N` times it is the two-pass sum of squares.
pub proof fn lemma_methods_agree(xs: Seq<int>, c: int)
    ensures
        dispersion(shifted(xs, c)) == dispersion(xs),
        total_sq(deviations(xs)) == xs.len() * dispersion(xs),
{
    lemma_shift_invariance(xs, c);
    lemma_two_pass(xs);
}

/// No variance is negative: the dispersion is at least zero.
pub proof fn lemma_dispersion_nonnegative(xs: Seq<int>)
    ensures
        dispersion(xs) >= 0,
{
    let n = xs.len() as int;
    let d = dispersion(xs);
    if n == 0 {
        assert(total(xs) == 0);
        assert(n * total_sq(xs) == 0) by (nonlinear_arith)
            requires
                n == 0,
        ;
    } else {
        lemma_two_pass(xs);
        lemma_total_sq_nonnegative(deviations(xs));
        assert(d >= 0) by (nonlinear_arith)
            requires
                n > 0,
                n * d >= 0,
        ;
    }
}

/// A single observation has no dispersion, so its biased variance is zero.
pub proof fn lemma_single_observation(xs: Seq<int>)
    requires
        xs.len() == 1,
    ensures
        dispersion(xs) == 0,
{
    let x = xs.last();
    assert(total(xs.drop_last()) == 0 && total_sq(xs.drop_last()) == 0);
    assert(1 * (x * x) - x * x == 0) by (nonlinear_arith);
}

/// `Σx` as the vectorized method accumulates it: lane by lane, the four lane
/// sums added up at the end.
pub open spec fn lanes_total(xs: Seq<int>) -> int {
    total(lane(xs, 0)) + total(lane(xs, 1)) + total(lane(xs, 2)) + total(lane(xs, 3))
}

/// `Σx²` as the vectorized method accumulates it.
pub open spec fn lanes_total_sq(xs: Seq<int>) -> int {
    total_sq(lane(xs, 0)) + total_sq(lane(xs, 1)) + total_sq(lane(xs, 2)) + total_sq(
        lane(xs, 3),
    )
}

/// The lane sums add up to the sums of the prefix that the groups cover. For
/// a sequence whose length is a multiple of four that is the whole sequence;
/// for any other the last one to three elements are missing from them.
pub proof fn lemma_lanes_sum_covered(xs: Seq<int>)
    ensures
        lanes_total(xs) == total(xs.subrange(0, covered(xs.len()) as int)),
        lanes_total_sq(xs) == total_sq(xs.subrange(0, covered(xs.len()) as int)),
        xs.len() % 4 == 0 ==> lanes_total(xs) == total(xs) && lanes_total_sq(xs) == total_sq(xs),
    decreases xs.len(),
{
    let m = groups(xs.len()) as int;
    let p = xs.subrange(0, 4 * m);
    if m == 0 {
        assert(p.len() == 0);
        assert(lane(xs, 0).len() == 0 && lane(xs, 1).len() == 0);
        assert(lane(xs, 2).len() == 0 && lane(xs, 3).len() == 0);
    } else {
        let ys = xs.subrange(0, 4 * (m - 1));
        lemma_lanes_sum_covered(ys);
        assert(ys.subrange(0, covered(ys.len()) as int) =~= ys);
        assert forall|k: int| 0 <= k < 4 implies {
            &&& (#[trigger] lane(xs, k)).drop_last() == lane(ys, k)
            &&& lane(xs, k).last() == xs[4 * (m - 1) + k]
        } by {
            assert(lane(xs, k).drop_last() =~= lane(ys, k));
        }
        let p3 = p.drop_last();
        let p2 = p3.drop_last();
        let p1 = p2.drop_last();
        assert(p1.drop_last() =~= ys);
        assert(total(p) == total(p3) + p.last());
        assert(total(p3) == total(p2) + p3.last());
        assert(total(p2) == total(p1) + p2.last());
        assert(total(p1) == total(ys) + p1.last());
        assert(total_sq(p) == total_sq(p3) + p.last() * p.last());
        assert(total_sq(p3) == total_sq(p2) + p3.last() * p3.last());
        assert(total_sq(p2) == total_sq(p1) + p2.last() * p2.last());
        assert(total_sq(p1) == total_sq(ys) + p1.last() * p1.last());
    }
    if xs.len() % 4 == 0 {
        assert(p =~= xs);
    }
}

/// The vectorized method agrees with the others on every sequence whose
/// length is a multiple of four: the dispersion formed from the lane sums of
/// the shifted sequence is the dispersion of the sequence.
pub proof fn lemma_vectorized_agrees(xs: Seq<int>, c: int)
    requires
        xs.len() % 4 == 0,
    ensures
        xs.len() * lanes_total_sq(shifted(xs, c)) - lanes_total(shifted(xs, c)) * lanes_total(
            shifted(xs, c),
        ) == dispersion(xs),
{
    lemma_lanes_sum_covered(shifted(xs, c));
    lemma_shift_invariance(xs, c);
}

} // verus!
