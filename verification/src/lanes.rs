//! Groups of four for the vectorized accumulation.
//!
//! The vectorized estimator walks a sequence four elements at a time and
//! keeps one partial sum per lane: lane `k` receives the elements at the
//! positions `4g + k`. A sequence whose length is not a multiple of four has
//! a tail of up to three elements that belongs to no group; the vectorized
//! estimator does not read it, so its callers pass whole multiples of four.
use vstd::prelude::*;

verus! {

/// The number of lanes of one group.
pub const LANES: usize = 4;

/// The number of whole groups in a sequence of `len` elements.
pub open spec fn groups(len: nat) -> nat {
    len / 4
}

/// The position in the sequence of lane `k` of group `g`.
pub open spec fn slot(g: int, k: int) -> int {
    4 * g + k
}

/// The number of elements that the groups cover: the longest prefix whose
/// length is a multiple of four.
pub open spec fn covered(len: nat) -> nat {
    4 * groups(len)
}

/// Lane `k` of a sequence: the elements at the slots of lane `k`, one for
/// each whole group.
pub open spec fn lane<T>(xs: Seq<T>, k: int) -> Seq<T> {
    Seq::new(groups(xs.len()), |g: int| xs[slot(g, k)])
}

/// The number of whole groups in a sequence of `len` elements.
pub fn group_count(len: usize) -> (n: usize)
    ensures
        n == groups(len as nat),
{
    len / LANES
}

/// The number of trailing elements of a sequence of `len` elements that
/// belong to no group. It is zero exactly for the lengths that the
/// vectorized estimator is meant for.
pub fn tail_len(len: usize) -> (r: usize)
    ensures
        r == len - covered(len as nat),
        r < 4,
        r == 0 <==> len % 4 == 0,
{
    len % LANES
}

/// Reads group `g` of `v`: four neighbours, which are element `g` of each of
/// the four lanes in turn.
pub fn lane_group<T: Copy>(v: &[T], g: usize) -> (q: [T; 4])
    requires
        g < groups(v@.len()),
    ensures
        q@ == v@.subrange(slot(g as int, 0), slot(g as int, 4)),
        forall|k: int| 0 <= k < 4 ==> #[trigger] q@[k] == lane(v@, k)[g as int],
{
    assert(4 * g + 3 < v.len());
    let base: usize = LANES * g;
    [v[base], v[base + 1], v[base + 2], v[base + 3]]
}

/// The groups tile the covered prefix: every position below `covered(len)`
/// is the slot of exactly one group and lane.
pub proof fn lemma_slots_tile(len: nat, i: int)
    requires
        0 <= i < covered(len),
    ensures
        0 <= i / 4 < groups(len),
        0 <= i % 4 < 4,
        slot(i / 4, i % 4) == i,
        forall|g: int, k: int|
            0 <= k < 4 && #[trigger] slot(g, k) == i ==> g == i / 4 && k == i % 4,
{
}

/// Every slot of a whole group lies inside the sequence.
pub proof fn lemma_slot_in_range(len: nat, g: int, k: int)
    requires
        0 <= g < groups(len),
        0 <= k < 4,
    ensures
        0 <= slot(g, k) < covered(len) <= len,
{
}

/// The groups cover the whole sequence exactly when its length is a multiple
/// of four.
pub proof fn lemma_covered_all(len: nat)
    ensures
        covered(len) == len <==> len % 4 == 0,
        len - covered(len) == len % 4,
{
}

} // verus!
