//! The buffer through which a host hands a sequence over.
//!
//! A host that can only exchange flat memory asks for a buffer of a given
//! length, learns how much room the buffer got, writes its numbers into the
//! cells and then has a statistic computed over them. The buffer is a value
//! that the caller owns and passes along; there is no buffer behind the
//! scenes.
use vstd::prelude::*;

verus! {

/// What a resize reports when it has no capacity to report: the request was
/// negative, or the capacity does not fit the report.
pub const REFUSED: i32 = -1;

/// The report for a capacity of `cap` cells: the capacity itself where a
/// 32-bit signed integer can hold it, [`REFUSED`] where not.
pub open spec fn capacity_report(cap: nat) -> int {
    if cap <= i32::MAX {
        cap as int
    } else {
        REFUSED as int
    }
}

/// How `after` arises from `before` by a resize to `len` cells: the cells
/// that both have are unchanged, and every cell that `after` has beyond
/// `before` is a clone of `fill`.
pub open spec fn resized<T: Clone>(before: Seq<T>, after: Seq<T>, len: nat, fill: T) -> bool {
    &&& after.len() == len
    &&& forall|i: int| 0 <= i < len && i < before.len() ==> after[i] == before[i]
    &&& forall|i: int| before.len() <= i < len ==> cloned(fill, #[trigger] after[i])
}

/// Turns a capacity into the report that the host receives.
pub fn capacity_code(cap: usize) -> (code: i32)
    ensures
        code == capacity_report(cap as nat),
{
    if cap <= 2147483647 {
        cap as i32
    } else {
        REFUSED
    }
}

/// `Vec::capacity`: the number of cells the vector has room for without
/// allocating again. Which number that is rests with the allocator; all that
/// is claimed is that the cells the vector holds have room in it.
#[verifier::external_body]
fn capacity_of<T>(cells: &Vec<T>) -> (cap: usize)
    ensures
        cap >= cells@.len(),
{
    cells.capacity()
}

/// A resizable buffer of samples, owned by the caller.
pub struct Staging<T> {
    cells: Vec<T>,
}

impl<T> View for Staging<T> {
    type V = Seq<T>;

    /// The cells of the buffer, in order.
    closed spec fn view(&self) -> Seq<T> {
        self.cells@
    }
}

impl<T> Staging<T> {
    /// An empty buffer.
    pub fn new() -> (s: Self)
        ensures
            s@ == Seq::<T>::empty(),
    {
        Staging { cells: Vec::new() }
    }

    /// The number of cells.
    pub fn len(&self) -> (n: usize)
        ensures
            n == self@.len(),
    {
        self.cells.len()
    }

    /// The cells, for a statistic to read.
    pub fn samples(&self) -> (s: &[T])
        ensures
            s@ == self@,
    {
        self.cells.as_slice()
    }

    /// The cells, for the host to write. What the host leaves in them is
    /// what the buffer holds from then on.
    pub fn samples_mut(&mut self) -> (s: &mut [T])
        ensures
            s@ == old(self)@,
            final(s)@ == final(self)@,
    {
        self.cells.as_mut_slice()
    }
}

impl<T: Clone> Staging<T> {
    /// Resizes the buffer to `sz` cells and reports its capacity.
    ///
    /// A negative `sz` is refused: the buffer is left as it is and the report
    /// is [`REFUSED`]. Otherwise the buffer is cut or grown to `sz` cells, the
    /// new ones being clones of `fill`, and the report is the
    /// [`capacity_report`] of the capacity that the buffer then has, which
    /// is `sz` at the least.
    pub fn resize(&mut self, sz: i32, fill: T) -> (code: i32)
        ensures
            sz < 0 ==> code == REFUSED && final(self)@ == old(self)@,
            sz >= 0 ==> resized(old(self)@, final(self)@, sz as nat, fill),
            sz >= 0 ==> exists|cap: nat| cap >= sz && code == #[trigger] capacity_report(cap),
    {
        if sz < 0 {
            return REFUSED;
        }
        self.cells.resize(sz as usize, fill);
        let cap: usize = capacity_of(&self.cells);
        capacity_code(cap)
    }
}

} // verus!
