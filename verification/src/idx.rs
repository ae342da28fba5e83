//! Newtype indices: a trait for types that wrap a position in some table.

use vstd::prelude::*;

verus! {

/// A typed index into a table.
///
/// Implementors wrap a `usize` position; `widx` is the position a value
/// stands for, and every operation is specified against it.
pub trait Idx: Sized + Copy {
    /// The position this index stands for.
    spec fn widx(&self) -> int;

    /// The index standing for a given position.
    spec fn from_widx(idx: int) -> Self;

    /// Every index stands for a position that fits in a `usize`.
    proof fn widx_in_range(&self)
        ensures
            0 <= self.widx() <= usize::MAX,
    ;

    /// `from_widx` inverts `widx`: it yields the index standing for the
    /// given position, and every index is determined by its position.
    proof fn from_widx_widx(idx: int)
        requires
            0 <= idx <= usize::MAX,
        ensures
            Self::from_widx(idx).widx() == idx,
            forall|i: Self| #[trigger] i.widx() == idx ==> i == Self::from_widx(idx),
    ;

    /// Wraps a position.
    fn new(idx: usize) -> (r: Self)
        ensures
            r == Self::from_widx(idx as int),
            r.widx() == idx,
    ;

    /// Returns the position.
    fn idx(&self) -> (r: usize)
        ensures
            r == self.widx(),
    ;

    /// Advances the index by one position.
    fn incr(&mut self)
        requires
            old(self).widx() + 1 <= usize::MAX,
        ensures
            final(self).widx() == old(self).widx() + 1,
    ;

    /// Advances the index by `by` positions.
    fn incr_by(&mut self, by: usize)
        requires
            old(self).widx() + by <= usize::MAX,
        ensures
            final(self).widx() == old(self).widx() + by,
    ;
}

} // verus!
