//! A borrowed view of contiguous elements, indexed by a newtype index.

use vstd::prelude::*;

use crate::idx::Idx;

verus! {

/// A view into contiguous `T`s, indexed by `I` rather than by `usize`.
pub struct IdxSlice<'a, I: Idx, T> {
    /// The underlying elements, in index order.
    pub raw: &'a [T],
    pub marker: core::marker::PhantomData<I>,
}

impl<'a, I: Idx, T> View for IdxSlice<'a, I, T> {
    type V = Seq<T>;

    open spec fn view(&self) -> Seq<T> {
        self.raw@
    }
}

impl<'a, I: Idx, T> Clone for IdxSlice<'a, I, T> {
    fn clone(&self) -> (r: Self)
        ensures
            r@ == self@,
    {
        IdxSlice { raw: self.raw, marker: core::marker::PhantomData }
    }
}

impl<'a, I: Idx, T> IdxSlice<'a, I, T> {
    /// A view of no elements.
    pub fn empty() -> (r: Self)
        ensures
            r@ == Seq::<T>::empty(),
    {
        IdxSlice { raw: &[], marker: core::marker::PhantomData }
    }

    /// Wraps a borrowed slice.
    pub fn from_raw(raw: &'a [T]) -> (r: Self)
        ensures
            r@ == raw@,
    {
        IdxSlice { raw, marker: core::marker::PhantomData }
    }

    /// Returns the number of elements.
    pub fn len(&self) -> (r: usize)
        ensures
            r == self@.len(),
    {
        self.raw.len()
    }

    /// Returns true when the view holds no element.
    pub fn is_empty(&self) -> (r: bool)
        ensures
            r == (self@.len() == 0),
    {
        self.raw.is_empty()
    }

    /// Gives the index one past the last element.
    pub fn next_index(&self) -> (r: I)
        ensures
            r.widx() == self@.len(),
    {
        I::new(self.raw.len())
    }

    /// Gives the index of the last element, if any.
    pub fn last_index(&self) -> (r: Option<I>)
        ensures
            self@.len() == 0 ==> r is None,
            self@.len() > 0 ==> r is Some && r->0.widx() == self@.len() - 1,
    {
        if self.raw.len() == 0 {
            None
        } else {
            Some(I::new(self.raw.len() - 1))
        }
    }

    /// Returns a reference to the element at `index`.
    pub fn index(&self, index: I) -> (r: &'a T)
        requires
            0 <= index.widx() < self@.len(),
        ensures
            *r == self@[index.widx()],
    {
        let len = self.raw.len();
        proof {
            assert(index.widx() < len);
        }
        &self.raw[index.idx()]
    }

    /// Returns a reference to the element at `index`, or `None` when the
    /// index lies beyond the end.
    pub fn get(&self, index: I) -> (r: Option<&'a T>)
        requires
            0 <= index.widx() <= usize::MAX,
        ensures
            index.widx() < self@.len() ==> r is Some && *r->0 == self@[index.widx()],
            index.widx() >= self@.len() ==> r is None,
    {
        let i = index.idx();
        if i < self.raw.len() {
            Some(&self.raw[i])
        } else {
            None
        }
    }
}

} // verus!
