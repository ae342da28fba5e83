//! A vector indexed by a newtype index instead of a bare `usize`.

use vstd::prelude::*;

use crate::idx::Idx;
use crate::index_slice::IdxSlice;

verus! {

/// An owned contiguous collection of `T`s, indexed by `I` rather than by
/// `usize`, so that a position in one table cannot be used in another.
pub struct IdxVec<I: Idx, T> {
    /// The underlying storage, in index order.
    pub raw: Vec<T>,
    pub marker: core::marker::PhantomData<I>,
}

impl<I: Idx, T> View for IdxVec<I, T> {
    type V = Seq<T>;

    open spec fn view(&self) -> Seq<T> {
        self.raw@
    }
}

impl<I: Idx, T> IdxVec<I, T> {
    /// Constructs a new, empty `IdxVec<I, T>`.
    pub fn new() -> (r: Self)
        ensures
            r@ == Seq::<T>::empty(),
    {
        IdxVec { raw: Vec::new(), marker: core::marker::PhantomData }
    }

    /// Constructs an `IdxVec<I, T>` that owns the given `Vec<T>`.
    pub fn from_raw(raw: Vec<T>) -> (r: Self)
        ensures
            r@ == raw@,
    {
        IdxVec { raw, marker: core::marker::PhantomData }
    }

    /// Constructs a new, empty `IdxVec<I, T>` with at least the given capacity.
    pub fn with_capacity(capacity: usize) -> (r: Self)
        ensures
            r@ == Seq::<T>::empty(),
    {
        IdxVec { raw: Vec::with_capacity(capacity), marker: core::marker::PhantomData }
    }

    /// Returns the number of elements.
    pub fn len(&self) -> (r: usize)
        ensures
            r == self@.len(),
    {
        self.raw.len()
    }

    /// Returns true when the collection holds no element.
    pub fn is_empty(&self) -> (r: bool)
        ensures
            r == (self@.len() == 0),
    {
        self.raw.is_empty()
    }

    /// Gives the index that the next `push` will assign.
    pub fn next_index(&self) -> (r: I)
        ensures
            r.widx() == self@.len(),
    {
        I::new(self.raw.len())
    }

    /// Gives the index of the last element, if any.
    pub fn last_index(&self) -> (r: Option<I>)
        ensures
            self@.len() == 0 ==> r is None,
            self@.len() > 0 ==> r is Some && r->0.widx() == self@.len() - 1,
    {
        if self.raw.len() == 0 {
            None
        } else {
            Some(I::new(self.raw.len() - 1))
        }
    }

    /// Pushes a value to the end, returning the index at which it now stands.
    pub fn push(&mut self, value: T) -> (r: I)
        ensures
            final(self)@ == old(self)@.push(value),
            r.widx() == old(self)@.len(),
    {
        let idx = self.next_index();
        self.raw.push(value);
        idx
    }

    /// Removes and returns the last element, if any.
    pub fn pop(&mut self) -> (r: Option<T>)
        ensures
            old(self)@.len() == 0 ==> r is None && final(self)@ == old(self)@,
            old(self)@.len() > 0 ==> r == Some(old(self)@.last()) && final(self)@ == old(self)@.drop_last(),
    {
        let r = self.raw.pop();
        proof {
            if old(self)@.len() > 0 {
                assert(self@ =~= old(self)@.drop_last());
            }
        }
        r
    }

    /// Returns a reference to the element at `index`.
    pub fn index(&self, index: I) -> (r: &T)
        requires
            0 <= index.widx() < self@.len(),
        ensures
            *r == self@[index.widx()],
    {
        &self.raw[index.idx()]
    }

    /// Returns a reference to the element at `index`, or `None` when the
    /// index lies beyond the end.
    pub fn get(&self, index: I) -> (r: Option<&T>)
        requires
            0 <= index.widx() <= usize::MAX,
        ensures
            index.widx() < self@.len() ==> r is Some && *r->0 == self@[index.widx()],
            index.widx() >= self@.len() ==> r is None,
    {
        let i = index.idx();
        if i < self.raw.len() {
            Some(&self.raw[i])
        } else {
            None
        }
    }

    /// Replaces the element at `index` with `value`.
    pub fn set(&mut self, index: I, value: T)
        requires
            0 <= index.widx() < old(self)@.len(),
        ensures
            final(self)@ == old(self)@.update(index.widx(), value),
    {
        let i = index.idx();
        self.raw[i] = value;
    }

    /// Borrows the elements as an index-typed slice.
    pub fn as_slice(&self) -> (r: IdxSlice<'_, I, T>)
        ensures
            r@ == self@,
    {
        IdxSlice::from_raw(self.raw.as_slice())
    }

    /// Creates a collection holding `n` copies of `elem`.
    pub fn from_elem_n(elem: T, n: usize) -> (r: Self) where T: Clone
        ensures
            r@.len() == n,
            forall|i: int| 0 <= i < n ==> cloned(elem, #[trigger] r@[i]),
    {
        let mut raw: Vec<T> = Vec::new();
        let mut k: usize = 0;
        while k < n
            invariant
                k <= n,
                raw@.len() == k,
                forall|i: int| 0 <= i < k ==> cloned(elem, #[trigger] raw@[i]),
            decreases n - k,
        {
            raw.push(elem.clone());
            k = k + 1;
        }
        IdxVec { raw, marker: core::marker::PhantomData }
    }

    /// Creates a collection with one copy of `elem` for each index of
    /// `universe`, so that the result is indexed like `universe`.
    pub fn from_elem<S>(elem: T, universe: IdxSlice<'_, I, S>) -> (r: Self) where T: Clone
        ensures
            r@.len() == universe@.len(),
            forall|i: int| 0 <= i < universe@.len() ==> cloned(elem, #[trigger] r@[i]),
    {
        Self::from_elem_n(elem, universe.len())
    }

    /// Creates a collection with `n` elements, element `i` being `func`
    /// applied to the index standing for position `i`.
    pub fn from_fn_n<F: Fn(I) -> T>(func: F, n: usize) -> (r: Self)
        requires
            forall|i: I| 0 <= i.widx() < n ==> func.requires((i,)),
        ensures
            r@.len() == n,
            forall|i: int|
                0 <= i < n ==> func.ensures((I::from_widx(i),), #[trigger] r@[i]),
    {
        let mut raw: Vec<T> = Vec::new();
        let mut k: usize = 0;
        while k < n
            invariant
                k <= n,
                raw@.len() == k,
                forall|i: I| 0 <= i.widx() < n ==> func.requires((i,)),
                forall|i: int|
                    0 <= i < k ==> func.ensures((I::from_widx(i),), #[trigger] raw@[i]),
            decreases n - k,
        {
            let ix = I::new(k);
            let v = func(ix);
            raw.push(v);
            k = k + 1;
        }
        IdxVec { raw, marker: core::marker::PhantomData }
    }

    /// Shortens the collection to at most `len` elements; a longer `len`
    /// leaves it unchanged.
    pub fn truncate(&mut self, len: usize)
        ensures
            len <= old(self)@.len() ==> final(self)@ == old(self)@.subrange(0, len as int),
            len > old(self)@.len() ==> final(self)@ == old(self)@,
    {
        self.raw.truncate(len)
    }

    /// Resizes the collection to exactly `new_len` elements, filling new
    /// slots with copies of `value`.
    pub fn resize(&mut self, new_len: usize, value: T) where T: Clone
        ensures
            new_len <= old(self)@.len() ==> final(self)@ == old(self)@.subrange(0, new_len as int),
            new_len > old(self)@.len() ==> {
                &&& final(self)@.len() == new_len
                &&& final(self)@.subrange(0, old(self)@.len() as int) == old(self)@
                &&& forall|i: int|
                    old(self)@.len() <= i < new_len ==> cloned(value, #[trigger] final(self)@[i])
            },
    {
        self.raw.resize(new_len, value)
    }

    /// Grows the collection until it holds an entry for `elem`, filling new
    /// slots with copies of `fill`; when the entry exists nothing changes.
    pub fn ensure_contains_elem(&mut self, elem: I, fill: T) where T: Clone
        requires
            0 <= elem.widx(),
            elem.widx() + 1 <= usize::MAX,
        ensures
            elem.widx() < old(self)@.len() ==> final(self)@ == old(self)@,
            elem.widx() >= old(self)@.len() ==> {
                &&& final(self)@.len() == elem.widx() + 1
                &&& final(self)@.subrange(0, old(self)@.len() as int) == old(self)@
                &&& forall|i: int|
                    old(self)@.len() <= i <= elem.widx() ==> cloned(fill, #[trigger] final(self)@[i])
            },
    {
        let min_new_len = elem.idx() + 1;
        if self.raw.len() < min_new_len {
            self.raw.resize(min_new_len, fill);
        }
        proof {
            if elem.widx() < old(self)@.len() {
                assert(self@ =~= old(self)@);
            }
        }
    }

    /// Grows or shrinks the collection so that `elem` is its last entry,
    /// filling new slots with copies of `fill`.
    pub fn resize_to_elem(&mut self, elem: I, fill: T) where T: Clone
        requires
            0 <= elem.widx(),
            elem.widx() + 1 <= usize::MAX,
        ensures
            final(self)@.len() == elem.widx() + 1,
            elem.widx() < old(self)@.len() ==> final(self)@ == old(self)@.subrange(
                0,
                elem.widx() + 1,
            ),
            elem.widx() >= old(self)@.len() ==> {
                &&& final(self)@.subrange(0, old(self)@.len() as int) == old(self)@
                &&& forall|i: int|
                    old(self)@.len() <= i <= elem.widx() ==> cloned(fill, #[trigger] final(self)@[i])
            },
    {
        let min_new_len = elem.idx() + 1;
        self.raw.resize(min_new_len, fill);
    }

    /// Moves every element of `other` to the end of `self`, leaving `other`
    /// empty.
    pub fn append(&mut self, other: &mut Self)
        ensures
            final(self)@ == old(self)@ + old(other)@,
            final(other)@ == Seq::<T>::empty(),
    {
        self.raw.append(&mut other.raw);
    }

    /// Removes the elements in positions `start..end` and returns them in
    /// order; the elements after `end` close the gap.
    pub fn drain(&mut self, start: usize, end: usize) -> (r: Vec<T>)
        requires
            start <= end <= old(self)@.len(),
        ensures
            r@ == old(self)@.subrange(start as int, end as int),
            final(self)@ == old(self)@.subrange(0, start as int) + old(self)@.subrange(
                end as int,
                old(self)@.len() as int,
            ),
    {
        let ghost orig = self@;
        let mut out: Vec<T> = Vec::new();
        let mut k: usize = start;
        while k < end
            invariant
                start <= k <= end <= orig.len(),
                self@ =~= orig.subrange(0, start as int) + orig.subrange(
                    k as int,
                    orig.len() as int,
                ),
                out@ =~= orig.subrange(start as int, k as int),
            decreases end - k,
        {
            let ghost pre = self@;
            let v = self.raw.remove(start);
            out.push(v);
            proof {
                assert(self@ =~= pre.remove(start as int));
                assert(self@ =~= orig.subrange(0, start as int) + orig.subrange(
                    k as int + 1,
                    orig.len() as int,
                ));
                assert(out@ =~= orig.subrange(start as int, k as int + 1));
            }
            k = k + 1;
        }
        out
    }

    /// Like `drain`, but pairs each removed element with the index it stood
    /// at before the call.
    pub fn drain_enumerated(&mut self, start: usize, end: usize) -> (r: Vec<(I, T)>)
        requires
            start <= end <= old(self)@.len(),
        ensures
            r@.len() == end - start,
            forall|i: int|
                0 <= i < r@.len() ==> (#[trigger] r@[i]).0 == I::from_widx(start + i) && r@[i].1
                    == old(self)@[start + i],
            final(self)@ == old(self)@.subrange(0, start as int) + old(self)@.subrange(
                end as int,
                old(self)@.len() as int,
            ),
    {
        let mut drained = self.drain(start, end);
        let ghost dr = drained@;
        let mut out: Vec<(I, T)> = Vec::new();
        let mut k: usize = 0;
        while drained.len() > 0
            invariant
                dr.len() == end - start,
                k == out@.len(),
                k + drained@.len() == dr.len(),
                forall|i: int| 0 <= i < drained@.len() ==> drained@[i] == dr[k + i],
                forall|i: int|
                    0 <= i < out@.len() ==> (#[trigger] out@[i]).0 == I::from_widx(start + i)
                        && out@[i].1 == dr[i],
            decreases drained@.len(),
        {
            let v = drained.remove(0);
            out.push((I::new(start + k), v));
            k = k + 1;
        }
        out
    }

    /// Consumes the collection, returning each element paired with its index,
    /// in index order.
    pub fn into_iter_enumerated(self) -> (r: Vec<(I, T)>)
        ensures
            r@.len() == self@.len(),
            forall|i: int|
                0 <= i < r@.len() ==> (#[trigger] r@[i]).0 == I::from_widx(i) && r@[i].1
                    == self@[i],
    {
        let ghost orig = self@;
        proof {
            assert(orig.len() == self.raw.len());
        }
        let mut rest = self.raw;
        let mut out: Vec<(I, T)> = Vec::new();
        let mut k: usize = 0;
        while rest.len() > 0
            invariant
                orig.len() <= usize::MAX,
                k == out@.len(),
                k + rest@.len() == orig.len(),
                forall|i: int| 0 <= i < rest@.len() ==> rest@[i] == orig[k + i],
                forall|i: int|
                    0 <= i < out@.len() ==> (#[trigger] out@[i]).0 == I::from_widx(i) && out@[i].1
                        == orig[i],
            decreases rest@.len(),
        {
            let v = rest.remove(0);
            out.push((I::new(k), v));
            k = k + 1;
        }
        out
    }

    /// Swaps the elements at positions `a` and `b`.
    pub fn swap(&mut self, a: I, b: I)
        requires
            0 <= a.widx() < old(self)@.len(),
            0 <= b.widx() < old(self)@.len(),
        ensures
            final(self)@ == old(self)@.update(a.widx(), old(self)@[b.widx()]).update(
                b.widx(),
                old(self)@[a.widx()],
            ),
    {
        let ghost orig = self@;
        proof {
            a.widx_in_range();
            b.widx_in_range();
        }
        let ai = a.idx();
        let bi = b.idx();
        if ai == bi {
            proof {
                assert(self@ =~= orig.update(a.widx(), orig[b.widx()]).update(
                    b.widx(),
                    orig[a.widx()],
                ));
            }
            return ;
        }
        let x = self.raw.remove(ai);
        let y = if bi > ai {
            self.raw.remove(bi - 1)
        } else {
            self.raw.remove(bi)
        };
        if bi > ai {
            self.raw.insert(ai, y);
            self.raw.insert(bi, x);
        } else {
            self.raw.insert(bi, x);
            self.raw.insert(ai, y);
        }
        proof {
            assert(self@ =~= orig.update(a.widx(), orig[b.widx()]).update(
                b.widx(),
                orig[a.widx()],
            ));
        }
    }
}

impl<I: Idx, T> Default for IdxVec<I, T> {
    /// An empty collection.
    fn default() -> (r: Self)
        ensures
            r@ == Seq::<T>::empty(),
    {
        IdxVec::new()
    }
}

} // verus!
