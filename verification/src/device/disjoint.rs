//! A slice that each thread of a launch writes at its own index only.

use core::marker::PhantomData;
use vstd::prelude::*;

use crate::device::thread::{
    col_of, distinct_threads, law_index_1d_unique, law_index_2d_unique, row_major, row_of, Index1D,
    IndexFormula, KernelScope, SpecialRegisters, ThreadIndex,
};

verus! {

/// A slice that is accessed with thread indices of one index space.
pub struct DisjointSlice<'a, T, IndexSpace = Index1D> {
    pub data: &'a mut [T],
    pub _space: PhantomData<IndexSpace>,
}

impl<'a, T, IndexSpace> DisjointSlice<'a, T, IndexSpace> {
    /// The elements.
    pub open spec fn elements(&self) -> Seq<T> {
        self.data@
    }

    /// Creates a slice over `slice`.
    pub fn from_mut_slice(slice: &'a mut [T]) -> (d: Self)
        ensures
            d.elements() == old(slice)@,
            d.elements().len() == old(slice)@.len(),
            final(d.data)@ == final(slice)@,
    {
        DisjointSlice { data: slice, _space: PhantomData }
    }

    /// The number of elements.
    pub fn len(&self) -> (n: usize)
        ensures
            n == self.elements().len(),
    {
        self.data.len()
    }

    /// Whether there is no element.
    pub fn is_empty(&self) -> (yes: bool)
        ensures
            yes == (self.elements().len() == 0),
    {
        self.data.len() == 0
    }

    /// The element at a thread's index, or `None` when the index is out of
    /// bounds.
    pub fn get_mut<'kernel>(&mut self, idx: ThreadIndex<'kernel, IndexSpace>) -> (elem: Option<
        &mut T,
    >)
        ensures
            final(final(self).data)@ == final(old(self).data)@,
            final(self).elements().len() == old(self).elements().len(),
            match elem {
                Some(e) => {
                    &&& idx.index() < old(self).elements().len()
                    &&& *e == old(self).elements()[idx.index() as int]
                    &&& final(self).elements() == old(self).elements().update(
                        idx.index() as int,
                        *final(e),
                    )
                },
                None => {
                    &&& idx.index() >= old(self).elements().len()
                    &&& final(self).elements() == old(self).elements()
                },
            },
    {
        let i: usize = idx.get();
        if i < self.data.len() {
            Some(&mut self.data[i])
        } else {
            None
        }
    }

    /// The element at a raw index.
    pub fn get_unchecked_mut(&mut self, idx: usize) -> (elem: &mut T)
        requires
            idx < old(self).elements().len(),
        ensures
            final(final(self).data)@ == final(old(self).data)@,
            final(self).elements().len() == old(self).elements().len(),
            *elem == old(self).elements()[idx as int],
            final(self).elements() == old(self).elements().update(idx as int, *final(elem)),
    {
        &mut self.data[idx]
    }
}

impl<'a, T, IS: IndexFormula> DisjointSlice<'a, T, IS> {
    /// Makes the index of the calling thread and resolves it to its element.
    /// `None` where the thread has no index, or one out of bounds.
    pub fn get_mut_indexed<'kernel>(&mut self, scope: &'kernel KernelScope<'kernel>) -> (found:
        Option<(&mut T, ThreadIndex<'kernel, IS>)>)
        requires
            IS::fits(scope.registers()),
        ensures
            final(final(self).data)@ == final(old(self).data)@,
            final(self).elements().len() == old(self).elements().len(),
            match found {
                Some((elem, idx)) => {
                    &&& IS::formula(scope.registers()) == Some(idx.index() as int)
                    &&& idx.index() < old(self).elements().len()
                    &&& *elem == old(self).elements()[idx.index() as int]
                    &&& final(self).elements() == old(self).elements().update(
                        idx.index() as int,
                        *final(elem),
                    )
                },
                None => {
                    &&& match IS::formula(scope.registers()) {
                        Some(i) => i >= old(self).elements().len(),
                        None => true,
                    }
                    &&& final(self).elements() == old(self).elements()
                },
            },
    {
        match IS::from_scope(scope) {
            Some(idx) => {
                let i: usize = idx.get();
                if i < self.data.len() {
                    Some((&mut self.data[i], idx))
                } else {
                    None
                }
            },
            None => None,
        }
    }
}

/// The elements after writes at these indices, in order. An access that yields
/// an element writes at its index at most; any other leaves the elements as
/// they are.
pub open spec fn after_writes<T>(elements: Seq<T>, writes: Seq<(int, T)>) -> Seq<T>
    decreases writes.len(),
{
    if writes.len() == 0 {
        elements
    } else {
        let (index, value) = writes.last();
        after_writes(elements, writes.drop_last()).update(index, value)
    }
}

/// The length of a slice stays what it was made with, whatever is accessed and
/// written in between; and an element that is not written stays what it was.
pub proof fn law_accesses_keep_length<T>(elements: Seq<T>, writes: Seq<(int, T)>, i: int)
    requires
        forall|k: int|
            0 <= k < writes.len() ==> 0 <= (#[trigger] writes[k]).0 < elements.len(),
    ensures
        after_writes(elements, writes).len() == elements.len(),
        0 <= i < elements.len() && (forall|k: int|
            0 <= k < writes.len() ==> (#[trigger] writes[k]).0 != i) ==> after_writes(
            elements,
            writes,
        )[i] == elements[i],
    decreases writes.len(),
{
    if writes.len() > 0 {
        let before = writes.drop_last();
        assert forall|k: int| 0 <= k < before.len() implies 0 <= (#[trigger] before[k]).0
            < elements.len() by {
            assert(before[k] == writes[k]);
        }
        law_accesses_keep_length(elements, before, i);
        if forall|k: int| 0 <= k < writes.len() ==> (#[trigger] writes[k]).0 != i {
            assert forall|k: int| 0 <= k < before.len() implies (#[trigger] before[k]).0 != i by {
                assert(before[k] == writes[k]);
            }
            assert(writes[writes.len() - 1].0 != i);
        }
    }
}

/// In a one-dimensional launch a write through one thread's index leaves the
/// element of every other thread as it is.
pub proof fn law_threads_write_disjoint_1d<T>(
    elements: Seq<T>,
    a: SpecialRegisters,
    b: SpecialRegisters,
    value: T,
)
    requires
        distinct_threads(a, b),
        a.block_dim.y == 1 && a.block_dim.z == 1,
        a.grid_dim.y == 1 && a.grid_dim.z == 1,
        col_of(a) < elements.len(),
        col_of(b) < elements.len(),
    ensures
        elements.update(col_of(a), value)[col_of(b)] == elements[col_of(b)],
{
    law_index_1d_unique(a, b);
    assert(0 <= b.block_idx.x * b.block_dim.x) by (nonlinear_arith);
    assert(0 <= a.block_idx.x * a.block_dim.x) by (nonlinear_arith);
}

/// In a two-dimensional launch a write through one thread's row-major index
/// leaves the element of every other thread with the same stride as it is.
pub proof fn law_threads_write_disjoint_2d<T>(
    elements: Seq<T>,
    a: SpecialRegisters,
    b: SpecialRegisters,
    row_stride: int,
    value: T,
)
    requires
        distinct_threads(a, b),
        a.block_dim.z == 1 && a.grid_dim.z == 1,
        row_major(a, row_stride) is Some,
        row_major(b, row_stride) is Some,
        row_major(a, row_stride)->0 < elements.len(),
        row_major(b, row_stride)->0 < elements.len(),
    ensures
        elements.update(row_major(a, row_stride)->0, value)[row_major(b, row_stride)->0]
            == elements[row_major(b, row_stride)->0],
{
    law_index_2d_unique(a, b, row_stride);
    lemma_row_major_nonnegative(a, row_stride);
    lemma_row_major_nonnegative(b, row_stride);
}

proof fn lemma_row_major_nonnegative(r: SpecialRegisters, row_stride: int)
    requires
        row_major(r, row_stride) is Some,
    ensures
        row_major(r, row_stride)->0 >= 0,
{
    assert(0 <= r.block_idx.x * r.block_dim.x) by (nonlinear_arith);
    assert(0 <= r.block_idx.y * r.block_dim.y) by (nonlinear_arith);
    assert(row_of(r) * row_stride >= 0) by (nonlinear_arith)
        requires
            row_of(r) >= 0,
            row_stride >= 0,
    ;
}

} // verus!
