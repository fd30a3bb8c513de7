use vstd::prelude::*;
use generic_array::ArrayLength;
use crate::error::WindowError;
use crate::length::TypeLength;
use crate::model::WindowModel;
use crate::storage::Storage;
use crate::storage_gen_arr::GenericArrayStorage;

verus! {

/// A sliding window over a buffer of as many slots as the type `N` says.
pub struct SlidingWindow<T, N> {
    storage: GenericArrayStorage<T, N>,
}

impl<T, N> View for SlidingWindow<T, N> {
    type V = WindowModel<T>;

    closed spec fn view(&self) -> WindowModel<T> {
        self.storage@
    }
}

impl<T: Copy + Default, N: ArrayLength<T> + TypeLength> SlidingWindow<T, N> {
    /// An empty window of `size` values over as many slots as `N` stands
    /// for. The window has a length, and the buffer has to be longer than the
    /// window. The buffer is compacted once in as many pushes as it has slots
    /// more than the window.
    pub fn new(size: usize) -> (r: Self)
        requires
            0 < size < N::length(),
            N::length() <= usize::MAX,
        ensures
            r.wf(),
            r@ == WindowModel::<T>::new(size as nat, N::length()),
    {
        Self { storage: GenericArrayStorage::new(size) }
    }
}

impl<T: Copy, N: TypeLength> SlidingWindow<T, N> {
    /// The window's store is well formed.
    pub closed spec fn wf(&self) -> bool {
        self.storage.wf()
    }

    /// The state of a well-formed window satisfies the window's invariant.
    pub proof fn lemma_view_wf(&self)
        requires
            self.wf(),
        ensures
            self@.wf(),
    {
        self.storage.lemma_view_wf();
    }

    /// A well-formed window has as many slots as `N` stands for, and they are
    /// more than the window is long.
    pub proof fn lemma_capacity(&self)
        requires
            self.wf(),
        ensures
            self@.capacity == N::length(),
            self@.size < self@.capacity,
    {
        self.storage.lemma_capacity();
    }

    /// Inserts `value` as the newest value of the window.
    pub fn push(&mut self, value: T)
        requires
            old(self).wf(),
        ensures
            final(self).wf(),
            final(self)@ == old(self)@.push(value),
    {
        self.storage.push(value)
    }

    /// True until the first value has been pushed.
    pub fn empty(&self) -> (r: bool)
        requires
            self.wf(),
        ensures
            r == self@.is_empty(),
    {
        self.storage.empty()
    }

    /// The value in the slot at the head, unless nothing has been pushed.
    pub fn first(&self) -> (r: Result<T, WindowError>)
        requires
            self.wf(),
        ensures
            r == self@.first(),
    {
        self.storage.first()
    }

    /// The newest value, once the window is filled.
    pub fn last(&self) -> (r: Result<T, WindowError>)
        requires
            self.wf(),
        ensures
            r == self@.last(),
    {
        self.storage.last()
    }

    /// True once as many values as the window is long have been pushed.
    pub fn filled(&self) -> (r: bool)
        requires
            self.wf(),
        ensures
            r == self@.is_filled(),
    {
        self.storage.filled()
    }

    /// The length of the window.
    pub fn len(&self) -> (r: usize)
        requires
            self.wf(),
        ensures
            r == self@.size,
    {
        self.storage.size()
    }

    /// The filled window as an array, the oldest value first. The caller
    /// names the array's length. There is no array unless the window is
    /// filled and the length named is the length of the window.
    pub fn arr<const S: usize>(&self) -> (r: Result<[T; S], WindowError>)
        requires
            self.wf(),
        ensures
            self@.is_filled() && S == self@.size ==> r is Ok && r.unwrap()@ == self@.window(),
            !self@.is_filled() || S != self@.size ==> r == Err::<[T; S], WindowError>(
                WindowError::NotFilled,
            ),
    {
        self.storage.arr()
    }

    /// The filled window as a slice of exactly `size` values, the oldest first.
    pub fn slice(&self) -> (r: Result<&[T], WindowError>)
        requires
            self.wf(),
        ensures
            self@.is_filled() ==> r is Ok && r.unwrap()@ == self@.window() && r.unwrap()@.len()
                == self@.size,
            !self@.is_filled() ==> r == Err::<&[T], WindowError>(WindowError::NotFilled),
    {
        self.storage.slice()
    }

    /// The filled window as a vector of exactly `size` values, the oldest first.
    pub fn vec(&self) -> (r: Result<Vec<T>, WindowError>)
        requires
            self.wf(),
        ensures
            self@.is_filled() ==> r is Ok && r.unwrap()@ == self@.window() && r.unwrap()@.len()
                == self@.size,
            !self@.is_filled() ==> r == Err::<Vec<T>, WindowError>(WindowError::NotFilled),
    {
        self.storage.vec()
    }
}

} // verus!
