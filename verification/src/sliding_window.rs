use std::marker::PhantomData;
use vstd::prelude::*;
use generic_array::ArrayLength;
use crate::error::WindowError;
use crate::length::TypeLength;
use crate::model::WindowModel;
use crate::storage::Storage;
use crate::storage_array::ArrayStorage;
use crate::storage_gen_arr::GenericArrayStorage;
use crate::storage_vec::VectorStorage;

verus! {

/// An empty window of `size` values over a growable buffer of
/// `size * multiple` slots.
pub fn new_with_vector_storage<T: Copy>(size: usize, multiple: usize) -> (r: SlidingWindow<
    VectorStorage<T>,
    T,
>)
    requires
        0 < size,
        0 < multiple,
        size * multiple <= usize::MAX,
    ensures
        r.wf(),
        r@ == WindowModel::<T>::new(size as nat, (size * multiple) as nat),
{
    SlidingWindow::with_storage(VectorStorage::new(size, multiple))
}

/// An empty window of `size` values over a buffer of as many slots as `N`
/// stands for. The window has a length, and the buffer has to be longer than
/// the window.
pub fn new_with_generic_array_storage<T: Copy + Default, N: ArrayLength<T> + TypeLength>(
    size: usize,
) -> (r: SlidingWindow<GenericArrayStorage<T, N>, T>)
    requires
        0 < size < N::length(),
        N::length() <= usize::MAX,
    ensures
        r.wf(),
        r@ == WindowModel::<T>::new(size as nat, N::length()),
{
    SlidingWindow::with_storage(GenericArrayStorage::new(size))
}

/// An empty window of `SIZE` values over an array of `CAPACITY` slots.
pub fn new_with_array_storage<T: Copy + Default, const SIZE: usize, const CAPACITY: usize>() -> (r:
    SlidingWindow<ArrayStorage<T, SIZE, CAPACITY>, T>)
    requires
        0 < SIZE < CAPACITY,
    ensures
        r.wf(),
        r@ == WindowModel::<T>::new(SIZE as nat, CAPACITY as nat),
{
    SlidingWindow::with_storage(ArrayStorage::new())
}

/// A sliding window over one backing store, whichever it is.
pub struct SlidingWindow<S, T> {
    storage: S,
    ty: PhantomData<T>,
}

impl<S: Storage<T>, T: Copy> View for SlidingWindow<S, T> {
    type V = WindowModel<T>;

    closed spec fn view(&self) -> WindowModel<T> {
        self.storage@
    }
}

impl<S: Storage<T>, T: Copy> SlidingWindow<S, T> {
    /// The window's store is well formed.
    pub closed spec fn wf(&self) -> bool {
        self.storage.wf()
    }

    /// The state of a well-formed window satisfies the window's invariant.
    pub proof fn lemma_view_wf(&self)
        requires
            self.wf(),
        ensures
            self@.wf(),
    {
        self.storage.lemma_view_wf();
    }

    /// The window over `storage`, in the state in which the store is.
    pub fn with_storage(storage: S) -> (r: Self)
        requires
            storage.wf(),
        ensures
            r.wf(),
            r@ == storage@,
    {
        Self { storage, ty: PhantomData }
    }

    /// Inserts `value` as the newest value of the window.
    pub fn push(&mut self, value: T)
        requires
            old(self).wf(),
        ensures
            final(self).wf(),
            final(self)@ == old(self)@.push(value),
    {
        self.storage.push(value)
    }

    /// The value in the slot at the head, unless nothing has been pushed.
    pub fn first(&self) -> (r: Result<T, WindowError>)
        requires
            self.wf(),
        ensures
            r == self@.first(),
    {
        self.storage.first()
    }

    /// The newest value, once the window is filled.
    pub fn last(&self) -> (r: Result<T, WindowError>)
        requires
            self.wf(),
        ensures
            r == self@.last(),
    {
        self.storage.last()
    }

    /// True until the first value has been pushed.
    pub fn empty(&self) -> (r: bool)
        requires
            self.wf(),
        ensures
            r == self@.is_empty(),
    {
        self.storage.empty()
    }

    /// True once as many values as the window is long have been pushed.
    pub fn filled(&self) -> (r: bool)
        requires
            self.wf(),
        ensures
            r == self@.is_filled(),
    {
        self.storage.filled()
    }

    /// The length of the window.
    pub fn size(&self) -> (r: usize)
        requires
            self.wf(),
        ensures
            r == self@.size,
    {
        self.storage.size()
    }

    /// The filled window as an array, the oldest value first. The caller
    /// names the array's length. There is no array unless the window is
    /// filled and the length named is the length of the window.
    pub fn arr<const SIZE: usize>(&self) -> (r: Result<[T; SIZE], WindowError>)
        requires
            self.wf(),
        ensures
            self@.is_filled() && SIZE == self@.size ==> r is Ok && r.unwrap()@
                == self@.window(),
            !self@.is_filled() || SIZE != self@.size ==> r == Err::<[T; SIZE], WindowError>(
                WindowError::NotFilled,
            ),
    {
        self.storage.arr()
    }

    /// The filled window as a slice of exactly `size` values, the oldest first.
    pub fn slice(&self) -> (r: Result<&[T], WindowError>)
        requires
            self.wf(),
        ensures
            self@.is_filled() ==> r is Ok && r.unwrap()@ == self@.window() && r.unwrap()@.len()
                == self@.size,
            !self@.is_filled() ==> r == Err::<&[T], WindowError>(WindowError::NotFilled),
    {
        self.storage.slice()
    }

    /// The filled window as a vector of exactly `size` values, the oldest first.
    pub fn vec(&self) -> (r: Result<Vec<T>, WindowError>)
        requires
            self.wf(),
        ensures
            self@.is_filled() ==> r is Ok && r.unwrap()@ == self@.window() && r.unwrap()@.len()
                == self@.size,
            !self@.is_filled() ==> r == Err::<Vec<T>, WindowError>(WindowError::NotFilled),
    {
        self.storage.vec()
    }
}

} // verus!
