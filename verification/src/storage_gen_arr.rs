use std::marker::PhantomData;
use vstd::prelude::*;
use vstd::slice::slice_subrange;
use generic_array::{ArrayLength, GenericArray};
use crate::compact::move_to_front;
use crate::error::WindowError;
use crate::length::TypeLength;
use crate::model::WindowModel;
use crate::storage::Storage;

verus! {

/// Builds the array that `GenericArray::<T, N>::default()` returns and hands
/// its slots out as a vector. The array has as many slots as `N` stands for,
/// which is claimed here as far as that number fits into a `usize`. Nothing
/// is claimed of what the slots hold: none is read before it is overwritten.
#[verifier::external_body]
fn default_slots<T: Copy + Default, N: ArrayLength<T> + TypeLength>() -> (slots: Vec<T>)
    ensures
        N::length() <= usize::MAX ==> slots@.len() == N::length(),
{
    GenericArray::<T, N>::default().to_vec()
}

/// A store whose buffer has the length that the type `N` stands for, with a
/// window whose length is chosen when the store is made.
pub struct GenericArrayStorage<T, N> {
    arr: Vec<T>,
    size: usize,
    head: usize,
    tail: usize,
    length: PhantomData<N>,
}

impl<T, N> View for GenericArrayStorage<T, N> {
    type V = WindowModel<T>;

    closed spec fn view(&self) -> WindowModel<T> {
        WindowModel {
            size: self.size as nat,
            capacity: self.arr@.len(),
            head: self.head as nat,
            tail: self.tail as nat,
            entries: self.arr@.subrange(self.head as int, self.tail as int),
        }
    }
}

impl<T: Copy + Default, N: ArrayLength<T> + TypeLength> GenericArrayStorage<T, N> {
    /// An empty store for a window of `size` values, over as many slots as
    /// `N` stands for. The window has a length, and the buffer has to be
    /// longer than the window.
    pub fn new(size: usize) -> (r: Self)
        requires
            0 < size < N::length(),
            N::length() <= usize::MAX,
        ensures
            r.wf(),
            r@ == WindowModel::<T>::new(size as nat, N::length()),
    {
        let r = Self { arr: default_slots::<T, N>(), size, head: 0, tail: 0, length: PhantomData };
        assert(r@.entries =~= Seq::empty());
        r
    }
}

impl<T: Copy, N: TypeLength> GenericArrayStorage<T, N> {
    /// A well-formed store has as many slots as `N` stands for, and they are
    /// more than its window is long.
    pub proof fn lemma_capacity(&self)
        requires
            self.wf(),
        ensures
            self@.capacity == N::length(),
            self@.size < self@.capacity,
    {
    }

    /// Compacts the full buffer: the newest `size - 1` values move to its
    /// front, and the cursors are set so that the next push completes the
    /// window again.
    fn rewind(&mut self)
        requires
            old(self).wf(),
            old(self)@.must_rewind(),
        ensures
            final(self).wf(),
            final(self)@ == old(self)@.rewind(),
    {
        let keep = self.size - 1;
        move_to_front(self.arr.as_mut_slice(), self.tail - keep, keep);
        self.head = 0;
        self.tail = keep;
        assert(self@.entries =~= old(self)@.rewind().entries);
    }
}

impl<T: Copy, N: TypeLength> Storage<T> for GenericArrayStorage<T, N> {
    closed spec fn wf(&self) -> bool {
        &&& self@.wf()
        &&& self.size < self.arr@.len()
        &&& self.arr@.len() == N::length()
    }

    proof fn lemma_view_wf(&self) {
    }

    fn push(&mut self, value: T) {
        if self.tail > 0 && self.tail == self.arr.len() {
            self.rewind();
        }
        let ghost ready = self@;
        self.arr[self.tail] = value;
        if self.tail - self.head > self.size {
            self.head += 1;
        }
        self.tail += 1;
        assert(self@.entries =~= ready.append(value).entries);
    }

    fn first(&self) -> (r: Result<T, WindowError>) {
        if self.tail != 0 {
            Ok(self.arr[self.head])
        } else {
            Err(WindowError::EmptyBuffer)
        }
    }

    fn last(&self) -> (r: Result<T, WindowError>) {
        if self.tail >= self.size {
            Ok(self.arr[self.tail - 1])
        } else {
            Err(WindowError::NotFilled)
        }
    }

    fn tail(&self) -> (r: usize) {
        self.tail
    }

    fn size(&self) -> (r: usize) {
        self.size
    }

    fn get_slice(&self) -> (r: &[T]) {
        if self.tail > self.size {
            slice_subrange(self.arr.as_slice(), self.head + 1, self.tail)
        } else {
            slice_subrange(self.arr.as_slice(), self.head, self.tail)
        }
    }
}

} // verus!
