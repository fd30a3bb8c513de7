use vstd::prelude::*;
use vstd::slice::slice_subrange;
use crate::compact::move_to_front;
use crate::error::WindowError;
use crate::model::WindowModel;
use crate::storage::Storage;

verus! {

/// A store whose buffer is an array of `CAPACITY` slots, for a window of
/// `SIZE` values.
pub struct ArrayStorage<T, const SIZE: usize, const CAPACITY: usize> {
    arr: [T; CAPACITY],
    size: usize,
    head: usize,
    tail: usize,
}

impl<T, const SIZE: usize, const CAPACITY: usize> View for ArrayStorage<T, SIZE, CAPACITY> {
    type V = WindowModel<T>;

    closed spec fn view(&self) -> WindowModel<T> {
        WindowModel {
            size: self.size as nat,
            capacity: CAPACITY as nat,
            head: self.head as nat,
            tail: self.tail as nat,
            entries: self.arr@.subrange(self.head as int, self.tail as int),
        }
    }
}

impl<T: Copy + Default, const SIZE: usize, const CAPACITY: usize> ArrayStorage<T, SIZE, CAPACITY> {
    /// An empty store. The buffer has to be longer than the window.
    pub fn new() -> (r: Self)
        requires
            0 < SIZE < CAPACITY,
        ensures
            r.wf(),
            r@ == WindowModel::<T>::new(SIZE as nat, CAPACITY as nat),
    {
        let r = Self { arr: [T::default();CAPACITY], size: SIZE, head: 0, tail: 0 };
        assert(r@.entries =~= Seq::empty());
        r
    }
}

impl<T: Copy, const SIZE: usize, const CAPACITY: usize> ArrayStorage<T, SIZE, CAPACITY> {
    /// A well-formed store has a window of `SIZE` values over `CAPACITY`
    /// slots, which are more than the window is long.
    pub proof fn lemma_capacity(&self)
        requires
            self.wf(),
        ensures
            self@.size == SIZE,
            self@.capacity == CAPACITY,
            SIZE < CAPACITY,
    {
    }

    /// Compacts the full buffer: the newest `size - 1` values move to its
    /// front, and the cursors are set so that the next push completes the
    /// window again.
    fn rewind(&mut self)
        requires
            old(self).wf(),
            old(self)@.must_rewind(),
        ensures
            final(self).wf(),
            final(self)@ == old(self)@.rewind(),
    {
        let keep = self.size - 1;
        move_to_front(&mut self.arr, self.tail - keep, keep);
        self.head = 0;
        self.tail = keep;
        assert(self@.entries =~= old(self)@.rewind().entries);
    }
}

impl<T: Copy, const SIZE: usize, const CAPACITY: usize> Storage<T> for ArrayStorage<
    T,
    SIZE,
    CAPACITY,
> {
    closed spec fn wf(&self) -> bool {
        &&& self@.wf()
        &&& self.size == SIZE
        &&& SIZE < CAPACITY
    }

    proof fn lemma_view_wf(&self) {
    }

    fn push(&mut self, value: T) {
        if self.tail > 0 && self.tail == self.arr.len() {
            self.rewind();
        }
        let ghost ready = self@;
        self.arr[self.tail] = value;
        if self.tail - self.head > self.size {
            self.head += 1;
        }
        self.tail += 1;
        assert(self@.entries =~= ready.append(value).entries);
    }

    fn first(&self) -> (r: Result<T, WindowError>) {
        if self.tail != 0 {
            Ok(self.arr[self.head])
        } else {
            Err(WindowError::EmptyBuffer)
        }
    }

    fn last(&self) -> (r: Result<T, WindowError>) {
        if self.tail >= self.size {
            Ok(self.arr[self.tail - 1])
        } else {
            Err(WindowError::NotFilled)
        }
    }

    fn tail(&self) -> (r: usize) {
        self.tail
    }

    fn size(&self) -> (r: usize) {
        self.size
    }

    fn get_slice(&self) -> (r: &[T]) {
        if self.tail > self.size {
            slice_subrange(&self.arr, self.head + 1, self.tail)
        } else {
            slice_subrange(&self.arr, self.head, self.tail)
        }
    }
}

} // verus!
