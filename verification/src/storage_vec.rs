use vstd::prelude::*;
use vstd::slice::slice_subrange;
use crate::compact::move_to_front;
use crate::error::WindowError;
use crate::model::WindowModel;
use crate::storage::Storage;

verus! {

/// A store whose buffer is a vector that grows up to a capacity fixed when
/// the store is made, and never beyond it.
pub struct VectorStorage<T> {
    vec: Vec<T>,
    capacity: usize,
    size: usize,
    head: usize,
    tail: usize,
}

impl<T> View for VectorStorage<T> {
    type V = WindowModel<T>;

    closed spec fn view(&self) -> WindowModel<T> {
        WindowModel {
            size: self.size as nat,
            capacity: self.capacity as nat,
            head: self.head as nat,
            tail: self.tail as nat,
            entries: self.vec@.subrange(self.head as int, self.tail as int),
        }
    }
}

impl<T: Copy> VectorStorage<T> {
    /// An empty store for a window of `size` values over a buffer of
    /// `size * multiple` slots. With a `multiple` of one the buffer is
    /// compacted on every push once the window is filled.
    pub fn new(size: usize, multiple: usize) -> (r: Self)
        requires
            0 < size,
            0 < multiple,
            size * multiple <= usize::MAX,
        ensures
            r.wf(),
            r@ == WindowModel::<T>::new(size as nat, (size * multiple) as nat),
    {
        assert(size * multiple >= size) by (nonlinear_arith)
            requires
                0 < size,
                0 < multiple,
        ;
        let capacity = size * multiple;
        let r = Self { vec: Vec::with_capacity(capacity), capacity, size, head: 0, tail: 0 };
        assert(r@.entries =~= Seq::empty());
        r
    }
}

impl<T: Copy> VectorStorage<T> {
    /// Compacts the full buffer: the newest `size - 1` values move to its
    /// front, and the cursors are set so that the next push completes the
    /// window again.
    fn rewind(&mut self)
        requires
            old(self).wf(),
            old(self)@.must_rewind(),
        ensures
            final(self).wf(),
            final(self)@ == old(self)@.rewind(),
    {
        let keep = self.size - 1;
        move_to_front(self.vec.as_mut_slice(), self.tail - keep, keep);
        self.vec.truncate(keep);
        self.head = 0;
        self.tail = keep;
        assert(self@.entries =~= old(self)@.rewind().entries);
    }
}

impl<T: Copy> Storage<T> for VectorStorage<T> {
    closed spec fn wf(&self) -> bool {
        &&& self@.wf()
        &&& self.vec@.len() == self.tail
    }

    proof fn lemma_view_wf(&self) {
    }

    fn push(&mut self, value: T) {
        if self.tail > 0 && self.tail == self.capacity {
            self.rewind();
        }
        let ghost ready = self@;
        self.vec.push(value);
        if self.tail - self.head > self.size {
            self.head += 1;
        }
        self.tail += 1;
        assert(self@.entries =~= ready.append(value).entries);
    }

    fn first(&self) -> (r: Result<T, WindowError>) {
        if self.tail != 0 {
            Ok(self.vec[self.head])
        } else {
            Err(WindowError::EmptyBuffer)
        }
    }

    fn last(&self) -> (r: Result<T, WindowError>) {
        if self.tail >= self.size {
            Ok(self.vec[self.tail - 1])
        } else {
            Err(WindowError::NotFilled)
        }
    }

    fn tail(&self) -> (r: usize) {
        self.tail
    }

    fn size(&self) -> (r: usize) {
        self.size
    }

    fn get_slice(&self) -> (r: &[T]) {
        if self.tail > self.size {
            slice_subrange(self.vec.as_slice(), self.head + 1, self.tail)
        } else {
            slice_subrange(self.vec.as_slice(), self.head, self.tail)
        }
    }
}

} // verus!
