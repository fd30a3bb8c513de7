use vstd::prelude::*;
use vstd::slice::slice_to_vec;
use crate::error::WindowError;
use crate::model::WindowModel;

verus! {

/// What a backing store of a sliding window can do. Its view is the state of
/// the window; every operation is stated over that state.
pub trait Storage<T: Copy>: View<V = WindowModel<T>> + Sized {
    /// The store is in a state that its constructor and `push` can produce.
    spec fn wf(&self) -> bool;

    /// The state of a well-formed store satisfies the window's invariant.
    proof fn lemma_view_wf(&self)
        requires
            self.wf(),
        ensures
            self@.wf(),
    ;

    /// Inserts `value` as the newest value of the window. Where the buffer is
    /// full it is compacted first; the store never grows beyond its capacity.
    fn push(&mut self, value: T)
        requires
            old(self).wf(),
        ensures
            final(self).wf(),
            final(self)@ == old(self)@.push(value),
    ;

    /// The value in the slot at the head, unless nothing has been pushed.
    fn first(&self) -> (r: Result<T, WindowError>)
        requires
            self.wf(),
        ensures
            r == self@.first(),
    ;

    /// The newest value, once the window is filled.
    fn last(&self) -> (r: Result<T, WindowError>)
        requires
            self.wf(),
        ensures
            r == self@.last(),
    ;

    /// The index of the next free slot.
    fn tail(&self) -> (r: usize)
        requires
            self.wf(),
        ensures
            r == self@.tail,
    ;

    /// The length of the window.
    fn size(&self) -> (r: usize)
        requires
            self.wf(),
        ensures
            r == self@.size,
    ;

    /// The values of the window, the oldest first, filled or not.
    fn get_slice(&self) -> (r: &[T])
        requires
            self.wf(),
        ensures
            r@ == self@.window(),
    ;

    /// True until the first value has been pushed.
    fn empty(&self) -> (r: bool)
        requires
            self.wf(),
        ensures
            r == self@.is_empty(),
            r == (self@.tail == 0),
    {
        self.tail() == 0
    }

    /// True once as many values as the window is long have been pushed.
    fn filled(&self) -> (r: bool)
        requires
            self.wf(),
        ensures
            r == self@.is_filled(),
            r == (self@.tail >= self@.size),
    {
        self.tail() >= self.size()
    }

    /// The filled window as a slice of exactly `size` values, the oldest first.
    fn slice(&self) -> (r: Result<&[T], WindowError>)
        requires
            self.wf(),
        ensures
            self@.is_filled() ==> r is Ok && r.unwrap()@ == self@.window() && r.unwrap()@.len()
                == self@.size,
            !self@.is_filled() ==> r == Err::<&[T], WindowError>(WindowError::NotFilled),
    {
        proof {
            self.lemma_view_wf();
        }
        if !self.filled() {
            Err(WindowError::NotFilled)
        } else {
            Ok(self.get_slice())
        }
    }

    /// The filled window as a vector of exactly `size` values, the oldest first.
    fn vec(&self) -> (r: Result<Vec<T>, WindowError>)
        requires
            self.wf(),
        ensures
            self@.is_filled() ==> r is Ok && r.unwrap()@ == self@.window() && r.unwrap()@.len()
                == self@.size,
            !self@.is_filled() ==> r == Err::<Vec<T>, WindowError>(WindowError::NotFilled),
    {
        proof {
            self.lemma_view_wf();
        }
        if !self.filled() {
            Err(WindowError::NotFilled)
        } else {
            Ok(slice_to_vec(self.get_slice()))
        }
    }

    /// The filled window as an array, the oldest value first. The caller
    /// names the array's length. There is no array unless the window is
    /// filled and the length named is the length of the window.
    fn arr<const S: usize>(&self) -> (r: Result<[T; S], WindowError>)
        requires
            self.wf(),
        ensures
            self@.is_filled() && S == self@.size ==> r is Ok && r.unwrap()@ == self@.window(),
            !self@.is_filled() || S != self@.size ==> r == Err::<[T; S], WindowError>(
                WindowError::NotFilled,
            ),
    {
        proof {
            self.lemma_view_wf();
        }
        if !self.filled() || S != self.size() {
            return Err(WindowError::NotFilled);
        }
        let slice = self.get_slice();
        let mut arr: [T; S] = [slice[0];S];
        let mut i: usize = 0;
        while i < S
            invariant
                i <= S,
                slice@.len() == S,
                forall|j: int| 0 <= j < i ==> arr@[j] == slice@[j],
            decreases S - i,
        {
            arr[i] = slice[i];
            i += 1;
        }
        assert(arr@ =~= slice@);
        Ok(arr)
    }
}

} // verus!
