use vstd::prelude::*;
use crate::error::WindowError;
use crate::model::WindowModel;
use crate::storage::Storage;
use crate::storage_vec::VectorStorage;

verus! {

/// A sliding window over values that live elsewhere: it keeps references to
/// them in a growable buffer and copies a value only when one is asked for.
pub struct SlidingWindow<'l, T> {
    storage: VectorStorage<&'l T>,
}

impl<'l, T> View for SlidingWindow<'l, T> {
    type V = WindowModel<&'l T>;

    closed spec fn view(&self) -> WindowModel<&'l T> {
        self.storage@
    }
}

/// The value behind the reference that a query gave, or the query's error.
pub open spec fn copied<'l, T>(r: Result<&'l T, WindowError>) -> Result<T, WindowError> {
    match r {
        Ok(value) => Ok(*value),
        Err(e) => Err(e),
    }
}

impl<'l, T: Copy> SlidingWindow<'l, T> {
    /// The window's store is well formed.
    pub closed spec fn wf(&self) -> bool {
        self.storage.wf()
    }

    /// The state of a well-formed window satisfies the window's invariant.
    pub proof fn lemma_view_wf(&self)
        requires
            self.wf(),
        ensures
            self@.wf(),
    {
        self.storage.lemma_view_wf();
    }

    /// An empty window of `size` values over a buffer of `size * multiple`
    /// slots.
    pub fn new(size: usize, multiple: usize) -> (r: Self)
        requires
            0 < size,
            0 < multiple,
            size * multiple <= usize::MAX,
        ensures
            r.wf(),
            r@ == WindowModel::<&'l T>::new(size as nat, (size * multiple) as nat),
    {
        Self { storage: VectorStorage::new(size, multiple) }
    }

    /// Adds a reference to `value` as the newest value of the window.
    pub fn push(&mut self, value: &'l T)
        requires
            old(self).wf(),
        ensures
            final(self).wf(),
            final(self)@ == old(self)@.push(value),
    {
        self.storage.push(value)
    }

    /// True until the first value has been pushed.
    pub fn empty(&self) -> (r: bool)
        requires
            self.wf(),
        ensures
            r == self@.is_empty(),
    {
        self.storage.empty()
    }

    /// A copy of the value in the slot at the head, unless nothing has been
    /// pushed.
    pub fn first(&self) -> (r: Result<T, WindowError>)
        requires
            self.wf(),
        ensures
            r == copied(self@.first()),
    {
        match self.storage.first() {
            Ok(value) => Ok(*value),
            Err(e) => Err(e),
        }
    }

    /// A copy of the newest value, once the window is filled.
    pub fn last(&self) -> (r: Result<T, WindowError>)
        requires
            self.wf(),
        ensures
            r == copied(self@.last()),
    {
        match self.storage.last() {
            Ok(value) => Ok(*value),
            Err(e) => Err(e),
        }
    }

    /// True once as many values as the window is long have been pushed.
    pub fn filled(&self) -> (r: bool)
        requires
            self.wf(),
        ensures
            r == self@.is_filled(),
    {
        self.storage.filled()
    }

    /// The length of the window.
    pub fn len(&self) -> (r: usize)
        requires
            self.wf(),
        ensures
            r == self@.size,
    {
        self.storage.size()
    }

    /// The filled window as a slice of exactly `size` references, the oldest
    /// first.
    pub fn slice(&self) -> (r: Result<&[&'l T], WindowError>)
        requires
            self.wf(),
        ensures
            self@.is_filled() ==> r is Ok && r.unwrap()@ == self@.window() && r.unwrap()@.len()
                == self@.size,
            !self@.is_filled() ==> r == Err::<&[&'l T], WindowError>(WindowError::NotFilled),
    {
        self.storage.slice()
    }

    /// The filled window as a vector of exactly `size` references, the oldest
    /// first.
    pub fn vec(&self) -> (r: Result<Vec<&'l T>, WindowError>)
        requires
            self.wf(),
        ensures
            self@.is_filled() ==> r is Ok && r.unwrap()@ == self@.window() && r.unwrap()@.len()
                == self@.size,
            !self@.is_filled() ==> r == Err::<Vec<&'l T>, WindowError>(WindowError::NotFilled),
    {
        self.storage.vec()
    }
}

} // verus!
