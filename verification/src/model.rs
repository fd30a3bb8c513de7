use vstd::prelude::*;
use crate::error::WindowError;

verus! {

/// The state of a sliding window as mathematics.
///
/// The buffer has `capacity` slots. The slots from `head` up to `tail` are
/// live, and `entries` holds what they contain, the oldest value first. The
/// window is the last `size` values that were pushed: while no more than
/// `size` slots are live it is all of `entries`, afterwards `head` lags one
/// slot behind it and the window is `entries` without its first value.
pub ghost struct WindowModel<T> {
    pub size: nat,
    pub capacity: nat,
    pub head: nat,
    pub tail: nat,
    pub entries: Seq<T>,
}

impl<T> WindowModel<T> {
    /// The window of length `size` over `capacity` slots into which nothing
    /// has been pushed.
    pub open spec fn new(size: nat, capacity: nat) -> Self {
        WindowModel { size, capacity, head: 0, tail: 0, entries: Seq::empty() }
    }

    /// The invariant of a window: the cursors are in order and inside the
    /// buffer, and the live slots are at most one more than the window.
    pub open spec fn wf(self) -> bool {
        &&& 1 <= self.size <= self.capacity
        &&& self.head <= self.tail <= self.capacity
        &&& self.entries.len() == self.tail - self.head
        &&& self.tail <= self.size ==> self.head == 0
        &&& self.tail > self.size ==> self.tail - self.head == self.size + 1
    }

    /// Nothing has been pushed yet.
    pub open spec fn is_empty(self) -> bool {
        self.tail == 0
    }

    /// At least `size` values have been pushed.
    pub open spec fn is_filled(self) -> bool {
        self.tail >= self.size
    }

    /// The values of the window, the oldest first.
    pub open spec fn window(self) -> Seq<T> {
        if self.tail > self.size {
            self.entries.skip(1)
        } else {
            self.entries
        }
    }

    /// The value in the slot at `head`.
    pub open spec fn first(self) -> Result<T, WindowError> {
        if self.tail == 0 {
            Err(WindowError::EmptyBuffer)
        } else {
            Ok(self.entries.first())
        }
    }

    /// The value that was pushed last, once the window is filled.
    pub open spec fn last(self) -> Result<T, WindowError> {
        if self.is_filled() {
            Ok(self.entries.last())
        } else {
            Err(WindowError::NotFilled)
        }
    }

    /// The whole window, once it is filled.
    pub open spec fn snapshot(self) -> Result<Seq<T>, WindowError> {
        if self.is_filled() {
            Ok(self.window())
        } else {
            Err(WindowError::NotFilled)
        }
    }

    /// The next push finds no free slot and has to compact the buffer first.
    pub open spec fn must_rewind(self) -> bool {
        self.tail > 0 && self.tail == self.capacity
    }

    /// The state after compaction: the newest `size - 1` values have moved to
    /// the front of the buffer, so that the next push completes the window.
    pub open spec fn rewind(self) -> Self {
        let keep = self.size - 1;
        WindowModel {
            head: 0,
            tail: keep as nat,
            entries: self.entries.subrange(self.entries.len() - keep, self.entries.len() as int),
            ..self
        }
    }

    /// The state after writing `value` to the slot at `tail`, which is free.
    /// The head moves on one slot once more than `size` slots are live.
    pub open spec fn append(self, value: T) -> Self {
        if self.tail - self.head > self.size {
            WindowModel {
                head: self.head + 1,
                tail: self.tail + 1,
                entries: self.entries.skip(1).push(value),
                ..self
            }
        } else {
            WindowModel { tail: self.tail + 1, entries: self.entries.push(value), ..self }
        }
    }

    /// The state after pushing `value`.
    pub open spec fn push(self, value: T) -> Self {
        if self.must_rewind() {
            self.rewind().append(value)
        } else {
            self.append(value)
        }
    }

    /// The state after pushing the values of `values` in their order.
    pub open spec fn push_all(self, values: Seq<T>) -> Self
        decreases values.len(),
    {
        if values.len() == 0 {
            self
        } else {
            self.push_all(values.drop_last()).push(values.last())
        }
    }
}

} // verus!
