use vstd::prelude::*;
use crate::error::WindowError;
use crate::model::WindowModel;

verus! {

/// The values that a window of length `size` shows after `values` have been
/// pushed into it: all of them while they are no more than `size`, else the
/// last `size` of them, in the order in which they were pushed.
pub open spec fn recent<T>(values: Seq<T>, size: nat) -> Seq<T> {
    if values.len() <= size {
        values
    } else {
        values.subrange(values.len() - size, values.len() as int)
    }
}

/// A push keeps the invariant: the cursors stay in order and inside the
/// buffer, the window's length and the capacity stay what they were, and the
/// window is no longer empty.
pub proof fn lemma_push_preserves_wf<T>(m: WindowModel<T>, value: T)
    requires
        m.wf(),
    ensures
        m.push(value).wf(),
        m.push(value).head <= m.push(value).tail <= m.push(value).capacity,
        m.push(value).size == m.size,
        m.push(value).capacity == m.capacity,
        !m.push(value).is_empty(),
        m.is_filled() ==> m.push(value).is_filled(),
        !m.is_filled() ==> m.push(value).tail == m.tail + 1,
{
}

/// Compaction does not change what the window shows once the next value has
/// arrived: a push that has to rewind and one that does not have the same
/// effect on the window.
pub proof fn lemma_push_slides_window<T>(m: WindowModel<T>, value: T)
    requires
        m.wf(),
    ensures
        m.push(value).window() == recent(m.window().push(value), m.size),
        m.push(value).last() is Ok ==> m.push(value).last() == Ok::<T, WindowError>(value),
{
    let w = m.window().push(value);
    let after = m.push(value);
    if m.must_rewind() {
        let r = m.rewind();
        assert(r.entries.len() == m.size - 1);
        assert(after.entries =~= r.entries.push(value));
        assert(after.window() =~= recent(w, m.size));
    } else {
        assert(after.window() =~= recent(w, m.size));
    }
}

/// A filled window shows exactly `size` values, and one that is not yet
/// filled shows as many as were pushed.
pub proof fn lemma_window_len<T>(m: WindowModel<T>)
    requires
        m.wf(),
    ensures
        m.is_filled() ==> m.window().len() == m.size,
        !m.is_filled() ==> m.window().len() == m.tail,
        m.snapshot() is Ok ==> m.snapshot().unwrap().len() == m.size,
{
}

/// Any number of pushes keeps the invariant.
pub proof fn lemma_push_all_preserves_wf<T>(m: WindowModel<T>, values: Seq<T>)
    requires
        m.wf(),
    ensures
        m.push_all(values).wf(),
        m.push_all(values).size == m.size,
        m.push_all(values).capacity == m.capacity,
    decreases values.len(),
{
    if values.len() > 0 {
        lemma_push_all_preserves_wf(m, values.drop_last());
        lemma_push_preserves_wf(m.push_all(values.drop_last()), values.last());
    }
}

/// What a window shows is decided by what was pushed, not by where the buffer
/// was compacted: after `values` have been pushed into a new window, the
/// window holds the most recent of them in the order of their arrival, it is
/// filled exactly when at least `size` values have come, `first` succeeds
/// exactly when one has, and `last` gives the newest once it is filled.
pub proof fn lemma_window_follows_pushes<T>(size: nat, capacity: nat, values: Seq<T>)
    requires
        1 <= size <= capacity,
    ensures
        WindowModel::<T>::new(size, capacity).push_all(values).wf(),
        WindowModel::<T>::new(size, capacity).push_all(values).window() == recent(values, size),
        WindowModel::<T>::new(size, capacity).push_all(values).is_empty() <==> values.len() == 0,
        WindowModel::<T>::new(size, capacity).push_all(values).is_filled() <==> values.len()
            >= size,
        WindowModel::<T>::new(size, capacity).push_all(values).first() is Ok <==> values.len()
            >= 1,
        values.len() >= 1 && values.len() <= size ==> WindowModel::<T>::new(
            size,
            capacity,
        ).push_all(values).first() == Ok::<T, WindowError>(values.first()),
        WindowModel::<T>::new(size, capacity).push_all(values).last() == (if values.len()
            >= size {
            Ok::<T, WindowError>(values.last())
        } else {
            Err::<T, WindowError>(WindowError::NotFilled)
        }),
        WindowModel::<T>::new(size, capacity).push_all(values).snapshot() == (if values.len()
            >= size {
            Ok::<Seq<T>, WindowError>(recent(values, size))
        } else {
            Err::<Seq<T>, WindowError>(WindowError::NotFilled)
        }),
        values.len() < size ==> WindowModel::<T>::new(size, capacity).push_all(values).tail
            == values.len(),
    decreases values.len(),
{
    let start = WindowModel::<T>::new(size, capacity);
    if values.len() > 0 {
        let before = values.drop_last();
        let m = start.push_all(before);
        lemma_window_follows_pushes::<T>(size, capacity, before);
        lemma_push_all_preserves_wf(start, before);
        lemma_push_preserves_wf(m, values.last());
        lemma_push_slides_window(m, values.last());
        assert(before.push(values.last()) =~= values);
        assert(recent(recent(before, size).push(values.last()), size) =~= recent(values, size));
        let after = m.push(values.last());
        assert(after == start.push_all(values));
        if values.len() <= size {
            assert(after.window() == values);
            assert(after.entries == after.window());
        }
    }
}

} // verus!
