use vstd::prelude::*;

verus! {

/// Moves the `count` values that start at slot `from` to the front of
/// `slots`. The slots from `count` on keep what they held.
pub fn move_to_front<T: Copy>(slots: &mut [T], from: usize, count: usize)
    requires
        from + count <= old(slots)@.len(),
    ensures
        final(slots)@ == old(slots)@.subrange(from as int, from + count) + old(slots)@.subrange(
            count as int,
            old(slots)@.len() as int,
        ),
{
    let ghost before = slots@;
    let len: usize = slots.len();
    let mut i: usize = 0;
    while i < count
        invariant
            i <= count,
            from + count <= len == before.len(),
            slots@.len() == before.len(),
            forall|j: int| 0 <= j < i ==> slots@[j] == before[from + j],
            forall|j: int| i <= j < before.len() ==> slots@[j] == before[j],
        decreases count - i,
    {
        let value = slots[from + i];
        slots[i] = value;
        i += 1;
    }
    assert(slots@ =~= before.subrange(from as int, from + count) + before.subrange(
        count as int,
        before.len() as int,
    ));
}

} // verus!
