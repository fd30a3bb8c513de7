use generic_array::typenum::U8;

use sliding_window::array_backed;
use sliding_window::compact::move_to_front;
use sliding_window::error::WindowError;
use sliding_window::sliding_window::{
    new_with_array_storage, new_with_generic_array_storage, new_with_vector_storage, SlidingWindow,
};
use sliding_window::storage::Storage;
use sliding_window::storage_vec::VectorStorage;
use sliding_window::vector_backed;

#[test]
fn window_over_each_store_agrees() {
    let mut a = new_with_array_storage::<i64, 4, 8>();
    let mut g = new_with_generic_array_storage::<i64, U8>(4);
    let mut v = new_with_vector_storage::<i64>(4, 2);
    assert_eq!(a.size(), 4);
    assert_eq!(g.size(), 4);
    assert_eq!(v.size(), 4);
    assert!(a.empty() && g.empty() && v.empty());
    for n in 0..50 {
        a.push(n);
        g.push(n);
        v.push(n);
        assert_eq!(a.empty(), false);
        assert_eq!(a.filled(), n >= 3);
        assert_eq!(a.filled(), g.filled());
        assert_eq!(a.filled(), v.filled());
        assert_eq!(a.first(), g.first());
        assert_eq!(a.first(), v.first());
        assert_eq!(a.last(), g.last());
        assert_eq!(a.last(), v.last());
        assert_eq!(a.slice(), g.slice());
        assert_eq!(a.slice(), v.slice());
        assert_eq!(a.vec(), g.vec());
        assert_eq!(a.arr::<4>(), v.arr::<4>());
        if n >= 3 {
            assert_eq!(a.last(), Ok(n));
            assert_eq!(a.vec(), Ok(vec![n - 3, n - 2, n - 1, n]));
            assert_eq!(a.arr::<4>(), Ok([n - 3, n - 2, n - 1, n]));
        }
    }
}

#[test]
fn window_of_four_scenario() {
    let mut window = new_with_vector_storage::<i32>(4, 2);
    for n in [0, 1, 2, 3] {
        window.push(n);
    }
    assert_eq!(window.filled(), true);
    assert_eq!(window.first(), Ok(0));
    assert_eq!(window.last(), Ok(3));

    window.push(42);
    assert_eq!(window.first(), Ok(0));
    assert_eq!(window.last(), Ok(42));
    assert_eq!(window.slice().unwrap(), &[1, 2, 3, 42]);
    assert_eq!(window.vec().unwrap(), vec![1, 2, 3, 42]);
    assert_eq!(window.arr::<4>().unwrap(), [1, 2, 3, 42]);
    assert_eq!(window.arr::<3>(), Err(WindowError::NotFilled));
    assert_eq!(window.arr::<5>(), Err(WindowError::NotFilled));
}

#[test]
fn first_needs_one_push_and_last_a_full_window() {
    let mut window = new_with_array_storage::<u8, 3, 6>();
    assert_eq!(window.first(), Err(WindowError::EmptyBuffer));
    assert_eq!(window.last(), Err(WindowError::NotFilled));
    window.push(9);
    assert_eq!(window.first(), Ok(9));
    assert_eq!(window.last(), Err(WindowError::NotFilled));
    window.push(8);
    assert_eq!(window.first(), Ok(9));
    assert_eq!(window.last(), Err(WindowError::NotFilled));
    assert_eq!(window.slice(), Err(WindowError::NotFilled));
    assert_eq!(window.vec(), Err(WindowError::NotFilled));
    assert_eq!(window.arr::<3>(), Err(WindowError::NotFilled));
    window.push(7);
    assert_eq!(window.first(), Ok(9));
    assert_eq!(window.last(), Ok(7));
    assert_eq!(window.slice(), Ok(&[9, 8, 7][..]));
}

#[test]
fn window_over_a_store_that_was_used_before() {
    let mut store: VectorStorage<u16> = VectorStorage::new(2, 2);
    store.push(1);
    store.push(2);
    store.push(3);
    let mut window = SlidingWindow::with_storage(store);
    assert_eq!(window.filled(), true);
    assert_eq!(window.vec(), Ok(vec![2, 3]));
    window.push(4);
    window.push(5);
    assert_eq!(window.vec(), Ok(vec![4, 5]));
}

#[test]
fn multiple_of_one_rewinds_on_every_push() {
    let mut window = new_with_vector_storage::<u32>(3, 1);
    for n in 0..3 {
        window.push(n);
    }
    assert_eq!(window.vec(), Ok(vec![0, 1, 2]));
    for n in 3..20 {
        window.push(n);
        assert_eq!(window.filled(), true);
        assert_eq!(window.first(), Ok(n - 2));
        assert_eq!(window.last(), Ok(n));
        assert_eq!(window.slice().unwrap(), &[n - 2, n - 1, n]);
    }
}

#[test]
fn array_backed_window() {
    let mut window: array_backed::SlidingWindow<i32, U8> =
        array_backed::SlidingWindow::new(4);
    assert_eq!(window.len(), 4);
    assert_eq!(window.empty(), true);
    assert_eq!(window.filled(), false);
    assert_eq!(window.first(), Err(WindowError::EmptyBuffer));
    assert_eq!(window.last(), Err(WindowError::NotFilled));
    assert_eq!(window.slice(), Err(WindowError::NotFilled));
    assert_eq!(window.vec(), Err(WindowError::NotFilled));
    assert_eq!(window.arr::<4>(), Err(WindowError::NotFilled));
    for n in 0..4 {
        window.push(n);
    }
    assert_eq!(window.empty(), false);
    assert_eq!(window.filled(), true);
    assert_eq!(window.first(), Ok(0));
    assert_eq!(window.last(), Ok(3));
    window.push(42);
    assert_eq!(window.first(), Ok(0));
    assert_eq!(window.last(), Ok(42));
    assert_eq!(window.slice().unwrap(), &[1, 2, 3, 42]);
    for n in 100..112 {
        window.push(n);
        assert_eq!(window.last(), Ok(n));
    }
    assert_eq!(window.slice().unwrap(), &[108, 109, 110, 111]);
    assert_eq!(window.vec().unwrap(), vec![108, 109, 110, 111]);
    assert_eq!(window.arr::<4>().unwrap(), [108, 109, 110, 111]);
    assert_eq!(window.arr::<3>(), Err(WindowError::NotFilled));
    assert_eq!(window.arr::<5>(), Err(WindowError::NotFilled));
}

#[test]
fn vector_backed_window_of_references() {
    let values: Vec<i32> = (0..30).collect();
    let mut window: vector_backed::SlidingWindow<i32> = vector_backed::SlidingWindow::new(4, 2);
    assert_eq!(window.len(), 4);
    assert_eq!(window.empty(), true);
    assert_eq!(window.first(), Err(WindowError::EmptyBuffer));
    assert_eq!(window.last(), Err(WindowError::NotFilled));
    assert_eq!(window.slice(), Err(WindowError::NotFilled));
    assert_eq!(window.vec(), Err(WindowError::NotFilled));
    window.push(&values[0]);
    window.push(&values[1]);
    assert_eq!(window.filled(), false);
    assert_eq!(window.first(), Ok(0));
    assert_eq!(window.last(), Err(WindowError::NotFilled));
    assert_eq!(window.slice(), Err(WindowError::NotFilled));
    window.push(&values[2]);
    assert_eq!(window.filled(), false);
    assert_eq!(window.vec(), Err(WindowError::NotFilled));
    for value in &values[3..] {
        window.push(value);
        assert_eq!(window.last(), Ok(*value));
        assert_eq!(
            window.slice().unwrap(),
            &[&(*value - 3), &(*value - 2), &(*value - 1), value]
        );
        assert_eq!(window.vec().unwrap().len(), 4);
    }
    assert_eq!(window.vec(), Ok(vec![&26, &27, &28, &29]));
}

#[test]
fn vector_backed_window_with_multiple_of_one() {
    let values: Vec<u8> = (0..12).collect();
    let mut window: vector_backed::SlidingWindow<u8> = vector_backed::SlidingWindow::new(2, 1);
    for value in &values {
        window.push(value);
    }
    assert_eq!(window.first(), Ok(10));
    assert_eq!(window.last(), Ok(11));
    assert_eq!(window.slice().unwrap(), &[&10, &11]);
}

#[test]
fn move_to_front_copies_forward() {
    let mut slots = [1, 2, 3, 4, 5, 6];
    move_to_front(&mut slots, 2, 3);
    assert_eq!(slots, [3, 4, 5, 4, 5, 6]);

    let mut slots = [1, 2, 3, 4];
    move_to_front(&mut slots, 1, 3);
    assert_eq!(slots, [2, 3, 4, 4]);

    let mut slots = [1, 2, 3];
    move_to_front(&mut slots, 3, 0);
    assert_eq!(slots, [1, 2, 3]);

    let mut slots = [1, 2, 3];
    move_to_front(&mut slots, 0, 3);
    assert_eq!(slots, [1, 2, 3]);
}
