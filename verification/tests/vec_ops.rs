//! Behaviour of the dynamic-array facade.

use std::cell::Cell;
use std::rc::Rc;

use cstl::proxy::{CountingAlloc, SysAlloc};
use cstl::vec::CxxVec;

/// An element that counts how many times it is dropped.
struct DropCounter {
    drops: Rc<Cell<u32>>,
}

impl Drop for DropCounter {
    fn drop(&mut self) {
        self.drops.set(self.drops.get() + 1);
    }
}

#[test]
fn push_pop_len() {
    let mut v: CxxVec<i32> = CxxVec::new();
    assert!(v.is_empty());
    v.push(1);
    v.push(2);
    v.push(3);
    assert_eq!(v.len(), 3);
    assert_eq!(v.as_slice(), &[1, 2, 3]);
    assert_eq!(v.pop(), Some(3));
    assert_eq!(v.len(), 2);
    assert_eq!(v.pop(), Some(2));
    assert_eq!(v.pop(), Some(1));
    assert_eq!(v.pop(), None);
}

#[test]
fn pop_on_empty_returns_none_without_side_effects() {
    let mut v: CxxVec<u8> = CxxVec::new();
    assert_eq!(v.pop(), None);
    assert_eq!(v.len(), 0);
    assert_eq!(v.capacity(), 0);
}

#[test]
fn capacity_doubles_geometrically() {
    let mut v: CxxVec<u64> = CxxVec::new();
    assert_eq!(v.capacity(), 0);
    v.push(1);
    assert_eq!(v.capacity(), 1);
    v.push(2);
    assert_eq!(v.capacity(), 2);
    v.push(3);
    assert_eq!(v.capacity(), 4);
    v.push(4);
    v.push(5);
    assert_eq!(v.capacity(), 8);
}

#[test]
fn insert_at_len_appends() {
    let mut v: CxxVec<i32> = CxxVec::new();
    v.push(1);
    v.push(2);
    v.insert(2, 3);
    assert_eq!(v.as_slice(), &[1, 2, 3]);
    v.insert(0, 0);
    assert_eq!(v.as_slice(), &[0, 1, 2, 3]);
    v.insert(2, 9);
    assert_eq!(v.as_slice(), &[0, 1, 9, 2, 3]);
}

#[test]
fn index_reads_elements() {
    let mut v: CxxVec<i32> = CxxVec::new();
    v.push(5);
    v.push(6);
    assert_eq!(*v.index(0), 5);
    assert_eq!(*v.index(1), 6);
}

#[test]
fn remove_shifts_down() {
    let mut v: CxxVec<i32> = CxxVec::new();
    v.push(10);
    v.push(20);
    v.push(30);
    assert_eq!(v.remove(1), 20);
    assert_eq!(v.as_slice(), &[10, 30]);
    assert_eq!(v.remove(0), 10);
    assert_eq!(v.as_slice(), &[30]);
}

#[test]
fn clear_keeps_capacity() {
    let mut v: CxxVec<i32> = CxxVec::new();
    v.push(1);
    v.push(2);
    v.push(3);
    let cap = v.capacity();
    v.clear();
    assert_eq!(v.len(), 0);
    assert_eq!(v.capacity(), cap);
}

#[test]
fn truncate_and_resize() {
    let mut v: CxxVec<i32> = CxxVec::new();
    v.push(1);
    v.push(2);
    v.push(3);
    v.truncate(5);
    assert_eq!(v.len(), 3);
    v.truncate(1);
    assert_eq!(v.as_slice(), &[1]);
    v.resize(4, 7);
    assert_eq!(v.as_slice(), &[1, 7, 7, 7]);
    v.resize(2, 9);
    assert_eq!(v.as_slice(), &[1, 7]);
}

#[test]
fn reserve_is_exact_and_never_shrinks() {
    let mut v: CxxVec<i32> = CxxVec::new();
    v.reserve(10);
    assert_eq!(v.capacity(), 10);
    assert_eq!(v.len(), 0);
    v.reserve(0);
    assert_eq!(v.capacity(), 10);
    v.push(1);
    v.reserve(1);
    assert_eq!(v.capacity(), 11);
}

#[test]
fn shrink_to_fit_is_idempotent() {
    let mut v: CxxVec<i32> = CxxVec::new();
    v.push(1);
    v.push(2);
    v.push(3);
    assert_eq!(v.capacity(), 4);
    v.shrink_to_fit();
    assert_eq!(v.capacity(), 3);
    v.shrink_to_fit();
    assert_eq!(v.capacity(), 3);
    assert_eq!(v.as_slice(), &[1, 2, 3]);
    v.clear();
    v.shrink_to_fit();
    assert_eq!(v.capacity(), 0);
}

#[test]
fn resize_with_fills_from_the_producer() {
    let mut v: CxxVec<i32> = CxxVec::new();
    v.push(1);
    v.resize_with(4, || 7);
    assert_eq!(v.as_slice(), &[1, 7, 7, 7]);
    v.resize_with(2, || 9);
    assert_eq!(v.as_slice(), &[1, 7]);
}

#[test]
fn equality_compares_elements_only() {
    let mut a: CxxVec<i32> = CxxVec::new();
    a.push(1);
    a.push(2);
    let mut b: CxxVec<i32> = CxxVec::new();
    b.reserve(16);
    b.push(1);
    b.push(2);
    assert!(a == b);
    b.push(3);
    assert!(a != b);
}

#[test]
fn rust_vec_round_trip() {
    let v = CxxVec::from_rust_vec_in(vec![1, 2, 3], SysAlloc);
    assert_eq!(v.len(), 3);
    let back = v.into_rust_vec();
    assert_eq!(back, vec![1, 2, 3]);
}

#[test]
fn from_slice_clones_contents() {
    let v = CxxVec::from_slice_in(&[4, 5, 6], SysAlloc);
    assert_eq!(v.as_slice(), &[4, 5, 6]);
    assert_eq!(v.capacity(), 3);
}

#[test]
fn vec_clone_is_equal_and_independent() {
    let mut original: CxxVec<i32> = CxxVec::new();
    original.push(1);
    original.push(2);
    original.push(3);
    let mut copy = original.clone();
    assert_eq!(copy.as_slice(), original.as_slice());
    copy.push(4);
    assert_eq!(original.len(), 3);
    assert_eq!(copy.len(), 4);
    assert_eq!(original.as_slice(), &[1, 2, 3]);
}

#[test]
fn layout_variants_behave_identically() {
    let mut modern: CxxVec<i32> = CxxVec::new();
    let mut historical = cstl::vec::msvc2012::CxxVec::<i32>::new_in(SysAlloc);
    for i in 0..10 {
        modern.push(i);
        historical.push(i);
    }
    modern.shrink_to_fit();
    historical.shrink_to_fit();
    assert_eq!(modern.as_slice(), historical.as_slice());
    assert_eq!(modern.capacity(), historical.capacity());
    let moved: CxxVec<i32> = CxxVec::from_vec_in(historical, SysAlloc);
    assert_eq!(moved.as_slice(), modern.as_slice());
}

#[test]
fn into_iter_yields_in_order_from_both_ends() {
    let mut v: CxxVec<i32> = CxxVec::new();
    v.push(1);
    v.push(2);
    v.push(3);
    let mut it = v.into_iter();
    assert_eq!(it.len(), 3);
    assert_eq!(it.next(), Some(1));
    assert_eq!(it.next_back(), Some(3));
    assert_eq!(it.next(), Some(2));
    assert_eq!(it.next(), None);
    assert_eq!(it.next_back(), None);
}

#[test]
fn partial_drain_drops_remaining_exactly_once() {
    let drops = Rc::new(Cell::new(0));
    let mut v: CxxVec<DropCounter> = CxxVec::new();
    for _ in 0..5 {
        v.push(DropCounter { drops: Rc::clone(&drops) });
    }
    let mut it = v.into_iter();
    let first = it.next();
    let second = it.next();
    assert_eq!(drops.get(), 0);
    drop(first);
    drop(second);
    assert_eq!(drops.get(), 2);
    drop(it);
    assert_eq!(drops.get(), 5);
}

#[test]
fn counting_allocator_balances_after_destroy() {
    let alloc = CountingAlloc::new();
    let mut v: CxxVec<u32, CountingAlloc> = CxxVec::new_in(alloc);
    for i in 0..100 {
        v.push(i);
    }
    v.clear();
    let a = v.destroy();
    assert!(a.allocs_served() > 0);
    assert_eq!(a.allocs_served(), a.frees_served());
}

#[test]
fn counting_allocator_balances_through_iterator() {
    let alloc = CountingAlloc::new();
    let mut v: CxxVec<u32, CountingAlloc> = CxxVec::new_in(alloc);
    for i in 0..5 {
        v.push(i);
    }
    let mut it = v.into_iter();
    let _ = it.next();
    let a = it.destroy();
    assert_eq!(a.allocs_served(), a.frees_served());
}
