//! Behaviour of the doubly-linked-list facade.

use std::cell::Cell;
use std::rc::Rc;

use cstl::list::CxxList;
use cstl::proxy::{CountingAlloc, SysAlloc};

/// An element that counts how many times it is dropped.
struct DropCounter {
    drops: Rc<Cell<u32>>,
}

impl Drop for DropCounter {
    fn drop(&mut self) {
        self.drops.set(self.drops.get() + 1);
    }
}

#[test]
fn push_front_back_and_accessors() {
    let mut l: CxxList<i32> = CxxList::new();
    assert!(l.is_empty());
    assert_eq!(l.front(), None);
    assert_eq!(l.back(), None);
    l.push_back(2);
    l.push_front(1);
    l.push_back(3);
    assert_eq!(l.len(), 3);
    assert_eq!(l.front(), Some(&1));
    assert_eq!(l.back(), Some(&3));
    assert_eq!(l.as_slice(), &[1, 2, 3]);
}

#[test]
fn pop_on_empty_list_changes_nothing() {
    let mut l: CxxList<i32> = CxxList::new();
    l.pop_front();
    l.pop_back();
    assert_eq!(l.len(), 0);
}

#[test]
fn pop_front_and_back() {
    let mut l: CxxList<i32> = CxxList::new();
    l.push_back(1);
    l.push_back(2);
    l.push_back(3);
    l.pop_front();
    assert_eq!(l.as_slice(), &[2, 3]);
    l.pop_back();
    assert_eq!(l.as_slice(), &[2]);
}

#[test]
fn copy_pushes_clone_the_value() {
    let mut l: CxxList<String> = CxxList::new();
    let v = String::from("x");
    l.push_back_copy(&v);
    l.push_front_copy(&v);
    assert_eq!(l.len(), 2);
    assert_eq!(v, "x");
    assert_eq!(l.front(), Some(&String::from("x")));
}

#[test]
fn assign_and_resize() {
    let mut l: CxxList<i32> = CxxList::new();
    l.assign(3, &7);
    assert_eq!(l.as_slice(), &[7, 7, 7]);
    l.resize(5, 9);
    assert_eq!(l.as_slice(), &[7, 7, 7, 9, 9]);
    l.resize(2, 0);
    assert_eq!(l.as_slice(), &[7, 7]);
    l.clear();
    assert_eq!(l.len(), 0);
}

#[test]
fn list_resize_with_fills_from_the_producer() {
    let mut l: CxxList<i32> = CxxList::new();
    l.push_back(1);
    l.resize_with(3, || 5);
    assert_eq!(l.as_slice(), &[1, 5, 5]);
    l.resize_with(1, || 0);
    assert_eq!(l.as_slice(), &[1]);
}

#[test]
fn list_equality_compares_elements() {
    let mut a: CxxList<i32> = CxxList::new();
    let mut b: CxxList<i32> = CxxList::new();
    a.push_back(1);
    b.push_back(1);
    assert!(a == b);
    b.push_back(2);
    assert!(a != b);
}

#[test]
fn swap_exchanges_contents() {
    let mut a: CxxList<i32> = CxxList::new();
    let mut b: CxxList<i32> = CxxList::new();
    a.push_back(1);
    b.push_back(2);
    b.push_back(3);
    a.swap(&mut b);
    assert_eq!(a.as_slice(), &[2, 3]);
    assert_eq!(b.as_slice(), &[1]);
}

#[test]
fn list_clone_is_equal_and_independent() {
    let mut original: CxxList<i32> = CxxList::new();
    original.push_back(1);
    original.push_back(2);
    original.push_back(3);
    let mut copy = original.clone();
    assert_eq!(copy.as_slice(), original.as_slice());
    copy.push_back(4);
    assert_eq!(original.len(), 3);
    assert_eq!(copy.len(), 4);
}

#[test]
fn iter_walks_front_to_back() {
    let mut l: CxxList<i32> = CxxList::new();
    l.push_back(1);
    l.push_back(2);
    l.push_back(3);
    let mut it = l.iter();
    assert_eq!(it.next(), Some(&1));
    assert_eq!(it.next(), Some(&2));
    assert_eq!(it.next(), Some(&3));
    assert_eq!(it.next(), None);
    assert_eq!(l.len(), 3);
}

#[test]
fn into_iter_consumes_in_order() {
    let mut l: CxxList<i32> = CxxList::new();
    l.push_back(1);
    l.push_back(2);
    let mut it = l.into_iter();
    assert_eq!(it.len(), 2);
    assert_eq!(it.next(), Some(1));
    assert_eq!(it.next(), Some(2));
    assert_eq!(it.next(), None);
}

#[test]
fn list_partial_drain_drops_remaining_exactly_once() {
    let drops = Rc::new(Cell::new(0));
    let mut l: CxxList<DropCounter> = CxxList::new();
    for _ in 0..5 {
        l.push_back(DropCounter { drops: Rc::clone(&drops) });
    }
    let mut it = l.into_iter();
    drop(it.next());
    drop(it.next());
    assert_eq!(drops.get(), 2);
    drop(it);
    assert_eq!(drops.get(), 5);
}

#[test]
fn empty_list_lifecycle_frees_the_sentinel() {
    let alloc = CountingAlloc::new();
    let l: CxxList<u8, CountingAlloc> = CxxList::new_in(alloc);
    let a = l.destroy();
    assert_eq!(a.allocs_served(), 1);
    assert_eq!(a.frees_served(), 1);
}

#[test]
fn counting_allocator_balances_for_lists() {
    let alloc = CountingAlloc::new();
    let mut l: CxxList<u32, CountingAlloc> = CxxList::new_in(alloc);
    for i in 0..10 {
        l.push_back(i);
        l.push_front(i);
    }
    l.resize(3, 0);
    l.clear();
    let a = l.destroy();
    assert!(a.allocs_served() > 0);
    assert_eq!(a.allocs_served(), a.frees_served());
}

#[test]
fn from_list_in_moves_across_allocators() {
    let mut l: CxxList<i32> = CxxList::new();
    l.push_back(1);
    l.push_back(2);
    let counted: CxxList<i32, CountingAlloc> = CxxList::from_list_in(l, CountingAlloc::new());
    assert_eq!(counted.as_slice(), &[1, 2]);
    assert_eq!(counted.allocator().allocs_served(), 3);
    let back: CxxList<i32> = counted.into_list_in(SysAlloc);
    assert_eq!(back.as_slice(), &[1, 2]);
}
