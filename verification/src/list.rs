//! The doubly-linked-list facade: a node-based container whose observable
//! behaviour matches the foreign list implementation.
//!
//! The foreign value record is a `{sentinel, size}` pair over a circular
//! intrusive chain of nodes; the sentinel node always exists, even for an
//! empty list, so constructing a list already takes one foreign-allocated
//! block. The model keeps the element sequence; every node operation's
//! allocation traffic is recorded, one block per node plus the sentinel.

use crate::layout::{Layout, ValueRecord, WithCxxProxy};
use crate::proxy::{alloc_events, CxxProxy, SysAlloc};
use crate::semantics::spec_max_elems;
use vstd::pervasive::cloned;
use vstd::prelude::*;

pub mod into_iter;

verus! {

/// Model of the foreign list value record: the elements threaded on the
/// node chain, in order from the front.
pub struct ListVal<T> {
    elems: Vec<T>,
}

impl<T> View for ListVal<T> {
    type V = Seq<T>;

    closed spec fn view(&self) -> Seq<T> {
        self.elems@
    }
}

impl<T> ListVal<T> {
    /// Unthread the elements, for the consuming iterator.
    pub(crate) fn into_elems(self) -> (r: Vec<T>)
        ensures
            r@ == self@,
    {
        self.elems
    }
}

impl<T> ValueRecord for ListVal<T> {
    /// The empty representation: a sentinel with no data nodes.
    open spec fn spec_is_empty(&self) -> bool {
        self@ =~= Seq::<T>::empty()
    }

    fn empty() -> Self {
        ListVal { elems: Vec::new() }
    }
}

/// The doubly linked list facade over a layout/ownership wrapper `L`
/// holding a list value record and an allocator `A`.
#[verifier::reject_recursive_types(T)]
#[verifier::reject_recursive_types(A)]
pub struct CxxListLayout<T, A, L> where
    A: CxxProxy,
    L: WithCxxProxy<Alloc = A, Value = ListVal<T>>,
 {
    inner: L,
    _marker: core::marker::PhantomData<(T, A)>,
}

/// The doubly linked list in the modern ABI layout, allocator first.
pub type CxxList<T, A = SysAlloc> = CxxListLayout<T, A, Layout<A, ListVal<T>>>;

impl<T, A, L> View for CxxListLayout<T, A, L> where
    A: CxxProxy,
    L: WithCxxProxy<Alloc = A, Value = ListVal<T>>,
 {
    type V = Seq<T>;

    closed spec fn view(&self) -> Seq<T> {
        self.inner.spec_value()@
    }
}

impl<T> CxxList<T, SysAlloc> {
    /// An empty list using the system allocator.
    pub fn new() -> (r: Self)
        ensures
            r@ =~= Seq::<T>::empty(),
    {
        Self::new_in(SysAlloc)
    }
}

impl<T, A, L> CxxListLayout<T, A, L> where
    A: CxxProxy,
    L: WithCxxProxy<Alloc = A, Value = ListVal<T>>,
 {
    /// The allocator held by the list.
    pub closed spec fn spec_alloc(&self) -> A {
        self.inner.spec_alloc()
    }

    /// An empty list owning the given allocator. Unlike the other
    /// containers, an empty list owns storage: the foreign construct call
    /// allocates the sentinel node.
    pub fn new_in(alloc: A) -> (r: Self)
        ensures
            r@ =~= Seq::<T>::empty(),
            alloc_events(alloc, r.spec_alloc(), 1, 0),
    {
        let mut inner = L::new_in(alloc);
        inner.record_allocs(1);
        CxxListLayout { inner, _marker: core::marker::PhantomData }
    }

    /// The allocator this list allocates through.
    pub fn allocator(&self) -> (r: &A)
        ensures
            *r == self.spec_alloc(),
    {
        self.inner.alloc_as_ref()
    }

    /// The number of elements held.
    pub fn len(&self) -> (r: usize)
        ensures
            r == self@.len(),
    {
        self.inner.value_as_ref().elems.len()
    }

    /// Whether the list holds no data nodes.
    pub fn is_empty(&self) -> (r: bool)
        ensures
            r == (self@.len() == 0),
    {
        self.len() == 0
    }

    /// The greatest number of elements a list of this element type can
    /// represent.
    pub fn max_size(&self) -> (r: usize)
        ensures
            r == spec_max_elems::<T>(),
    {
        crate::semantics::max_elems::<T>()
    }

    /// The first element, if any.
    pub fn front(&self) -> (r: Option<&T>)
        ensures
            self@.len() == 0 ==> r is None,
            self@.len() > 0 ==> r is Some && *r.unwrap() == self@.first(),
    {
        self.inner.value_as_ref().elems.as_slice().first()
    }

    /// The last element, if any.
    pub fn back(&self) -> (r: Option<&T>)
        ensures
            self@.len() == 0 ==> r is None,
            self@.len() > 0 ==> r is Some && *r.unwrap() == self@.last(),
    {
        self.inner.value_as_ref().elems.as_slice().last()
    }

    /// The held elements as a slice, front to back.
    pub fn as_slice(&self) -> (r: &[T])
        ensures
            r@ == self@,
    {
        self.inner.value_as_ref().elems.as_slice()
    }

    /// Thread a new node holding `value` in at the front.
    pub fn push_front(&mut self, value: T)
        ensures
            final(self)@ == seq![value] + old(self)@,
            alloc_events(old(self).spec_alloc(), final(self).spec_alloc(), 1, 0),
    {
        let mut val = self.inner.take_value();
        self.inner.record_allocs(1);
        val.elems.insert(0, value);
        self.inner.set_value(val);
    }

    /// Thread a new node holding `value` in at the back.
    pub fn push_back(&mut self, value: T)
        ensures
            final(self)@ == old(self)@.push(value),
            alloc_events(old(self).spec_alloc(), final(self).spec_alloc(), 1, 0),
    {
        let mut val = self.inner.take_value();
        self.inner.record_allocs(1);
        val.elems.push(value);
        self.inner.set_value(val);
    }

    /// Thread a new node holding a clone of `value` in at the front.
    pub fn push_front_copy(&mut self, value: &T) where T: Clone
        ensures
            final(self)@.len() == old(self)@.len() + 1,
            cloned::<T>(*value, final(self)@.first()),
            final(self)@.skip(1) == old(self)@,
            alloc_events(old(self).spec_alloc(), final(self).spec_alloc(), 1, 0),
    {
        let cloned_value = value.clone();
        let ghost pre = self@;
        self.push_front(cloned_value);
        proof {
            assert(self@.skip(1) =~= pre);
        }
    }

    /// Thread a new node holding a clone of `value` in at the back.
    pub fn push_back_copy(&mut self, value: &T) where T: Clone
        ensures
            final(self)@.len() == old(self)@.len() + 1,
            cloned::<T>(*value, final(self)@.last()),
            final(self)@.drop_last() == old(self)@,
            alloc_events(old(self).spec_alloc(), final(self).spec_alloc(), 1, 0),
    {
        let cloned_value = value.clone();
        let ghost pre = self@;
        self.push_back(cloned_value);
        proof {
            assert(self@.drop_last() =~= pre);
        }
    }

    /// Unthread and drop the last node; on an empty list, no foreign call
    /// is made and nothing changes.
    pub fn pop_back(&mut self)
        ensures
            old(self)@.len() == 0 ==> final(self)@ == old(self)@,
            old(self)@.len() > 0 ==> final(self)@ == old(self)@.drop_last(),
            alloc_events(
                old(self).spec_alloc(),
                final(self).spec_alloc(),
                0,
                if old(self)@.len() > 0 {
                    1nat
                } else {
                    0nat
                },
            ),
    {
        let mut val = self.inner.take_value();
        if val.elems.len() > 0 {
            self.inner.record_frees(1);
            let _ = val.elems.pop();
        }
        self.inner.set_value(val);
    }

    /// Unthread and drop the first node; on an empty list, no foreign call
    /// is made and nothing changes.
    pub fn pop_front(&mut self)
        ensures
            old(self)@.len() == 0 ==> final(self)@ == old(self)@,
            old(self)@.len() > 0 ==> final(self)@ == old(self)@.drop_first(),
            alloc_events(
                old(self).spec_alloc(),
                final(self).spec_alloc(),
                0,
                if old(self)@.len() > 0 {
                    1nat
                } else {
                    0nat
                },
            ),
    {
        let mut val = self.inner.take_value();
        if val.elems.len() > 0 {
            self.inner.record_frees(1);
            let _ = val.elems.remove(0);
        }
        self.inner.set_value(val);
    }

    /// Drop every data node; the sentinel stays.
    pub fn clear(&mut self)
        ensures
            final(self)@ =~= Seq::<T>::empty(),
            alloc_events(old(self).spec_alloc(), final(self).spec_alloc(), 0, old(self)@.len()),
    {
        let mut val = self.inner.take_value();
        let n = val.elems.len();
        self.inner.record_frees(n);
        val.elems.clear();
        self.inner.set_value(val);
    }

    /// Replace the contents with `new_size` clones of `value`, reusing the
    /// existing nodes: only the difference in node count is allocated or
    /// freed.
    pub fn assign(&mut self, new_size: usize, value: &T) where T: Clone
        ensures
            final(self)@.len() == new_size,
            forall|i| #![all_triggers] 0 <= i < new_size ==> cloned::<T>(*value, final(self)@[i]),
            alloc_events(
                old(self).spec_alloc(),
                final(self).spec_alloc(),
                if new_size > old(self)@.len() {
                    (new_size - old(self)@.len()) as nat
                } else {
                    0nat
                },
                if new_size < old(self)@.len() {
                    (old(self)@.len() - new_size) as nat
                } else {
                    0nat
                },
            ),
    {
        let mut val = self.inner.take_value();
        let len = val.elems.len();
        if new_size > len {
            self.inner.record_allocs(new_size - len);
        } else if new_size < len {
            self.inner.record_frees(len - new_size);
        }
        val.elems.clear();
        let mut i: usize = 0;
        while i < new_size
            invariant
                i <= new_size,
                val.elems@.len() == i,
                forall|j| #![all_triggers] 0 <= j < i ==> cloned::<T>(*value, val.elems@[j]),
            decreases new_size - i,
        {
            val.elems.push(value.clone());
            i = i + 1;
        }
        self.inner.set_value(val);
    }

    /// Exchange the contents of two lists; the allocators stay where they
    /// are and no node moves or is reallocated.
    pub fn swap(&mut self, other: &mut Self)
        ensures
            final(self)@ == old(other)@,
            final(other)@ == old(self)@,
            final(self).spec_alloc() == old(self).spec_alloc(),
            final(other).spec_alloc() == old(other).spec_alloc(),
    {
        let val_self = self.inner.take_value();
        let val_other = other.inner.take_value();
        self.inner.set_value(val_other);
        other.inner.set_value(val_self);
    }

    /// Set the length to `new_len`: surplus nodes are dropped, missing
    /// ones are filled with clones of `value`. A request past `isize::MAX`
    /// is a caller contract violation, answered by an abort.
    pub fn resize(&mut self, new_len: usize, value: T) where T: Clone
        requires
            new_len <= isize::MAX,
        ensures
            new_len <= old(self)@.len() ==> final(self)@ == old(self)@.subrange(0, new_len as int),
            new_len > old(self)@.len() ==> {
                &&& final(self)@.len() == new_len
                &&& final(self)@.subrange(0, old(self)@.len() as int) == old(self)@
                &&& forall|i|
                    #![all_triggers]
                    old(self)@.len() <= i < new_len ==> cloned::<T>(value, final(self)@[i])
            },
            alloc_events(
                old(self).spec_alloc(),
                final(self).spec_alloc(),
                if new_len > old(self)@.len() {
                    (new_len - old(self)@.len()) as nat
                } else {
                    0nat
                },
                if new_len < old(self)@.len() {
                    (old(self)@.len() - new_len) as nat
                } else {
                    0nat
                },
            ),
    {
        let mut val = self.inner.take_value();
        let len = val.elems.len();
        if new_len > len {
            self.inner.record_allocs(new_len - len);
        } else if new_len < len {
            self.inner.record_frees(len - new_len);
        }
        val.elems.resize(new_len, value);
        self.inner.set_value(val);
    }

    /// Set the length to `new_len`: surplus nodes are dropped, missing
    /// ones are filled with values produced by calling `f` once per new
    /// node, in order. A request past `isize::MAX` is a caller contract
    /// violation, answered by an abort.
    pub fn resize_with<F: Fn() -> T>(&mut self, new_len: usize, f: F) where T: Clone
        requires
            new_len <= isize::MAX,
            call_requires(f, ()),
        ensures
            new_len <= old(self)@.len() ==> final(self)@ == old(self)@.subrange(0, new_len as int),
            new_len > old(self)@.len() ==> {
                &&& final(self)@.len() == new_len
                &&& final(self)@.subrange(0, old(self)@.len() as int) == old(self)@
                &&& forall|i|
                    #![all_triggers]
                    old(self)@.len() <= i < new_len ==> call_ensures(f, (), final(self)@[i])
            },
    {
        let len = self.len();
        if new_len > len {
            let additional = new_len - len;
            let mut i: usize = 0;
            while i < additional
                invariant
                    i <= additional,
                    len + additional == new_len <= isize::MAX,
                    call_requires(f, ()),
                    len == old(self)@.len(),
                    self@.len() == len + i,
                    self@.subrange(0, len as int) == old(self)@,
                    forall|j| #![all_triggers] len <= j < len + i ==> call_ensures(f, (), self@[j]),
                decreases additional - i,
            {
                let value = f();
                let ghost pre = self@;
                self.push_back(value);
                proof {
                    assert(self@.subrange(0, len as int) =~= pre.subrange(0, len as int));
                }
                i = i + 1;
            }
        } else if new_len < len {
            self.resize(new_len, f());
        } else {
            proof {
                assert(self@ =~= old(self)@.subrange(0, new_len as int));
            }
        }
    }

    /// Destroy the list: every data node is unthreaded and dropped, then
    /// the sentinel is given back through a proxy built from the
    /// allocator, which is returned.
    pub fn destroy(self) -> (a: A)
        ensures
            alloc_events(self.spec_alloc(), a, 0, (self@.len() + 1) as nat),
    {
        let CxxListLayout { inner, _marker } = self;
        let (mut alloc, val) = inner.into_parts();
        let n = val.elems.len();
        alloc.record_frees(n);
        alloc.record_frees(1);
        alloc
    }

    /// Move the contents of another list, possibly bound to a different
    /// allocator type, into a fresh list owning the given allocator: each
    /// element is moved into a node of the new list, and the old nodes and
    /// sentinel are given back.
    pub fn from_list_in<A2, L2>(list: CxxListLayout<T, A2, L2>, alloc: A) -> (r: Self) where
        A2: CxxProxy,
        L2: WithCxxProxy<Alloc = A2, Value = ListVal<T>>,

        ensures
            r@ == list@,
            alloc_events(alloc, r.spec_alloc(), (list@.len() + 1) as nat, 0),
    {
        let CxxListLayout { inner: old_inner, _marker } = list;
        let (mut old_alloc, val) = old_inner.into_parts();
        let n = val.elems.len();
        old_alloc.record_frees(n);
        old_alloc.record_frees(1);
        let mut inner = L::new_in(alloc);
        inner.record_allocs(n);
        inner.record_allocs(1);
        inner.set_value(val);
        CxxListLayout { inner, _marker: core::marker::PhantomData }
    }

    /// Move the contents into a list bound to another allocator type.
    pub fn into_list_in<A2, L2>(self, alloc: A2) -> (r: CxxListLayout<T, A2, L2>) where
        A2: CxxProxy,
        L2: WithCxxProxy<Alloc = A2, Value = ListVal<T>>,

        ensures
            r@ == self@,
            alloc_events(alloc, r.spec_alloc(), (self@.len() + 1) as nat, 0),
    {
        CxxListLayout::from_list_in(self, alloc)
    }

    /// Detach the allocator and the node chain, for the consuming
    /// iterator.
    pub(crate) fn into_parts_for_iter(self) -> (r: (A, ListVal<T>))
        ensures
            r.0 == self.spec_alloc(),
            r.1@ == self@,
    {
        let CxxListLayout { inner, _marker } = self;
        inner.into_parts()
    }
}

impl<T, A, L> Default for CxxListLayout<T, A, L> where
    A: CxxProxy + Default,
    L: WithCxxProxy<Alloc = A, Value = ListVal<T>>,
 {
    /// An empty list over a default allocator, owning its sentinel node.
    fn default() -> (r: Self)
        ensures
            r@ =~= Seq::<T>::empty(),
    {
        Self::new_in(A::default())
    }
}

impl<T, A1, A2, L1, L2> PartialEq<CxxListLayout<T, A2, L2>> for CxxListLayout<T, A1, L1> where
    T: PartialEq + vstd::std_specs::cmp::PartialEqSpec,
    A1: CxxProxy,
    A2: CxxProxy,
    L1: WithCxxProxy<Alloc = A1, Value = ListVal<T>>,
    L2: WithCxxProxy<Alloc = A2, Value = ListVal<T>>,
 {
    /// Element-wise equality, front to back, across allocator types.
    fn eq(&self, other: &CxxListLayout<T, A2, L2>) -> bool {
        self.inner.value_as_ref().elems.eq(&other.inner.value_as_ref().elems)
    }
}

impl<T, A1, A2, L1, L2> vstd::std_specs::cmp::PartialEqSpecImpl<CxxListLayout<T, A2, L2>> for CxxListLayout<T, A1, L1> where
    T: PartialEq + vstd::std_specs::cmp::PartialEqSpec,
    A1: CxxProxy,
    A2: CxxProxy,
    L1: WithCxxProxy<Alloc = A1, Value = ListVal<T>>,
    L2: WithCxxProxy<Alloc = A2, Value = ListVal<T>>,
 {
    open spec fn obeys_eq_spec() -> bool {
        T::obeys_eq_spec()
    }

    open spec fn eq_spec(&self, other: &CxxListLayout<T, A2, L2>) -> bool {
        &&& self@.len() == other@.len()
        &&& forall|i: int| #![auto] 0 <= i < self@.len() ==> self@[i].eq_spec(&other@[i])
    }
}

impl<T, A, L> Clone for CxxListLayout<T, A, L> where
    T: Clone,
    A: CxxProxy + Clone,
    L: WithCxxProxy<Alloc = A, Value = ListVal<T>>,
 {
    /// Clone the list node by node into an independently owned chain,
    /// through a clone of the allocator.
    fn clone(&self) -> (r: Self)
        ensures
            r@.len() == self@.len(),
            forall|i| #![all_triggers] 0 <= i < self@.len() ==> cloned::<T>(self@[i], r@[i]),
    {
        let slice = self.as_slice();
        let n = slice.len();
        let mut inner = L::new_in(self.inner.alloc_as_ref().clone());
        inner.record_allocs(n);
        inner.record_allocs(1);
        let mut elems: Vec<T> = Vec::new();
        let mut i: usize = 0;
        while i < n
            invariant
                i <= n,
                n == slice@.len(),
                elems@.len() == i,
                forall|j| #![all_triggers] 0 <= j < i ==> cloned::<T>(slice@[j], elems@[j]),
            decreases n - i,
        {
            elems.push(slice[i].clone());
            i = i + 1;
        }
        inner.set_value(ListVal { elems });
        CxxListLayout { inner, _marker: core::marker::PhantomData }
    }
}

} // verus!
