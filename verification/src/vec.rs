//! The dynamic-array facade: a contiguous-buffer container whose
//! observable behaviour matches the foreign vector implementation.
//!
//! The foreign value record is a `{first, last, end}` pointer triple; its
//! model here keeps the elements as a sequence together with the capacity
//! in elements. Capacity evolves exactly as the native code computes it:
//! geometric doubling clamped to the per-type element limit, reallocation
//! to the exact count on `reserve`, the length itself on `shrink_to_fit`.

use crate::layout::{Layout, ValueRecord, WithCxxProxy};
use crate::proxy::{alloc_events, CxxProxy, SysAlloc};
use crate::semantics::{max_elems, spec_max_elems};
use vstd::prelude::*;

pub mod into_iter;
pub mod msvc2012;

verus! {

/// Model of the foreign vector value record: the elements it owns and the
/// capacity, in elements, of the buffer behind them.
pub struct VecVal<T> {
    elems: Vec<T>,
    cap: usize,
}

impl<T> VecVal<T> {
    #[verifier::type_invariant]
    spec fn inv(self) -> bool {
        self.elems@.len() <= self.cap <= spec_max_elems::<T>()
    }

    /// The capacity of the record's buffer, in elements.
    pub closed spec fn spec_cap(&self) -> usize {
        self.cap
    }
}

impl<T> View for VecVal<T> {
    type V = Seq<T>;

    closed spec fn view(&self) -> Seq<T> {
        self.elems@
    }
}

impl<T> ValueRecord for VecVal<T> {
    /// The empty representation: no elements and a null buffer.
    open spec fn spec_is_empty(&self) -> bool {
        self@ =~= Seq::<T>::empty() && self.spec_cap() == 0
    }

    fn empty() -> Self {
        VecVal { elems: Vec::new(), cap: 0 }
    }
}

/// The capacity, in elements, the foreign side picks when a buffer of
/// `cap` elements must grow to hold `needed`: geometric doubling, clamped
/// to the per-type limit `max`, or `needed` itself when doubling is not
/// enough.
pub open spec fn spec_grown_capacity(cap: nat, needed: nat, max: nat) -> nat {
    if 2 * cap > max {
        max
    } else if 2 * cap < needed {
        needed
    } else {
        2 * cap
    }
}

/// The capacity after an operation that needs room for `needed` elements:
/// unchanged if the buffer already suffices, grown otherwise.
pub open spec fn spec_cap_for(cap: nat, needed: nat, max: nat) -> nat {
    if needed <= cap {
        cap
    } else {
        spec_grown_capacity(cap, needed, max)
    }
}

/// Compute the grown capacity as the foreign side does.
fn grown_capacity<T>(cap: usize, needed: usize) -> (r: usize)
    requires
        cap <= spec_max_elems::<T>(),
        needed <= spec_max_elems::<T>(),
    ensures
        r == spec_grown_capacity(cap as nat, needed as nat, spec_max_elems::<T>()),
        needed <= r <= spec_max_elems::<T>(),
        cap <= r,
{
    let max = max_elems::<T>();
    if cap > max - cap {
        max
    } else {
        let geometric = cap + cap;
        if geometric < needed {
            needed
        } else {
            geometric
        }
    }
}

/// The dynamic-array facade over a layout/ownership wrapper `L` holding a
/// vector value record and an allocator `A`.
#[verifier::reject_recursive_types(T)]
#[verifier::reject_recursive_types(A)]
pub struct CxxVecLayout<T, A, L> where
    A: CxxProxy,
    L: WithCxxProxy<Alloc = A, Value = VecVal<T>>,
 {
    inner: L,
    _marker: core::marker::PhantomData<(T, A)>,
}

/// The dynamic array in the modern ABI layout, allocator first.
pub type CxxVec<T, A = SysAlloc> = CxxVecLayout<T, A, Layout<A, VecVal<T>>>;

impl<T, A, L> View for CxxVecLayout<T, A, L> where
    A: CxxProxy,
    L: WithCxxProxy<Alloc = A, Value = VecVal<T>>,
 {
    type V = Seq<T>;

    closed spec fn view(&self) -> Seq<T> {
        self.inner.spec_value()@
    }
}

impl<T> CxxVec<T, SysAlloc> {
    /// An empty dynamic array using the system allocator.
    pub fn new() -> (r: Self)
        ensures
            r@ =~= Seq::<T>::empty(),
            r.spec_capacity() == 0,
    {
        Self::new_in(SysAlloc)
    }
}

impl<T, A, L> CxxVecLayout<T, A, L> where
    A: CxxProxy,
    L: WithCxxProxy<Alloc = A, Value = VecVal<T>>,
 {
    /// The capacity of the owned buffer, in elements.
    pub closed spec fn spec_capacity(&self) -> usize {
        self.inner.spec_value().spec_cap()
    }

    /// The allocator held by the container.
    pub closed spec fn spec_alloc(&self) -> A {
        self.inner.spec_alloc()
    }

    /// An empty dynamic array owning the given allocator. The empty value
    /// record is a defined bit pattern, so no foreign call is needed.
    pub fn new_in(alloc: A) -> (r: Self)
        ensures
            r@ =~= Seq::<T>::empty(),
            r.spec_capacity() == 0,
            r.spec_alloc() == alloc,
    {
        CxxVecLayout { inner: L::new_in(alloc), _marker: core::marker::PhantomData }
    }

    /// The allocator this container allocates through.
    pub fn allocator(&self) -> (r: &A)
        ensures
            *r == self.spec_alloc(),
    {
        self.inner.alloc_as_ref()
    }

    /// The number of elements held.
    pub fn len(&self) -> (r: usize)
        ensures
            r == self@.len(),
    {
        self.inner.value_as_ref().elems.len()
    }

    /// Whether the container holds no elements.
    pub fn is_empty(&self) -> (r: bool)
        ensures
            r == (self@.len() == 0),
    {
        self.len() == 0
    }

    /// The capacity of the owned buffer, in elements.
    pub fn capacity(&self) -> (r: usize)
        ensures
            r == self.spec_capacity(),
    {
        self.inner.value_as_ref().cap
    }

    /// The held elements as a slice.
    pub fn as_slice(&self) -> (r: &[T])
        ensures
            r@ == self@,
    {
        self.inner.value_as_ref().elems.as_slice()
    }

    /// The element at `index`; an index at or past the end is a caller
    /// contract violation, answered by an abort.
    pub fn index(&self, index: usize) -> (r: &T)
        requires
            index < self@.len(),
        ensures
            *r == self@[index as int],
    {
        &self.inner.value_as_ref().elems.as_slice()[index]
    }

    /// Append one element, moving it into the foreign buffer; grows the
    /// buffer geometrically when it is full. At the per-type element limit
    /// the foreign side refuses to take ownership and the value is dropped
    /// locally instead, exactly once.
    pub fn push(&mut self, value: T)
        ensures
            old(self)@.len() < spec_max_elems::<T>() ==> {
                &&& final(self)@ == old(self)@.push(value)
                &&& final(self).spec_capacity() == spec_cap_for(
                    old(self).spec_capacity() as nat,
                    old(self)@.len() + 1,
                    spec_max_elems::<T>(),
                )
            },
            old(self)@.len() >= spec_max_elems::<T>() ==> {
                &&& final(self)@ == old(self)@
                &&& final(self).spec_capacity() == old(self).spec_capacity()
            },
            alloc_events(
                old(self).spec_alloc(),
                final(self).spec_alloc(),
                vec_grow_allocs(old(self)@.len(), old(self).spec_capacity() as nat, spec_max_elems::<T>()),
                vec_grow_frees(old(self)@.len(), old(self).spec_capacity() as nat, spec_max_elems::<T>()),
            ),
    {
        let val = self.inner.take_value();
        proof {
            use_type_invariant(&val);
        }
        let VecVal { mut elems, cap } = val;
        let len = elems.len();
        let max = max_elems::<T>();
        if len >= max {
            self.inner.set_value(VecVal { elems, cap });
            return ;
        }
        let cap = if len == cap {
            let new_cap = grown_capacity::<T>(cap, len + 1);
            self.inner.record_allocs(1);
            if cap > 0 {
                self.inner.record_frees(1);
            }
            new_cap
        } else {
            cap
        };
        elems.push(value);
        self.inner.set_value(VecVal { elems, cap });
    }

    /// Remove and return the last element; on an empty container, no
    /// foreign call is made and nothing changes.
    pub fn pop(&mut self) -> (r: Option<T>)
        ensures
            old(self)@.len() == 0 ==> {
                &&& r is None
                &&& final(self)@ == old(self)@
            },
            old(self)@.len() > 0 ==> {
                &&& r == Some(old(self)@.last())
                &&& final(self)@ == old(self)@.drop_last()
            },
            final(self).spec_capacity() == old(self).spec_capacity(),
            final(self).spec_alloc() == old(self).spec_alloc(),
    {
        let val = self.inner.take_value();
        proof {
            use_type_invariant(&val);
        }
        let VecVal { mut elems, cap } = val;
        let r = elems.pop();
        self.inner.set_value(VecVal { elems, cap });
        r
    }

    /// Drop every element; the buffer is kept.
    pub fn clear(&mut self)
        ensures
            final(self)@ =~= Seq::<T>::empty(),
            final(self).spec_capacity() == old(self).spec_capacity(),
            final(self).spec_alloc() == old(self).spec_alloc(),
    {
        let val = self.inner.take_value();
        proof {
            use_type_invariant(&val);
        }
        let VecVal { mut elems, cap } = val;
        elems.clear();
        self.inner.set_value(VecVal { elems, cap });
    }
}

impl<T, A, L> CxxVecLayout<T, A, L> where
    A: CxxProxy,
    L: WithCxxProxy<Alloc = A, Value = VecVal<T>>,
 {
    /// Move one element into position `index`, shifting the rest up. An
    /// index past the end is a caller contract violation, answered by an
    /// abort rather than an error. At the per-type element limit the
    /// foreign side refuses to take ownership and the value is dropped
    /// locally instead.
    pub fn insert(&mut self, index: usize, value: T)
        requires
            index <= old(self)@.len(),
        ensures
            old(self)@.len() < spec_max_elems::<T>() ==> {
                &&& final(self)@ == old(self)@.insert(index as int, value)
                &&& final(self).spec_capacity() == spec_cap_for(
                    old(self).spec_capacity() as nat,
                    old(self)@.len() + 1,
                    spec_max_elems::<T>(),
                )
            },
            old(self)@.len() >= spec_max_elems::<T>() ==> {
                &&& final(self)@ == old(self)@
                &&& final(self).spec_capacity() == old(self).spec_capacity()
            },
            alloc_events(
                old(self).spec_alloc(),
                final(self).spec_alloc(),
                vec_grow_allocs(old(self)@.len(), old(self).spec_capacity() as nat, spec_max_elems::<T>()),
                vec_grow_frees(old(self)@.len(), old(self).spec_capacity() as nat, spec_max_elems::<T>()),
            ),
    {
        let val = self.inner.take_value();
        proof {
            use_type_invariant(&val);
        }
        let VecVal { mut elems, cap } = val;
        let len = elems.len();
        let max = max_elems::<T>();
        if len >= max {
            self.inner.set_value(VecVal { elems, cap });
            return ;
        }
        let cap = if len == cap {
            let new_cap = grown_capacity::<T>(cap, len + 1);
            self.inner.record_allocs(1);
            if cap > 0 {
                self.inner.record_frees(1);
            }
            new_cap
        } else {
            cap
        };
        elems.insert(index, value);
        self.inner.set_value(VecVal { elems, cap });
    }

    /// Remove and return the element at `index`, shifting the rest down.
    /// An index at or past the end is a caller contract violation,
    /// answered by an abort rather than an error.
    pub fn remove(&mut self, index: usize) -> (r: T)
        requires
            index < old(self)@.len(),
        ensures
            r == old(self)@[index as int],
            final(self)@ == old(self)@.remove(index as int),
            final(self).spec_capacity() == old(self).spec_capacity(),
            final(self).spec_alloc() == old(self).spec_alloc(),
    {
        let val = self.inner.take_value();
        proof {
            use_type_invariant(&val);
        }
        let VecVal { mut elems, cap } = val;
        let r = elems.remove(index);
        self.inner.set_value(VecVal { elems, cap });
        r
    }

    /// Drop every element past the first `new_len`; shorter requests than
    /// the current length leave the container unchanged. The buffer is
    /// kept.
    pub fn truncate(&mut self, new_len: usize)
        ensures
            new_len < old(self)@.len() ==> final(self)@ == old(self)@.subrange(0, new_len as int),
            new_len >= old(self)@.len() ==> final(self)@ == old(self)@,
            final(self).spec_capacity() == old(self).spec_capacity(),
            final(self).spec_alloc() == old(self).spec_alloc(),
    {
        let val = self.inner.take_value();
        proof {
            use_type_invariant(&val);
        }
        let VecVal { mut elems, cap } = val;
        if new_len < elems.len() {
            elems.truncate(new_len);
        }
        self.inner.set_value(VecVal { elems, cap });
    }

    /// Make room for `additional` more elements, reallocating to exactly
    /// the requested capacity; `reserve` never grows geometrically and
    /// never shrinks. A request past `isize::MAX` is a caller contract
    /// violation, answered by an abort; one at or past the per-type
    /// element limit is refused by the foreign side and changes nothing.
    pub fn reserve(&mut self, additional: usize)
        requires
            old(self).spec_capacity() + additional <= isize::MAX,
        ensures
            final(self)@ == old(self)@,
            ({
                let req = old(self).spec_capacity() + additional;
                let max = spec_max_elems::<T>();
                &&& (req >= max || req <= old(self).spec_capacity()) ==> final(self).spec_capacity()
                    == old(self).spec_capacity()
                &&& (req < max && req > old(self).spec_capacity()) ==> final(self).spec_capacity()
                    == req
                &&& alloc_events(
                    old(self).spec_alloc(),
                    final(self).spec_alloc(),
                    if req < max && req > old(self).spec_capacity() {
                        1nat
                    } else {
                        0nat
                    },
                    if req < max && req > old(self).spec_capacity() && old(self).spec_capacity()
                        > 0 {
                        1nat
                    } else {
                        0nat
                    },
                )
            }),
    {
        let val = self.inner.take_value();
        proof {
            use_type_invariant(&val);
        }
        let VecVal { elems, cap } = val;
        let req = cap + additional;
        let max = max_elems::<T>();
        if req < max && req > cap {
            self.inner.record_allocs(1);
            if cap > 0 {
                self.inner.record_frees(1);
            }
            self.inner.set_value(VecVal { elems, cap: req });
        } else {
            self.inner.set_value(VecVal { elems, cap });
        }
    }

    /// Give back the buffer's unused tail: afterwards the capacity equals
    /// the length exactly, and an empty container owns no buffer at all.
    pub fn shrink_to_fit(&mut self)
        ensures
            final(self)@ == old(self)@,
            final(self).spec_capacity() == old(self)@.len(),
            alloc_events(
                old(self).spec_alloc(),
                final(self).spec_alloc(),
                if old(self).spec_capacity() > old(self)@.len() && old(self)@.len() > 0 {
                    1nat
                } else {
                    0nat
                },
                if old(self).spec_capacity() > old(self)@.len() {
                    1nat
                } else {
                    0nat
                },
            ),
    {
        let val = self.inner.take_value();
        proof {
            use_type_invariant(&val);
        }
        let VecVal { elems, cap } = val;
        let len = elems.len();
        if cap > len {
            if len > 0 {
                self.inner.record_allocs(1);
            }
            self.inner.record_frees(1);
        }
        self.inner.set_value(VecVal { elems, cap: len });
    }

    /// Destroy the container: every element is dropped and the buffer, if
    /// one is owned, is given back through a proxy built from the
    /// allocator, which is returned to the caller.
    pub fn destroy(self) -> (a: A)
        ensures
            alloc_events(
                self.spec_alloc(),
                a,
                0,
                if self.spec_capacity() > 0 {
                    1nat
                } else {
                    0nat
                },
            ),
    {
        let CxxVecLayout { inner, _marker } = self;
        let (mut alloc, val) = inner.into_parts();
        proof {
            use_type_invariant(&val);
        }
        let VecVal { elems, cap } = val;
        if cap > 0 {
            alloc.record_frees(1);
        }
        alloc
    }
}

impl<T, A, L> CxxVecLayout<T, A, L> where
    A: CxxProxy,
    L: WithCxxProxy<Alloc = A, Value = VecVal<T>>,
 {
    /// Set the length to `new_len`: surplus elements are dropped, missing
    /// ones are filled with clones of `value`. A request past `isize::MAX`
    /// is a caller contract violation, answered by an abort; a growing
    /// request at or past the per-type element limit is refused by the
    /// foreign side and changes nothing.
    pub fn resize(&mut self, new_len: usize, value: T) where T: Clone
        requires
            new_len <= isize::MAX,
        ensures
            new_len <= old(self)@.len() ==> {
                &&& final(self)@ == old(self)@.subrange(0, new_len as int)
                &&& final(self).spec_capacity() == old(self).spec_capacity()
            },
            (new_len > old(self)@.len() && new_len >= spec_max_elems::<T>()) ==> {
                &&& final(self)@ == old(self)@
                &&& final(self).spec_capacity() == old(self).spec_capacity()
            },
            (new_len > old(self)@.len() && new_len < spec_max_elems::<T>()) ==> {
                &&& final(self)@.len() == new_len
                &&& final(self)@.subrange(0, old(self)@.len() as int) == old(self)@
                &&& forall|i|
                    #![all_triggers]
                    old(self)@.len() <= i < new_len ==> cloned::<T>(value, final(self)@[i])
                &&& final(self).spec_capacity() == spec_cap_for(
                    old(self).spec_capacity() as nat,
                    new_len as nat,
                    spec_max_elems::<T>(),
                )
            },
            alloc_events(
                old(self).spec_alloc(),
                final(self).spec_alloc(),
                if new_len > old(self)@.len() && new_len < spec_max_elems::<T>() && new_len > old(
                    self,
                ).spec_capacity() {
                    1nat
                } else {
                    0nat
                },
                if new_len > old(self)@.len() && new_len < spec_max_elems::<T>() && new_len > old(
                    self,
                ).spec_capacity() && old(self).spec_capacity() > 0 {
                    1nat
                } else {
                    0nat
                },
            ),
    {
        let val = self.inner.take_value();
        proof {
            use_type_invariant(&val);
        }
        let VecVal { mut elems, cap } = val;
        let len = elems.len();
        let max = max_elems::<T>();
        if new_len > len && new_len >= max {
            self.inner.set_value(VecVal { elems, cap });
            return ;
        }
        let cap = if new_len > len && new_len > cap {
            let new_cap = grown_capacity::<T>(cap, new_len);
            self.inner.record_allocs(1);
            if cap > 0 {
                self.inner.record_frees(1);
            }
            new_cap
        } else {
            cap
        };
        elems.resize(new_len, value);
        self.inner.set_value(VecVal { elems, cap });
    }

    /// Move the contents of a host-native growable array in: ownership of
    /// the element storage itself transfers in one range move, with
    /// nothing copied element by element and nothing freed twice.
    pub fn from_rust_vec_in(vec: Vec<T>, alloc: A) -> (r: Self)
        requires
            vec@.len() <= spec_max_elems::<T>(),
        ensures
            r@ == vec@,
            r.spec_capacity() == vec@.len(),
            alloc_events(
                alloc,
                r.spec_alloc(),
                if vec@.len() > 0 {
                    1nat
                } else {
                    0nat
                },
                0,
            ),
    {
        let mut inner = L::new_in(alloc);
        if vec.len() > 0 {
            inner.record_allocs(1);
        }
        let cap = vec.len();
        inner.set_value(VecVal { elems: vec, cap });
        CxxVecLayout { inner, _marker: core::marker::PhantomData }
    }

    /// Move the contents out into a host-native growable array; the
    /// emptied container's buffer is given back before it is dropped.
    pub fn into_rust_vec(self) -> (r: Vec<T>)
        ensures
            r@ == self@,
    {
        let CxxVecLayout { inner, _marker } = self;
        let (mut alloc, val) = inner.into_parts();
        proof {
            use_type_invariant(&val);
        }
        let VecVal { elems, cap } = val;
        if cap > 0 {
            alloc.record_frees(1);
        }
        elems
    }

    /// Clone a slice's elements into a fresh container whose buffer holds
    /// exactly that many elements.
    pub fn from_slice_in(slice: &[T], alloc: A) -> (r: Self) where T: Clone
        requires
            slice@.len() <= spec_max_elems::<T>(),
        ensures
            r@.len() == slice@.len(),
            forall|i| #![all_triggers] 0 <= i < slice@.len() ==> cloned::<T>(slice@[i], r@[i]),
            r.spec_capacity() == slice@.len(),
            alloc_events(
                alloc,
                r.spec_alloc(),
                if slice@.len() > 0 {
                    1nat
                } else {
                    0nat
                },
                0,
            ),
    {
        let mut inner = L::new_in(alloc);
        let n = slice.len();
        if n > 0 {
            inner.record_allocs(1);
        }
        let mut elems: Vec<T> = Vec::new();
        let mut i: usize = 0;
        while i < n
            invariant
                i <= n,
                n == slice@.len() <= spec_max_elems::<T>(),
                elems@.len() == i,
                forall|j| #![all_triggers] 0 <= j < i ==> cloned::<T>(slice@[j], elems@[j]),
            decreases n - i,
        {
            elems.push(slice[i].clone());
            i = i + 1;
        }
        inner.set_value(VecVal { elems, cap: n });
        CxxVecLayout { inner, _marker: core::marker::PhantomData }
    }

    /// Move the contents of another container, possibly laid out for a
    /// different ABI revision or bound to a different allocator type, into
    /// a fresh container owning the given allocator.
    pub fn from_vec_in<A2, L2>(vec: CxxVecLayout<T, A2, L2>, alloc: A) -> (r: Self) where
        A2: CxxProxy,
        L2: WithCxxProxy<Alloc = A2, Value = VecVal<T>>,

        ensures
            r@ == vec@,
            r.spec_capacity() == vec@.len(),
            alloc_events(
                alloc,
                r.spec_alloc(),
                if vec@.len() > 0 {
                    1nat
                } else {
                    0nat
                },
                0,
            ),
    {
        let CxxVecLayout { inner: old_inner, _marker } = vec;
        let (mut old_alloc, val) = old_inner.into_parts();
        proof {
            use_type_invariant(&val);
        }
        let VecVal { elems, cap: old_cap } = val;
        if old_cap > 0 {
            old_alloc.record_frees(1);
        }
        let mut inner = L::new_in(alloc);
        if elems.len() > 0 {
            inner.record_allocs(1);
        }
        let cap = elems.len();
        inner.set_value(VecVal { elems, cap });
        CxxVecLayout { inner, _marker: core::marker::PhantomData }
    }

    /// Detach the allocator and the value record, for the consuming
    /// iterator.
    pub(crate) fn into_parts_for_iter(self) -> (r: (A, VecVal<T>))
        ensures
            r.0 == self.spec_alloc(),
            r.1@ == self@,
            r.1.spec_cap() == self.spec_capacity(),
    {
        let CxxVecLayout { inner, _marker } = self;
        inner.into_parts()
    }

    /// Move the contents into a container bound to another allocator or
    /// ABI layout.
    pub fn into_vec_in<A2, L2>(self, alloc: A2) -> (r: CxxVecLayout<T, A2, L2>) where
        A2: CxxProxy,
        L2: WithCxxProxy<Alloc = A2, Value = VecVal<T>>,

        ensures
            r@ == self@,
            r.spec_capacity() == self@.len(),
            alloc_events(
                alloc,
                r.spec_alloc(),
                if self@.len() > 0 {
                    1nat
                } else {
                    0nat
                },
                0,
            ),
    {
        CxxVecLayout::from_vec_in(self, alloc)
    }
}

impl<T, A, L> CxxVecLayout<T, A, L> where
    A: CxxProxy,
    L: WithCxxProxy<Alloc = A, Value = VecVal<T>>,
 {
    /// Set the length to `new_len`: surplus elements are dropped, missing
    /// ones are produced by calling `f` once per new element, in order,
    /// after a single reservation for all of them.
    pub fn resize_with<F: Fn() -> T>(&mut self, new_len: usize, f: F)
        requires
            new_len <= isize::MAX,
            new_len > old(self)@.len() ==> old(self).spec_capacity() + new_len - old(self)@.len()
                <= isize::MAX,
            call_requires(f, ()),
        ensures
            new_len <= old(self)@.len() ==> final(self)@ == old(self)@.subrange(0, new_len as int),
            (new_len > old(self)@.len() && new_len < spec_max_elems::<T>()) ==> {
                &&& final(self)@.len() == new_len
                &&& final(self)@.subrange(0, old(self)@.len() as int) == old(self)@
                &&& forall|i|
                    #![all_triggers]
                    old(self)@.len() <= i < new_len ==> call_ensures(f, (), final(self)@[i])
            },
    {
        let len = self.len();
        if new_len > len {
            let additional = new_len - len;
            self.reserve(additional);
            let mut i: usize = 0;
            while i < additional
                invariant
                    i <= additional,
                    len + additional == new_len <= isize::MAX,
                    call_requires(f, ()),
                    len == old(self)@.len(),
                    new_len < spec_max_elems::<T>() ==> {
                        &&& self@.len() == len + i
                        &&& self@.subrange(0, len as int) == old(self)@
                        &&& forall|j|
                            #![all_triggers]
                            len <= j < len + i ==> call_ensures(f, (), self@[j])
                    },
                decreases additional - i,
            {
                let value = f();
                let ghost pre = self@;
                self.push(value);
                proof {
                    if new_len < spec_max_elems::<T>() {
                        assert(self@.subrange(0, len as int) =~= pre.subrange(0, len as int));
                    }
                }
                i = i + 1;
            }
        } else {
            self.truncate(new_len);
        }
    }
}

impl<T, A, L> Default for CxxVecLayout<T, A, L> where
    A: CxxProxy + Default,
    L: WithCxxProxy<Alloc = A, Value = VecVal<T>>,
 {
    /// An empty dynamic array over a default allocator.
    fn default() -> (r: Self)
        ensures
            r@ =~= Seq::<T>::empty(),
            r.spec_capacity() == 0,
    {
        Self::new_in(A::default())
    }
}

impl<T, A, L> Clone for CxxVecLayout<T, A, L> where
    T: Clone,
    A: CxxProxy + Clone,
    L: WithCxxProxy<Alloc = A, Value = VecVal<T>>,
 {
    /// Clone the container element by element into an independently owned
    /// buffer of exactly the needed size, through a clone of the
    /// allocator.
    fn clone(&self) -> (r: Self)
        ensures
            r@.len() == self@.len(),
            forall|i| #![all_triggers] 0 <= i < self@.len() ==> cloned::<T>(self@[i], r@[i]),
            r.spec_capacity() == self@.len(),
    {
        let val_ref = self.inner.value_as_ref();
        proof {
            use_type_invariant(val_ref);
        }
        let alloc = self.inner.alloc_as_ref().clone();
        Self::from_slice_in(self.as_slice(), alloc)
    }
}

impl<T, A1, A2, L1, L2> PartialEq<CxxVecLayout<T, A2, L2>> for CxxVecLayout<T, A1, L1> where
    T: PartialEq + vstd::std_specs::cmp::PartialEqSpec,
    A1: CxxProxy,
    A2: CxxProxy,
    L1: WithCxxProxy<Alloc = A1, Value = VecVal<T>>,
    L2: WithCxxProxy<Alloc = A2, Value = VecVal<T>>,
 {
    /// Element-wise equality, across allocator types and ABI layouts.
    fn eq(&self, other: &CxxVecLayout<T, A2, L2>) -> bool {
        self.inner.value_as_ref().elems.eq(&other.inner.value_as_ref().elems)
    }
}

impl<T, A1, A2, L1, L2> vstd::std_specs::cmp::PartialEqSpecImpl<CxxVecLayout<T, A2, L2>> for CxxVecLayout<T, A1, L1> where
    T: PartialEq + vstd::std_specs::cmp::PartialEqSpec,
    A1: CxxProxy,
    A2: CxxProxy,
    L1: WithCxxProxy<Alloc = A1, Value = VecVal<T>>,
    L2: WithCxxProxy<Alloc = A2, Value = VecVal<T>>,
 {
    open spec fn obeys_eq_spec() -> bool {
        T::obeys_eq_spec()
    }

    open spec fn eq_spec(&self, other: &CxxVecLayout<T, A2, L2>) -> bool {
        &&& self@.len() == other@.len()
        &&& forall|i: int| #![auto] 0 <= i < self@.len() ==> self@[i].eq_spec(&other@[i])
    }
}

/// Allocations a growth step performs: one fresh buffer when the elements
/// no longer fit, nothing otherwise.
pub open spec fn vec_grow_allocs(len: nat, cap: nat, max: nat) -> nat {
    if len < max && len + 1 > cap {
        1
    } else {
        0
    }
}

/// Deallocations a growth step performs: the old buffer is returned when a
/// fresh one replaced it.
pub open spec fn vec_grow_frees(len: nat, cap: nat, max: nat) -> nat {
    if len < max && len + 1 > cap && cap > 0 {
        1
    } else {
        0
    }
}

} // verus!
