//! Consuming iterator for the dynamic array.
//!
//! It detaches the allocator and the value record from the container, so
//! that elements can be read out of the buffer exactly once each, from
//! either end. Whatever is not consumed is still owned by the iterator,
//! and destroying the iterator gives the buffer back through the detached
//! allocator.

use crate::layout::WithCxxProxy;
use crate::proxy::{alloc_events, CxxProxy, SysAlloc};
use crate::vec::{CxxVecLayout, VecVal};
use vstd::prelude::*;

verus! {

/// A consuming iterator over a dynamic array: the not-yet-consumed
/// elements, the buffer they sit in, and the detached allocator.
pub struct IntoIter<T, A = SysAlloc> where A: CxxProxy {
    alloc: A,
    elems: Vec<T>,
    cap: usize,
}

impl<T, A> View for IntoIter<T, A> where A: CxxProxy {
    type V = Seq<T>;

    closed spec fn view(&self) -> Seq<T> {
        self.elems@
    }
}

impl<T, A> IntoIter<T, A> where A: CxxProxy {
    /// The capacity of the detached buffer, in elements.
    pub closed spec fn spec_cap(&self) -> usize {
        self.cap
    }

    /// The detached allocator.
    pub closed spec fn spec_alloc(&self) -> A {
        self.alloc
    }

    /// The allocator the buffer will be given back through.
    pub fn allocator(&self) -> (r: &A)
        ensures
            *r == self.spec_alloc(),
    {
        &self.alloc
    }

    /// The not-yet-consumed elements as a slice.
    pub fn as_slice(&self) -> (r: &[T])
        ensures
            r@ == self@,
    {
        self.elems.as_slice()
    }

    /// How many elements remain.
    pub fn len(&self) -> (r: usize)
        ensures
            r == self@.len(),
    {
        self.elems.len()
    }

    /// Read the next element out of the front of the buffer; each element
    /// is read exactly once.
    pub fn next(&mut self) -> (r: Option<T>)
        ensures
            old(self)@.len() == 0 ==> r is None && final(self)@ == old(self)@,
            old(self)@.len() > 0 ==> {
                &&& r == Some(old(self)@.first())
                &&& final(self)@ == old(self)@.drop_first()
            },
            final(self).spec_cap() == old(self).spec_cap(),
            final(self).spec_alloc() == old(self).spec_alloc(),
    {
        if self.elems.len() == 0 {
            None
        } else {
            let r = self.elems.remove(0);
            Some(r)
        }
    }

    /// Read the next element out of the back of the buffer.
    pub fn next_back(&mut self) -> (r: Option<T>)
        ensures
            old(self)@.len() == 0 ==> r is None && final(self)@ == old(self)@,
            old(self)@.len() > 0 ==> {
                &&& r == Some(old(self)@.last())
                &&& final(self)@ == old(self)@.drop_last()
            },
            final(self).spec_cap() == old(self).spec_cap(),
            final(self).spec_alloc() == old(self).spec_alloc(),
    {
        self.elems.pop()
    }

    /// Destroy the iterator: the elements not consumed are dropped, each
    /// exactly once, and the buffer is given back through the detached
    /// allocator, which is returned.
    pub fn destroy(self) -> (a: A)
        ensures
            alloc_events(
                self.spec_alloc(),
                a,
                0,
                if self.spec_cap() > 0 {
                    1nat
                } else {
                    0nat
                },
            ),
    {
        let IntoIter { mut alloc, elems, cap } = self;
        if cap > 0 {
            alloc.record_frees(1);
        }
        alloc
    }
}

impl<T, A, L> CxxVecLayout<T, A, L> where
    A: CxxProxy,
    L: WithCxxProxy<Alloc = A, Value = VecVal<T>>,
 {
    /// Detach the allocator and the buffer into a consuming iterator over
    /// the elements.
    pub fn into_iter(self) -> (r: IntoIter<T, A>)
        ensures
            r@ == self@,
            r.spec_cap() == self.spec_capacity(),
            r.spec_alloc() == self.spec_alloc(),
    {
        let (alloc, val) = self.into_parts_for_iter();
        let VecVal { elems, cap } = val;
        IntoIter { alloc, elems, cap }
    }
}

} // verus!
