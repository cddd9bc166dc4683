//! The layout/ownership wrapper: one allocator and one foreign value
//! record, co-located in a single structure.
//!
//! Different revisions of the foreign ABI place the allocator before or
//! after the value record. Each physical ordering is one implementation of
//! [`WithCxxProxy`]; the trait's contracts pin the observable behaviour of
//! every implementation to the pair it holds, so the two orderings are
//! indistinguishable to a caller and the choice is purely a compile-time,
//! per-target decision.

use crate::proxy::CxxProxy;
use vstd::prelude::*;

verus! {

/// A foreign value record with a designated empty representation, the one
/// a container shows before its first foreign call.
pub trait ValueRecord: Sized {
    /// Whether this is the empty representation: no contents, no owned
    /// buffer.
    spec fn spec_is_empty(&self) -> bool;

    /// Build the empty representation.
    fn empty() -> (r: Self)
        ensures
            r.spec_is_empty(),
    ;
}

/// Pairs an allocator with a foreign value record and mediates every
/// access the container facades make: reading the record, replacing it
/// around a foreign call, and recording the allocation traffic that the
/// call pushed through the allocator proxy.
pub trait WithCxxProxy: Sized {
    type Value: ValueRecord;

    type Alloc: CxxProxy;

    /// The value record held.
    spec fn spec_value(&self) -> Self::Value;

    /// The allocator held.
    spec fn spec_alloc(&self) -> Self::Alloc;

    /// A wrapper around the given allocator and an empty value record.
    fn new_in(alloc: Self::Alloc) -> (r: Self)
        ensures
            r.spec_alloc() == alloc,
            r.spec_value().spec_is_empty(),
    ;

    /// Expose the value record for read-only foreign calls.
    fn value_as_ref(&self) -> (r: &Self::Value)
        ensures
            *r == self.spec_value(),
    ;

    /// Expose the allocator for read-only foreign calls.
    fn alloc_as_ref(&self) -> (r: &Self::Alloc)
        ensures
            *r == self.spec_alloc(),
    ;

    /// Move the value record out for the duration of one foreign call,
    /// leaving the empty representation behind.
    fn take_value(&mut self) -> (v: Self::Value)
        ensures
            v == old(self).spec_value(),
            final(self).spec_value().spec_is_empty(),
            final(self).spec_alloc() == old(self).spec_alloc(),
    ;

    /// Store the value record a foreign call produced.
    fn set_value(&mut self, value: Self::Value)
        ensures
            final(self).spec_value() == value,
            final(self).spec_alloc() == old(self).spec_alloc(),
    ;

    /// Record `n` blocks the foreign call obtained through the proxy.
    fn record_allocs(&mut self, n: usize)
        ensures
            final(self).spec_value() == old(self).spec_value(),
            <Self::Alloc as CxxProxy>::obeys_counting() ==> {
                &&& final(self).spec_alloc().allocs() == old(self).spec_alloc().allocs() + n
                &&& final(self).spec_alloc().frees() == old(self).spec_alloc().frees()
            },
    ;

    /// Record `n` blocks the foreign call returned through the proxy.
    fn record_frees(&mut self, n: usize)
        ensures
            final(self).spec_value() == old(self).spec_value(),
            <Self::Alloc as CxxProxy>::obeys_counting() ==> {
                &&& final(self).spec_alloc().allocs() == old(self).spec_alloc().allocs()
                &&& final(self).spec_alloc().frees() == old(self).spec_alloc().frees() + n
            },
    ;

    /// Split the wrapper into its two fields.
    fn into_parts(self) -> (r: (Self::Alloc, Self::Value))
        ensures
            r.0 == self.spec_alloc(),
            r.1 == self.spec_value(),
    ;
}

/// The modern field ordering: the allocator precedes the value record.
pub struct Layout<A, V> {
    alloc: A,
    val: V,
}

impl<A: CxxProxy, V: ValueRecord> WithCxxProxy for Layout<A, V> {
    type Value = V;

    type Alloc = A;

    closed spec fn spec_value(&self) -> V {
        self.val
    }

    closed spec fn spec_alloc(&self) -> A {
        self.alloc
    }

    fn new_in(alloc: A) -> Self {
        Layout { alloc, val: V::empty() }
    }

    fn value_as_ref(&self) -> &V {
        &self.val
    }

    fn alloc_as_ref(&self) -> &A {
        &self.alloc
    }

    fn take_value(&mut self) -> V {
        let mut v = V::empty();
        core::mem::swap(&mut self.val, &mut v);
        v
    }

    fn set_value(&mut self, value: V) {
        self.val = value;
    }

    fn record_allocs(&mut self, n: usize) {
        self.alloc.record_allocs(n);
    }

    fn record_frees(&mut self, n: usize) {
        self.alloc.record_frees(n);
    }

    fn into_parts(self) -> (A, V) {
        let Layout { alloc, val } = self;
        (alloc, val)
    }
}

} // verus!
