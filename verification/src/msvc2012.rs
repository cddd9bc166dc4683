//! The historical field ordering of the layout/ownership wrapper: the
//! value record precedes the allocator. Functionally indistinguishable
//! from the modern ordering; only the physical field order differs.

use crate::layout::{ValueRecord, WithCxxProxy};
use crate::proxy::CxxProxy;
use vstd::prelude::*;

verus! {

/// The historical field ordering: the value record comes first.
pub struct Layout<A, V> {
    val: V,
    alloc: A,
}

impl<A: CxxProxy, V: ValueRecord> WithCxxProxy for Layout<A, V> {
    type Value = V;

    type Alloc = A;

    closed spec fn spec_value(&self) -> V {
        self.val
    }

    closed spec fn spec_alloc(&self) -> A {
        self.alloc
    }

    fn new_in(alloc: A) -> Self {
        Layout { val: V::empty(), alloc }
    }

    fn value_as_ref(&self) -> &V {
        &self.val
    }

    fn alloc_as_ref(&self) -> &A {
        &self.alloc
    }

    fn take_value(&mut self) -> V {
        let mut v = V::empty();
        core::mem::swap(&mut self.val, &mut v);
        v
    }

    fn set_value(&mut self, value: V) {
        self.val = value;
    }

    fn record_allocs(&mut self, n: usize) {
        self.alloc.record_allocs(n);
    }

    fn record_frees(&mut self, n: usize) {
        self.alloc.record_frees(n);
    }

    fn into_parts(self) -> (A, V) {
        let Layout { val, alloc } = self;
        (alloc, val)
    }
}

} // verus!
