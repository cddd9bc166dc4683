//! Iterators for the doubly linked list.
//!
//! The consuming iterator detaches the allocator and the still-linked node
//! chain; each element is read out of its node exactly once, walking the
//! circular chain from the sentinel's successor until the sentinel comes
//! around again. Whatever is not consumed is dropped, and the nodes and
//! sentinel given back, when the iterator is destroyed.

use crate::list::{CxxListLayout, ListVal};
use crate::layout::WithCxxProxy;
use crate::proxy::{alloc_events, CxxProxy, SysAlloc};
use vstd::prelude::*;

verus! {

/// A consuming iterator over a list: the not-yet-consumed elements on
/// their node chain, and the detached allocator.
pub struct IntoIter<T, A = SysAlloc> where A: CxxProxy {
    alloc: A,
    elems: Vec<T>,
    nodes: usize,
}

impl<T, A> View for IntoIter<T, A> where A: CxxProxy {
    type V = Seq<T>;

    closed spec fn view(&self) -> Seq<T> {
        self.elems@
    }
}

impl<T, A> IntoIter<T, A> where A: CxxProxy {
    /// The number of nodes still threaded on the chain.
    pub closed spec fn spec_nodes(&self) -> usize {
        self.nodes
    }

    /// The detached allocator.
    pub closed spec fn spec_alloc(&self) -> A {
        self.alloc
    }

    /// The allocator the nodes will be given back through.
    pub fn allocator(&self) -> (r: &A)
        ensures
            *r == self.spec_alloc(),
    {
        &self.alloc
    }

    /// How many elements remain.
    pub fn len(&self) -> (r: usize)
        ensures
            r == self@.len(),
    {
        self.elems.len()
    }

    /// Read the next element out of its node; each element is read exactly
    /// once, and the emptied node stays on the chain until the iterator is
    /// destroyed.
    pub fn next(&mut self) -> (r: Option<T>)
        ensures
            old(self)@.len() == 0 ==> r is None && final(self)@ == old(self)@,
            old(self)@.len() > 0 ==> {
                &&& r == Some(old(self)@.first())
                &&& final(self)@ == old(self)@.drop_first()
            },
            final(self).spec_nodes() == old(self).spec_nodes(),
            final(self).spec_alloc() == old(self).spec_alloc(),
    {
        if self.elems.len() == 0 {
            None
        } else {
            let r = self.elems.remove(0);
            Some(r)
        }
    }

    /// Destroy the iterator: the elements not consumed are dropped, each
    /// exactly once, and every node and the sentinel are given back
    /// through the detached allocator, which is returned.
    pub fn destroy(self) -> (a: A)
        ensures
            alloc_events(self.spec_alloc(), a, 0, (self.spec_nodes() + 1) as nat),
    {
        let IntoIter { mut alloc, elems, nodes } = self;
        alloc.record_frees(nodes);
        alloc.record_frees(1);
        alloc
    }
}

impl<T, A, L> CxxListLayout<T, A, L> where
    A: CxxProxy,
    L: WithCxxProxy<Alloc = A, Value = ListVal<T>>,
 {
    /// Detach the allocator and the node chain into a consuming iterator
    /// over the elements.
    pub fn into_iter(self) -> (r: IntoIter<T, A>)
        ensures
            r@ == self@,
            r.spec_nodes() == self@.len(),
            r.spec_alloc() == self.spec_alloc(),
    {
        let (alloc, val) = self.into_parts_for_iter();
        let elems = val.into_elems();
        let nodes = elems.len();
        IntoIter { alloc, elems, nodes }
    }

    /// A borrowing iterator over the elements, walking the chain from the
    /// sentinel's successor until the sentinel comes around again.
    pub fn iter(&self) -> (r: Iter<'_, T>)
        ensures
            r.spec_remaining() == self@,
    {
        Iter { s: self.as_slice() }
    }
}

/// A borrowing iterator over a list's elements.
pub struct Iter<'a, T> {
    s: &'a [T],
}

impl<'a, T> Iter<'a, T> {
    /// The elements not yet walked.
    pub closed spec fn spec_remaining(&self) -> Seq<T> {
        self.s@
    }

    /// Step to the next element, if the sentinel has not come around.
    pub fn next(&mut self) -> (r: Option<&'a T>)
        ensures
            old(self).spec_remaining().len() == 0 ==> r is None && final(self).spec_remaining()
                == old(self).spec_remaining(),
            old(self).spec_remaining().len() > 0 ==> {
                &&& r is Some
                &&& *r.unwrap() == old(self).spec_remaining().first()
                &&& final(self).spec_remaining() == old(self).spec_remaining().drop_first()
            },
    {
        if self.s.len() == 0 {
            None
        } else {
            let (first, rest) = self.s.split_at(1);
            self.s = rest;
            proof {
                assert(self.spec_remaining() =~= old(self).spec_remaining().drop_first());
            }
            Some(&first[0])
        }
    }
}

} // verus!
