//! Allocation interface offered to the foreign containers.
//!
//! Every container owns one allocator value. For the duration of a single
//! foreign call the allocator is presented to the native side as a proxy
//! record; each block the native side obtains or returns through that proxy
//! is recorded here. The account makes the containers' allocation discipline
//! checkable: every block allocated on behalf of a container is freed again
//! by the time the container is destroyed.

use vstd::prelude::*;

verus! {

/// A host allocator that can stand behind a call-scoped allocator proxy.
///
/// `allocs` and `frees` count the blocks served through the proxy. An
/// allocator that keeps this account exactly reports `obeys_counting`;
/// for the others the two counts carry no meaning and stay at zero.
pub trait CxxProxy: Sized {
    /// Whether this allocator keeps an exact account of served blocks.
    spec fn obeys_counting() -> bool;

    /// Number of blocks handed out through the proxy so far.
    spec fn allocs(&self) -> nat;

    /// Number of blocks given back through the proxy so far.
    spec fn frees(&self) -> nat;

    /// Serve `n` allocations made by the foreign side through the proxy.
    fn record_allocs(&mut self, n: usize)
        ensures
            Self::obeys_counting() ==> {
                &&& final(self).allocs() == old(self).allocs() + n
                &&& final(self).frees() == old(self).frees()
            },
    ;

    /// Take back `n` blocks returned by the foreign side through the proxy.
    fn record_frees(&mut self, n: usize)
        ensures
            Self::obeys_counting() ==> {
                &&& final(self).allocs() == old(self).allocs()
                &&& final(self).frees() == old(self).frees() + n
            },
    ;
}

/// The allocation and deallocation traffic, if counted, that a container
/// operation adds on top of an allocator's earlier history.
pub open spec fn alloc_events<A: CxxProxy>(pre: A, post: A, allocs: nat, frees: nat) -> bool {
    A::obeys_counting() ==> {
        &&& post.allocs() == pre.allocs() + allocs
        &&& post.frees() == pre.frees() + frees
    }
}

/// The process-wide system allocator, used when no allocator is supplied.
/// It is stateless and keeps no account.
#[derive(Clone, Copy)]
pub struct SysAlloc;

impl CxxProxy for SysAlloc {
    open spec fn obeys_counting() -> bool {
        false
    }

    open spec fn allocs(&self) -> nat {
        0
    }

    open spec fn frees(&self) -> nat {
        0
    }

    fn record_allocs(&mut self, n: usize) {
    }

    fn record_frees(&mut self, n: usize) {
    }
}

/// An allocator that counts the blocks served and taken back through the
/// proxy. The exact account is the pair of unbounded ghost counters; the
/// two machine words shadow them and saturate once past `u64::MAX`.
#[derive(Clone, Copy)]
pub struct CountingAlloc {
    served: u64,
    taken_back: u64,
    account: Ghost<(nat, nat)>,
}

/// The value a saturating 64-bit shadow counter shows for an exact count.
pub open spec fn saturated64(n: nat) -> u64 {
    if n > u64::MAX { u64::MAX } else { n as u64 }
}

impl CountingAlloc {
    #[verifier::type_invariant]
    spec fn wf(self) -> bool {
        &&& self.served == saturated64(self.account@.0)
        &&& self.taken_back == saturated64(self.account@.1)
    }

    /// A fresh allocator with an empty account.
    pub fn new() -> (r: Self)
        ensures
            r.allocs() == 0,
            r.frees() == 0,
    {
        CountingAlloc { served: 0, taken_back: 0, account: Ghost((0, 0)) }
    }

    /// The number of blocks handed out, as far as a machine word can show it.
    pub fn allocs_served(&self) -> (r: u64)
        ensures
            r == saturated64(self.allocs()),
    {
        proof {
            use_type_invariant(self);
        }
        self.served
    }

    /// The number of blocks taken back, as far as a machine word can show it.
    pub fn frees_served(&self) -> (r: u64)
        ensures
            r == saturated64(self.frees()),
    {
        proof {
            use_type_invariant(self);
        }
        self.taken_back
    }
}

impl CxxProxy for CountingAlloc {
    open spec fn obeys_counting() -> bool {
        true
    }

    closed spec fn allocs(&self) -> nat {
        self.account@.0
    }

    closed spec fn frees(&self) -> nat {
        self.account@.1
    }

    fn record_allocs(&mut self, n: usize) {
        proof {
            use_type_invariant(&*self);
        }
        let served = if self.served > u64::MAX - n as u64 {
            u64::MAX
        } else {
            self.served + n as u64
        };
        *self = CountingAlloc {
            served,
            taken_back: self.taken_back,
            account: Ghost(((self.account@.0 + n) as nat, self.account@.1)),
        };
    }

    fn record_frees(&mut self, n: usize) {
        proof {
            use_type_invariant(&*self);
        }
        let taken_back = if self.taken_back > u64::MAX - n as u64 {
            u64::MAX
        } else {
            self.taken_back + n as u64
        };
        *self = CountingAlloc {
            served: self.served,
            taken_back,
            account: Ghost((self.account@.0, (self.account@.1 + n) as nat)),
        };
    }
}

} // verus!
