//! Whole-lifecycle laws of the containers, proved from the operations'
//! contracts alone.
//!
//! Each function here composes public operations and states, in its
//! `ensures`, a property that must hold of any run: round trips preserve
//! contents, and every block a container obtains through the allocator
//! proxy is given back by the time the container is destroyed.

use crate::layout::Layout;
use crate::list::{CxxListLayout, ListVal};
use crate::proxy::{alloc_events, CountingAlloc, CxxProxy};
use crate::semantics::spec_max_elems;
use crate::string::{CxxStringLayout, StrVal};
use crate::vec::{CxxVec, CxxVecLayout, VecVal};
use vstd::prelude::*;

verus! {

/// Converting a host-native growable array into a container and back
/// yields the original sequence, element for element.
pub fn vec_round_trip<T, A: CxxProxy>(values: Vec<T>, alloc: A) -> (r: Vec<T>)
    requires
        values@.len() <= spec_max_elems::<T>(),
    ensures
        r@ == values@,
{
    let c = CxxVecLayout::<T, A, Layout<A, VecVal<T>>>::from_rust_vec_in(values, alloc);
    c.into_rust_vec()
}

/// Constructing an empty dynamic array and immediately destroying it
/// allocates nothing and frees nothing: the empty value record owns no
/// buffer.
pub fn empty_vec_lifecycle<T, A: CxxProxy>(alloc: A) -> (a: A)
    ensures
        alloc_events(alloc, a, 0, 0),
{
    let c = CxxVecLayout::<T, A, Layout<A, VecVal<T>>>::new_in(alloc);
    c.destroy()
}

/// Constructing an empty string and immediately destroying it allocates
/// nothing and frees nothing: an empty string lives in its inline buffer.
pub fn empty_string_lifecycle<U, A: CxxProxy>(alloc: A) -> (a: A)
    ensures
        alloc_events(alloc, a, 0, 0),
{
    let c = CxxStringLayout::<U, A, Layout<A, StrVal<U>>>::new_in(alloc);
    c.destroy()
}

/// Constructing an empty list and immediately destroying it allocates
/// exactly one block — the sentinel node — and gives exactly that block
/// back.
pub fn empty_list_lifecycle<T, A: CxxProxy>(alloc: A) -> (a: A)
    ensures
        alloc_events(alloc, a, 1, 1),
{
    let c = CxxListLayout::<T, A, Layout<A, ListVal<T>>>::new_in(alloc);
    c.destroy()
}

/// Giving back a dynamic array's unused tail twice in a row leaves the
/// same capacity as doing it once: `shrink_to_fit` is idempotent, since
/// the capacity it leaves is the length, which it never changes.
pub fn vec_shrink_idempotent<T, A: CxxProxy>(c: &mut CxxVec<T, A>) -> (caps: (usize, usize))
    ensures
        caps.0 == caps.1,
        final(c)@ == old(c)@,
{
    c.shrink_to_fit();
    let after_once = c.capacity();
    c.shrink_to_fit();
    let after_twice = c.capacity();
    (after_once, after_twice)
}

/// For element types whose `clone` is known to return its input exactly
/// (machine integers among them), an element-wise clone of a container is
/// equal to the original, element for element and in length.
pub proof fn lemma_clone_exact(original: Seq<u64>, copy: Seq<u64>)
    requires
        copy.len() == original.len(),
        forall|i|
            #![all_triggers]
            0 <= i < original.len() ==> vstd::pervasive::cloned::<u64>(original[i], copy[i]),
    ensures
        copy =~= original,
{
    assert forall|i| 0 <= i < original.len() implies copy[i] == original[i] by {
        assert(vstd::pervasive::cloned::<u64>(original[i], copy[i]));
    }
}

/// Any number of pushes followed by `clear` and destruction leaves a
/// counting allocator balanced: the blocks given back are exactly the
/// blocks that were handed out.
pub fn counted_pushes_balance<T>(alloc: CountingAlloc, values: Vec<T>) -> (a: CountingAlloc)
    ensures
        a.allocs() >= alloc.allocs(),
        a.allocs() - alloc.allocs() == a.frees() - alloc.frees(),
{
    let mut c = CxxVec::<T, CountingAlloc>::new_in(alloc);
    let mut values = values;
    loop
        invariant
            c.spec_alloc().allocs() >= alloc.allocs(),
            c.spec_alloc().frees() >= alloc.frees(),
            c.spec_alloc().allocs() - alloc.allocs() == c.spec_alloc().frees() - alloc.frees() + (
            if c.spec_capacity() > 0 {
                1int
            } else {
                0int
            }),
        decreases values@.len(),
    {
        let value = values.pop();
        match value {
            Some(value) => {
                c.push(value);
            },
            None => {
                break ;
            },
        }
    }
    c.clear();
    c.destroy()
}

} // verus!
