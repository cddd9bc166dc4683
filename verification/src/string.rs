//! Small-string-optimized string facades.
//!
//! All five encodings share one operation set and differ only in the code
//! unit width, which fixes three constants of the foreign implementation:
//! the inline (small-mode) capacity, the capacity rounding mask for heap
//! buffers, and the greatest representable length. A string is in large
//! mode exactly when its reserved capacity exceeds the inline capacity;
//! contents and length are raw code units, with well-formedness of the
//! encoding left entirely to the caller.

use crate::layout::{Layout, ValueRecord, WithCxxProxy};
use crate::proxy::{alloc_events, CxxProxy, SysAlloc};
use crate::semantics::{elem_size, spec_elem_size};
use vstd::prelude::*;

pub mod msvc2012;

verus! {

/// A code unit of one of the supported encodings; `zero` is the value of
/// the terminator the foreign side keeps after the contents.
pub trait CodeUnit: Copy + Sized {
    /// The terminator value.
    spec fn spec_zero() -> Self;

    /// Build the terminator value.
    fn zero() -> (r: Self)
        ensures
            r == Self::spec_zero(),
    ;
}

impl CodeUnit for u8 {
    open spec fn spec_zero() -> u8 {
        0
    }

    fn zero() -> u8 {
        0
    }
}

impl CodeUnit for u16 {
    open spec fn spec_zero() -> u16 {
        0
    }

    fn zero() -> u16 {
        0
    }
}

impl CodeUnit for u32 {
    open spec fn spec_zero() -> u32 {
        0
    }

    fn zero() -> u32 {
        0
    }
}

/// The capacity a string of `U` units shows in small mode: what fits in
/// the sixteen-byte inline buffer, less the terminator.
pub open spec fn spec_small_capacity<U>() -> nat {
    let w = spec_elem_size::<U>();
    if 16nat / w < 1 {
        0
    } else {
        (16nat / w - 1) as nat
    }
}

/// The rounding mask for heap capacities: a requested capacity is rounded
/// up until all mask bits are set.
pub open spec fn spec_alloc_mask<U>() -> nat {
    let w = spec_elem_size::<U>();
    if w <= 1 {
        15
    } else if w <= 2 {
        7
    } else if w <= 4 {
        3
    } else if w <= 8 {
        1
    } else {
        0
    }
}

/// The greatest length, in code units, the foreign side can represent.
pub open spec fn spec_str_max<U>() -> nat {
    let w = spec_elem_size::<U>();
    if w == 1 {
        (isize::MAX - 1) as nat
    } else {
        (isize::MAX as nat) / w
    }
}

/// The inline capacity never exceeds the representable maximum: a unit
/// wide enough to shrink the maximum below sixteen has no inline room at
/// all.
pub proof fn lemma_small_le_max<U>()
    ensures
        spec_small_capacity::<U>() <= spec_str_max::<U>(),
{
    let w = spec_elem_size::<U>();
    if w == 1 {
    } else if w <= 8 {
        vstd::arithmetic::div_mod::lemma_div_is_ordered_by_denominator(
            isize::MAX as int,
            w as int,
            8,
        );
        assert(isize::MAX as nat / w >= isize::MAX as int / 8);
    } else {
        vstd::arithmetic::div_mod::lemma_div_is_ordered_by_denominator(16, 9, w as int);
        assert(16nat / w <= 16int / 9);
    }
}

/// The inline capacity, as the foreign side computes it.
pub fn small_capacity<U>() -> (r: usize)
    ensures
        r == spec_small_capacity::<U>(),
{
    let w = elem_size::<U>();
    if 16 / w < 1 {
        0
    } else {
        16 / w - 1
    }
}

/// The capacity rounding mask, as the foreign side computes it.
pub fn alloc_mask<U>() -> (r: usize)
    ensures
        r == spec_alloc_mask::<U>(),
{
    let w = elem_size::<U>();
    if w <= 1 {
        15
    } else if w <= 2 {
        7
    } else if w <= 4 {
        3
    } else if w <= 8 {
        1
    } else {
        0
    }
}

/// The greatest representable length, as the foreign side computes it.
pub fn str_max<U>() -> (r: usize)
    ensures
        r == spec_str_max::<U>(),
{
    let w = elem_size::<U>();
    if w == 1 {
        isize::MAX as usize - 1
    } else {
        isize::MAX as usize / w
    }
}

/// The heap capacity the foreign side picks when `old` must grow to hold
/// `requested` units: the request rounded up by the mask, or half again
/// the old capacity where that is more, both clamped to the maximum.
pub open spec fn spec_calc_growth<U>(requested: nat, old: nat) -> nat {
    let x = spec_str_max::<U>();
    let masked = ((requested as usize) | (spec_alloc_mask::<U>() as usize)) as nat;
    if masked > x {
        x
    } else if old >= x {
        x
    } else if old > x - old / 2 {
        x
    } else if old + old / 2 > masked {
        old + old / 2
    } else {
        masked
    }
}

/// Compute the grown capacity as the foreign side does.
fn calc_growth<U>(requested: usize, old: usize) -> (r: usize)
    ensures
        r == spec_calc_growth::<U>(requested as nat, old as nat),
{
    let x = str_max::<U>();
    let m = alloc_mask::<U>();
    let masked = requested | m;
    if masked > x {
        x
    } else if old >= x {
        x
    } else if old > x - old / 2 {
        x
    } else {
        let geometric = old + old / 2;
        if geometric > masked {
            geometric
        } else {
            masked
        }
    }
}

/// Rounding a request up by the mask never shrinks it below either input.
proof fn lemma_or_bounds(x: usize, y: usize)
    ensures
        (x | y) >= x,
        (x | y) >= y,
{
    assert((x | y) >= x && (x | y) >= y) by (bit_vector);
}

/// The grown capacity holds the request, never passes the maximum, and
/// never shrinks, whenever the request is representable and a growth was
/// needed at all.
proof fn lemma_growth_bounds<U>(requested: nat, old: nat)
    requires
        requested <= spec_str_max::<U>(),
        old < requested,
    ensures
        spec_calc_growth::<U>(requested, old) >= requested,
        spec_calc_growth::<U>(requested, old) <= spec_str_max::<U>(),
        spec_calc_growth::<U>(requested, old) >= old,
{
    let x = spec_str_max::<U>();
    let m = spec_alloc_mask::<U>();
    lemma_or_bounds(requested as usize, m as usize);
}

/// Model of the foreign string value record: the code units it owns (the
/// terminator is not part of the contents) and the reserved capacity.
pub struct StrVal<U> {
    units: Vec<U>,
    res: usize,
}

impl<U> StrVal<U> {
    #[verifier::type_invariant]
    spec fn inv(self) -> bool {
        &&& self.units@.len() <= self.res
        &&& spec_small_capacity::<U>() <= self.res
        &&& self.res <= spec_str_max::<U>()
    }

    /// The reserved capacity, in code units.
    pub closed spec fn spec_res(&self) -> usize {
        self.res
    }
}

impl<U> View for StrVal<U> {
    type V = Seq<U>;

    closed spec fn view(&self) -> Seq<U> {
        self.units@
    }
}

impl<U> ValueRecord for StrVal<U> {
    /// The empty representation: no contents, inline buffer, small
    /// capacity.
    open spec fn spec_is_empty(&self) -> bool {
        self@ =~= Seq::<U>::empty() && self.spec_res() == spec_small_capacity::<U>()
    }

    fn empty() -> Self {
        proof {
            lemma_small_le_max::<U>();
        }
        StrVal { units: Vec::new(), res: small_capacity::<U>() }
    }
}

/// The reserved capacity after giving back unused storage: a small-mode
/// string is untouched; one whose contents fit inline becomes small; any
/// other is reallocated down to its length, rounded up by the mask.
pub open spec fn spec_str_shrunk<U>(len: nat, res: nat) -> nat {
    let s = spec_small_capacity::<U>();
    let x = spec_str_max::<U>();
    let masked = ((len as usize) | (spec_alloc_mask::<U>() as usize)) as nat;
    let target = if masked < x {
        masked
    } else {
        x
    };
    if res <= s {
        res
    } else if len < s {
        s
    } else if target < res {
        target
    } else {
        res
    }
}

/// The string facade over a layout/ownership wrapper `L` holding a string
/// value record of `U` code units and an allocator `A`.
#[verifier::reject_recursive_types(U)]
#[verifier::reject_recursive_types(A)]
pub struct CxxStringLayout<U, A, L> where
    A: CxxProxy,
    L: WithCxxProxy<Alloc = A, Value = StrVal<U>>,
 {
    inner: L,
    _marker: core::marker::PhantomData<(U, A)>,
}

/// The narrow (byte) string, modern ABI layout.
pub type CxxNarrowString<A = SysAlloc> = CxxStringLayout<u8, A, Layout<A, StrVal<u8>>>;

/// The wide string, modern ABI layout.
pub type CxxWideString<A = SysAlloc> = CxxStringLayout<u16, A, Layout<A, StrVal<u16>>>;

/// The UTF-8 string, modern ABI layout.
pub type CxxUtf8String<A = SysAlloc> = CxxStringLayout<u8, A, Layout<A, StrVal<u8>>>;

/// The UTF-16 string, modern ABI layout.
pub type CxxUtf16String<A = SysAlloc> = CxxStringLayout<u16, A, Layout<A, StrVal<u16>>>;

/// The UTF-32 string, modern ABI layout.
pub type CxxUtf32String<A = SysAlloc> = CxxStringLayout<u32, A, Layout<A, StrVal<u32>>>;

impl<U, A, L> View for CxxStringLayout<U, A, L> where
    A: CxxProxy,
    L: WithCxxProxy<Alloc = A, Value = StrVal<U>>,
 {
    type V = Seq<U>;

    closed spec fn view(&self) -> Seq<U> {
        self.inner.spec_value()@
    }
}

impl<U> CxxStringLayout<U, SysAlloc, Layout<SysAlloc, StrVal<U>>> {
    /// An empty string using the system allocator.
    pub fn new() -> (r: Self)
        ensures
            r@ =~= Seq::<U>::empty(),
            r.spec_capacity() == spec_small_capacity::<U>(),
    {
        Self::new_in(SysAlloc)
    }
}

impl<U, A, L> CxxStringLayout<U, A, L> where
    A: CxxProxy,
    L: WithCxxProxy<Alloc = A, Value = StrVal<U>>,
 {
    /// The reserved capacity, in code units.
    pub closed spec fn spec_capacity(&self) -> usize {
        self.inner.spec_value().spec_res()
    }

    /// The allocator held by the string.
    pub closed spec fn spec_alloc(&self) -> A {
        self.inner.spec_alloc()
    }

    /// Whether the string is in large mode, owning a heap buffer.
    pub open spec fn spec_is_large(&self) -> bool {
        self.spec_capacity() > spec_small_capacity::<U>()
    }

    /// An empty string owning the given allocator, in small mode; the
    /// empty value record is a defined bit pattern, so no foreign call is
    /// needed.
    pub fn new_in(alloc: A) -> (r: Self)
        ensures
            r@ =~= Seq::<U>::empty(),
            r.spec_capacity() == spec_small_capacity::<U>(),
            r.spec_alloc() == alloc,
    {
        CxxStringLayout { inner: L::new_in(alloc), _marker: core::marker::PhantomData }
    }

    /// The allocator this string allocates through.
    pub fn allocator(&self) -> (r: &A)
        ensures
            *r == self.spec_alloc(),
    {
        self.inner.alloc_as_ref()
    }

    /// The number of code units held.
    pub fn len(&self) -> (r: usize)
        ensures
            r == self@.len(),
    {
        self.inner.value_as_ref().units.len()
    }

    /// Whether the string holds no code units.
    pub fn is_empty(&self) -> (r: bool)
        ensures
            r == (self@.len() == 0),
    {
        self.len() == 0
    }

    /// The reserved capacity, in code units.
    pub fn capacity(&self) -> (r: usize)
        ensures
            r == self.spec_capacity(),
    {
        self.inner.value_as_ref().res
    }

    /// Whether the string is in large mode, owning a heap buffer.
    pub fn is_large(&self) -> (r: bool)
        ensures
            r == self.spec_is_large(),
    {
        self.capacity() > small_capacity::<U>()
    }

    /// The held code units as a slice, without the terminator.
    pub fn as_bytes(&self) -> (r: &[U])
        ensures
            r@ == self@,
    {
        self.inner.value_as_ref().units.as_slice()
    }

    /// The held code units followed by the terminator, as an owned copy.
    pub fn as_bytes_with_nul(&self) -> (r: Vec<U>) where U: CodeUnit
        ensures
            r@ == self@.push(<U as CodeUnit>::spec_zero()),
    {
        let slice = self.as_bytes();
        let n = slice.len();
        let mut out: Vec<U> = Vec::new();
        let mut i: usize = 0;
        while i < n
            invariant
                i <= n,
                n == slice@.len(),
                out@ =~= slice@.subrange(0, i as int),
            decreases n - i,
        {
            out.push(slice[i]);
            i = i + 1;
        }
        out.push(U::zero());
        proof {
            assert(out@ =~= self@.push(<U as CodeUnit>::spec_zero()));
        }
        out
    }

    /// Append code units, growing into large mode when the contents no
    /// longer fit the reserved capacity. A request past the representable
    /// maximum is refused by the foreign side and changes nothing.
    pub fn push(&mut self, s: &[U]) where U: Copy
        ensures
            old(self)@.len() + s@.len() <= old(self).spec_capacity() ==> {
                &&& final(self)@ == old(self)@ + s@
                &&& final(self).spec_capacity() == old(self).spec_capacity()
            },
            (old(self)@.len() + s@.len() > old(self).spec_capacity() && old(self)@.len() + s@.len()
                <= spec_str_max::<U>()) ==> {
                &&& final(self)@ == old(self)@ + s@
                &&& final(self).spec_capacity() == spec_calc_growth::<U>(
                    old(self)@.len() + s@.len(),
                    old(self).spec_capacity() as nat,
                )
            },
            old(self)@.len() + s@.len() > spec_str_max::<U>() ==> {
                &&& final(self)@ == old(self)@
                &&& final(self).spec_capacity() == old(self).spec_capacity()
            },
            alloc_events(
                old(self).spec_alloc(),
                final(self).spec_alloc(),
                str_grow_allocs::<U>(old(self)@.len(), s@.len(), old(self).spec_capacity() as nat),
                str_grow_frees::<U>(old(self)@.len(), s@.len(), old(self).spec_capacity() as nat),
            ),
    {
        let val = self.inner.take_value();
        proof {
            use_type_invariant(&val);
        }
        let StrVal { mut units, res } = val;
        let len = units.len();
        let count = s.len();
        if count <= res - len {
            append_units(&mut units, s);
            self.inner.set_value(StrVal { units, res });
            return ;
        }
        let x = str_max::<U>();
        if len > x || count > x - len {
            self.inner.set_value(StrVal { units, res });
            return ;
        }
        proof {
            lemma_growth_bounds::<U>((len + count) as nat, res as nat);
        }
        let new_res = calc_growth::<U>(len + count, res);
        self.inner.record_allocs(1);
        if res > small_capacity::<U>() {
            self.inner.record_frees(1);
        }
        append_units(&mut units, s);
        self.inner.set_value(StrVal { units, res: new_res });
    }

    /// Replace the contents: drop the old code units, then append the new
    /// ones into whatever storage the string already reserves.
    pub fn replace(&mut self, s: &[U]) where U: Copy
        ensures
            s@.len() <= old(self).spec_capacity() ==> {
                &&& final(self)@ == s@
                &&& final(self).spec_capacity() == old(self).spec_capacity()
            },
            (s@.len() > old(self).spec_capacity() && s@.len() <= spec_str_max::<U>()) ==> {
                &&& final(self)@ == s@
                &&& final(self).spec_capacity() == spec_calc_growth::<U>(
                    s@.len(),
                    old(self).spec_capacity() as nat,
                )
            },
            s@.len() > spec_str_max::<U>() ==> {
                &&& final(self)@ =~= Seq::<U>::empty()
                &&& final(self).spec_capacity() == old(self).spec_capacity()
            },
            alloc_events(
                old(self).spec_alloc(),
                final(self).spec_alloc(),
                str_grow_allocs::<U>(0, s@.len(), old(self).spec_capacity() as nat),
                str_grow_frees::<U>(0, s@.len(), old(self).spec_capacity() as nat),
            ),
    {
        self.clear();
        self.push(s);
    }

    /// Drop the contents; the reserved storage is kept.
    pub fn clear(&mut self)
        ensures
            final(self)@ =~= Seq::<U>::empty(),
            final(self).spec_capacity() == old(self).spec_capacity(),
            final(self).spec_alloc() == old(self).spec_alloc(),
    {
        let val = self.inner.take_value();
        proof {
            use_type_invariant(&val);
        }
        let StrVal { mut units, res } = val;
        units.clear();
        self.inner.set_value(StrVal { units, res });
    }

    /// Make room for `additional` more code units. The foreign side rounds
    /// the request up by the mask and geometric growth; it never shrinks.
    /// A request past `isize::MAX` is a caller contract violation,
    /// answered by an abort; one past the representable maximum is refused
    /// by the foreign side and changes nothing.
    pub fn reserve(&mut self, additional: usize)
        requires
            old(self).spec_capacity() + additional <= isize::MAX,
        ensures
            final(self)@ == old(self)@,
            ({
                let req = old(self).spec_capacity() + additional;
                let x = spec_str_max::<U>();
                &&& additional == 0 ==> final(self).spec_capacity() == old(self).spec_capacity()
                &&& (additional > 0 && req > x) ==> final(self).spec_capacity() == old(
                    self,
                ).spec_capacity()
                &&& (additional > 0 && req <= x) ==> final(self).spec_capacity()
                    == spec_calc_growth::<U>(req as nat, old(self).spec_capacity() as nat)
                &&& alloc_events(
                    old(self).spec_alloc(),
                    final(self).spec_alloc(),
                    if additional > 0 && req <= x {
                        1nat
                    } else {
                        0nat
                    },
                    if additional > 0 && req <= x && old(self).spec_capacity()
                        > spec_small_capacity::<U>() {
                        1nat
                    } else {
                        0nat
                    },
                )
            }),
    {
        let val = self.inner.take_value();
        proof {
            use_type_invariant(&val);
        }
        let StrVal { units, res } = val;
        if additional == 0 {
            self.inner.set_value(StrVal { units, res });
            return ;
        }
        let x = str_max::<U>();
        if additional > x || res > x - additional {
            self.inner.set_value(StrVal { units, res });
            return ;
        }
        let req = res + additional;
        proof {
            lemma_growth_bounds::<U>(req as nat, res as nat);
        }
        let new_res = calc_growth::<U>(req, res);
        self.inner.record_allocs(1);
        if res > small_capacity::<U>() {
            self.inner.record_frees(1);
        }
        self.inner.set_value(StrVal { units, res: new_res });
    }

    /// Give back unused storage: a string whose contents fit inline
    /// returns to small mode, any other large string is reallocated down
    /// to its length rounded up by the mask. Never grows.
    pub fn shrink_to_fit(&mut self)
        ensures
            final(self)@ == old(self)@,
            final(self).spec_capacity() == spec_str_shrunk::<U>(
                old(self)@.len(),
                old(self).spec_capacity() as nat,
            ),
            alloc_events(
                old(self).spec_alloc(),
                final(self).spec_alloc(),
                str_shrink_allocs::<U>(old(self)@.len(), old(self).spec_capacity() as nat),
                str_shrink_frees::<U>(old(self)@.len(), old(self).spec_capacity() as nat),
            ),
    {
        let val = self.inner.take_value();
        proof {
            use_type_invariant(&val);
        }
        let StrVal { units, res } = val;
        let s = small_capacity::<U>();
        if res <= s {
            self.inner.set_value(StrVal { units, res });
            return ;
        }
        let len = units.len();
        if len < s {
            self.inner.record_frees(1);
            self.inner.set_value(StrVal { units, res: s });
            return ;
        }
        let x = str_max::<U>();
        let masked = len | alloc_mask::<U>();
        let target = if masked < x {
            masked
        } else {
            x
        };
        proof {
            lemma_or_bounds(len, spec_alloc_mask::<U>() as usize);
        }
        if target < res {
            self.inner.record_allocs(1);
            self.inner.record_frees(1);
            self.inner.set_value(StrVal { units, res: target });
        } else {
            self.inner.set_value(StrVal { units, res });
        }
    }

    /// Destroy the string: the heap buffer, if the string is in large
    /// mode, is given back through a proxy built from the allocator, which
    /// is returned.
    pub fn destroy(self) -> (a: A)
        ensures
            alloc_events(
                self.spec_alloc(),
                a,
                0,
                if self.spec_is_large() {
                    1nat
                } else {
                    0nat
                },
            ),
    {
        let CxxStringLayout { inner, _marker } = self;
        let (mut alloc, val) = inner.into_parts();
        proof {
            use_type_invariant(&val);
        }
        let StrVal { units, res } = val;
        if res > small_capacity::<U>() {
            alloc.record_frees(1);
        }
        alloc
    }

    /// Copy a slice of code units into a fresh string owning the given
    /// allocator.
    pub fn from_bytes_in(s: &[U], alloc: A) -> (r: Self) where U: Copy
        ensures
            s@.len() <= spec_small_capacity::<U>() ==> {
                &&& r@ == s@
                &&& r.spec_capacity() == spec_small_capacity::<U>()
            },
            (s@.len() > spec_small_capacity::<U>() && s@.len() <= spec_str_max::<U>()) ==> {
                &&& r@ == s@
                &&& r.spec_capacity() == spec_calc_growth::<U>(
                    s@.len(),
                    spec_small_capacity::<U>(),
                )
            },
            s@.len() > spec_str_max::<U>() ==> {
                &&& r@ =~= Seq::<U>::empty()
                &&& r.spec_capacity() == spec_small_capacity::<U>()
            },
            alloc_events(
                alloc,
                r.spec_alloc(),
                str_grow_allocs::<U>(0, s@.len(), spec_small_capacity::<U>()),
                str_grow_frees::<U>(0, s@.len(), spec_small_capacity::<U>()),
            ),
    {
        let mut r = Self::new_in(alloc);
        r.push(s);
        r
    }
}

impl<U, A1, A2, L1, L2> PartialEq<CxxStringLayout<U, A2, L2>> for CxxStringLayout<U, A1, L1> where
    U: PartialEq + vstd::std_specs::cmp::PartialEqSpec,
    A1: CxxProxy,
    A2: CxxProxy,
    L1: WithCxxProxy<Alloc = A1, Value = StrVal<U>>,
    L2: WithCxxProxy<Alloc = A2, Value = StrVal<U>>,
 {
    /// Unit-wise equality of contents, across allocator types and ABI
    /// layouts; capacity and mode play no part.
    fn eq(&self, other: &CxxStringLayout<U, A2, L2>) -> bool {
        self.inner.value_as_ref().units.eq(&other.inner.value_as_ref().units)
    }
}

impl<U, A1, A2, L1, L2> vstd::std_specs::cmp::PartialEqSpecImpl<CxxStringLayout<U, A2, L2>> for CxxStringLayout<U, A1, L1> where
    U: PartialEq + vstd::std_specs::cmp::PartialEqSpec,
    A1: CxxProxy,
    A2: CxxProxy,
    L1: WithCxxProxy<Alloc = A1, Value = StrVal<U>>,
    L2: WithCxxProxy<Alloc = A2, Value = StrVal<U>>,
 {
    open spec fn obeys_eq_spec() -> bool {
        U::obeys_eq_spec()
    }

    open spec fn eq_spec(&self, other: &CxxStringLayout<U, A2, L2>) -> bool {
        &&& self@.len() == other@.len()
        &&& forall|i: int| #![auto] 0 <= i < self@.len() ==> self@[i].eq_spec(&other@[i])
    }
}

impl<U, A, L> Default for CxxStringLayout<U, A, L> where
    A: CxxProxy + Default,
    L: WithCxxProxy<Alloc = A, Value = StrVal<U>>,
 {
    /// An empty small-mode string over a default allocator.
    fn default() -> (r: Self)
        ensures
            r@ =~= Seq::<U>::empty(),
            r.spec_capacity() == spec_small_capacity::<U>(),
    {
        Self::new_in(A::default())
    }
}

impl<U, A, L> Clone for CxxStringLayout<U, A, L> where
    U: Copy,
    A: CxxProxy + Clone,
    L: WithCxxProxy<Alloc = A, Value = StrVal<U>>,
 {
    /// Clone the string's contents into independently owned storage,
    /// through a clone of the allocator.
    fn clone(&self) -> (r: Self)
        ensures
            r@ == self@,
    {
        let val_ref = self.inner.value_as_ref();
        proof {
            use_type_invariant(val_ref);
        }
        let alloc = self.inner.alloc_as_ref().clone();
        Self::from_bytes_in(self.as_bytes(), alloc)
    }
}

/// Copy every unit of `s` onto the end of `units`.
fn append_units<U: Copy>(units: &mut Vec<U>, s: &[U])
    ensures
        final(units)@ == old(units)@ + s@,
{
    let n = s.len();
    let mut i: usize = 0;
    while i < n
        invariant
            i <= n,
            n == s@.len(),
            units@ =~= old(units)@ + s@.subrange(0, i as int),
        decreases n - i,
    {
        units.push(s[i]);
        i = i + 1;
    }
    proof {
        assert(units@ =~= old(units)@ + s@);
    }
}

/// The small-string-optimization boundary: a string whose contents sit
/// exactly at the inline capacity is still in small mode, and any growth
/// past the inline capacity engages large mode — the grown reserve always
/// exceeds the inline capacity.
pub proof fn lemma_sso_boundary<U>(needed: nat)
    requires
        spec_small_capacity::<U>() < needed <= spec_str_max::<U>(),
    ensures
        spec_calc_growth::<U>(needed, spec_small_capacity::<U>()) > spec_small_capacity::<U>(),
{
    let s = spec_small_capacity::<U>();
    let m = spec_alloc_mask::<U>();
    lemma_or_bounds(needed as usize, m as usize);
}

/// Giving back unused storage twice in a row leaves the same reserved
/// capacity as doing it once: `shrink_to_fit` is idempotent.
pub proof fn lemma_str_shrink_idempotent<U>(len: nat, res: nat)
    requires
        len <= res,
        spec_small_capacity::<U>() <= res,
        res <= spec_str_max::<U>(),
    ensures
        spec_str_shrunk::<U>(len, spec_str_shrunk::<U>(len, res)) == spec_str_shrunk::<U>(
            len,
            res,
        ),
{
    let m = spec_alloc_mask::<U>();
    lemma_or_bounds(len as usize, m as usize);
}

/// Allocations an append performs: one fresh heap buffer when the grown
/// contents are representable but no longer fit the reserved capacity.
pub open spec fn str_grow_allocs<U>(len: nat, count: nat, res: nat) -> nat {
    if len + count > res && len + count <= spec_str_max::<U>() {
        1
    } else {
        0
    }
}

/// Deallocations an append performs: the old heap buffer is given back
/// when a fresh one replaced it and the string was in large mode.
pub open spec fn str_grow_frees<U>(len: nat, count: nat, res: nat) -> nat {
    if len + count > res && len + count <= spec_str_max::<U>() && res > spec_small_capacity::<U>() {
        1
    } else {
        0
    }
}

/// Allocations a shrink performs: one smaller heap buffer when the string
/// stays in large mode but its buffer is reallocated down.
pub open spec fn str_shrink_allocs<U>(len: nat, res: nat) -> nat {
    if res > spec_small_capacity::<U>() && len >= spec_small_capacity::<U>() && spec_str_shrunk::<
        U,
    >(len, res) < res {
        1
    } else {
        0
    }
}

/// Deallocations a shrink performs: the old heap buffer is given back
/// whenever the reserved capacity came down.
pub open spec fn str_shrink_frees<U>(len: nat, res: nat) -> nat {
    if res > spec_small_capacity::<U>() && spec_str_shrunk::<U>(len, res) < res {
        1
    } else {
        0
    }
}

} // verus!
