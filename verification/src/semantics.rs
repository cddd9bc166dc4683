//! Element semantics descriptors.
//!
//! The foreign side manipulates elements it cannot type-check. It learns
//! their size and alignment from a single packed integer tag, built here
//! with the same reversible bit-packing scheme the native library uses:
//! a pair whose size has the alignment bit set is stored as the size
//! itself, any other pair as the negated union of size and alignment.
//! Both components can be recovered from the tag, which is what the
//! round-trip lemma in this module states.

use vstd::arithmetic::power2::{is_pow2, pow2, lemma_pow2_strictly_increases};
use vstd::arithmetic::power::pow;
use vstd::bits::{low_bits_mask, lemma_usize_low_bits_mask_is_mod};
use vstd::layout::{size_of, align_of, layout_for_type_is_valid, unsigned_int_max_values};
use vstd::prelude::*;

verus! {

/// The size/alignment pairs the foreign side accepts: a nonzero size no
/// larger than `isize::MAX`, a power-of-two alignment, and a size that is
/// a multiple of the alignment (both stated through the low-bit masks the
/// native code itself tests).
pub open spec fn aligned_masks(size: usize, alignment: usize) -> bool {
    &&& alignment != 0
    &&& alignment & ((alignment - 1) as usize) == 0
    &&& size & ((alignment - 1) as usize) == 0
}

pub open spec fn valid_type_layout(size: usize, alignment: usize) -> bool {
    &&& size != 0
    &&& size <= isize::MAX as usize
    &&& aligned_masks(size, alignment)
}

/// The packed tag for a size/alignment pair; zero stands for an invalid
/// pair, which the foreign side treats as no handle at all.
pub open spec fn spec_define_type(size: usize, alignment: usize) -> isize {
    if !valid_type_layout(size, alignment) {
        0
    } else if size & alignment != 0 {
        size as isize
    } else {
        (-((size | alignment) as int)) as isize
    }
}

/// The lowest set bit of a nonzero word.
pub open spec fn lowbit(x: usize) -> usize
    recommends
        x != 0,
{
    x & !((x - 1) as usize)
}

/// The magnitude of a tag, as the foreign side computes it from the
/// two's-complement bit pattern.
pub open spec fn spec_tag_magnitude(tag: isize) -> usize {
    if tag < 0 {
        (-(tag as int)) as usize
    } else {
        tag as usize
    }
}

/// The alignment recovered from a packed tag: the lowest set bit of its
/// bit pattern.
pub open spec fn spec_alignof_type(tag: isize) -> usize {
    if tag == 0 {
        0
    } else {
        lowbit(spec_tag_magnitude(tag))
    }
}

/// The size recovered from a packed tag.
pub open spec fn spec_sizeof_type(tag: isize) -> usize {
    if tag < 0 {
        spec_tag_magnitude(tag) ^ spec_alignof_type(tag)
    } else {
        tag as usize
    }
}

/// Pack a size/alignment pair into a tag, or return zero when the foreign
/// side would reject the pair.
pub fn define_type(size: usize, alignment: usize) -> (r: isize)
    ensures
        r == spec_define_type(size, alignment),
{
    if size == 0 || size > isize::MAX as usize {
        return 0;
    }
    if alignment == 0 || alignment & (alignment - 1) != 0 {
        return 0;
    }
    if size & (alignment - 1) != 0 {
        return 0;
    }
    if size & alignment != 0 {
        size as isize
    } else {
        proof {
            lemma_disjoint_union_bits(size, alignment);
        }
        -((size | alignment) as isize)
    }
}

/// For an accepted pair whose size has the alignment bit clear, the union
/// of the two is still a representable magnitude, its lowest set bit is
/// the alignment, and removing that bit gives the size back.
proof fn lemma_disjoint_union_bits(size: usize, alignment: usize)
    requires
        valid_type_layout(size, alignment),
        size & alignment == 0,
    ensures
        size | alignment != 0,
        size | alignment <= isize::MAX as usize,
        lowbit(size | alignment) == alignment,
        (size | alignment) ^ alignment == size,
{
    let u = size | alignment;
    assert(u != 0 && (u as isize) >= 0 && ((u as isize) as usize) == u && (u & !(((u
        - 1) as usize))) == alignment && (u ^ alignment) == size) by (bit_vector)
        requires
            u == size | alignment && size != 0 && (size as isize) >= 0 && ((size as isize) as usize)
                == size && alignment != 0 && alignment & ((alignment - 1) as usize) == 0 && size
                & ((alignment - 1) as usize) == 0 && size & alignment == 0,
    ;
    let w = u as isize;
    assert(w >= 0 && w as usize == u);
    assert(u <= isize::MAX as usize);
}

/// Recover the alignment from a packed tag.
pub fn alignof_type(tag: isize) -> (r: usize)
    requires
        tag != isize::MIN,
    ensures
        r == spec_alignof_type(tag),
{
    if tag == 0 {
        0
    } else {
        let m = if tag < 0 {
            (-tag) as usize
        } else {
            tag as usize
        };
        m & !(m - 1)
    }
}

/// Recover the size from a packed tag.
pub fn sizeof_type(tag: isize) -> (r: usize)
    requires
        tag != isize::MIN,
    ensures
        r == spec_sizeof_type(tag),
{
    let alignment = alignof_type(tag);
    if tag < 0 {
        ((-tag) as usize) ^ alignment
    } else {
        tag as usize
    }
}

/// The packing scheme is reversible: every accepted size/alignment pair
/// yields a nonzero tag from which both components are recovered exactly.
pub proof fn lemma_type_tag_roundtrip(size: usize, alignment: usize)
    requires
        valid_type_layout(size, alignment),
    ensures
        spec_define_type(size, alignment) != 0,
        spec_define_type(size, alignment) != isize::MIN,
        spec_alignof_type(spec_define_type(size, alignment)) == alignment,
        spec_sizeof_type(spec_define_type(size, alignment)) == size,
{
    let t = spec_define_type(size, alignment);
    if size & alignment != 0 {
        assert(t == size as isize);
        assert((size & !((size - 1) as usize)) == alignment) by (bit_vector)
            requires
                size != 0 && alignment != 0 && alignment & ((alignment - 1) as usize) == 0 && size
                    & ((alignment - 1) as usize) == 0 && size & alignment != 0,
        ;
        assert(spec_tag_magnitude(t) == size);
        assert(spec_alignof_type(t) == alignment);
        assert(spec_sizeof_type(t) == size);
    } else {
        let u = size | alignment;
        lemma_disjoint_union_bits(size, alignment);
        assert(t == (-(u as int)) as isize);
        assert(t < 0 && t != isize::MIN && t != 0);
        assert(spec_tag_magnitude(t) == u);
        assert(spec_alignof_type(t) == alignment);
        assert(spec_sizeof_type(t) == size);
    }
}

/// Bridge from the mathematical layout facts Verus supplies for a type
/// (power-of-two alignment, size a multiple of the alignment) to the
/// low-bit-mask form the packing scheme is stated in.
pub proof fn lemma_layout_masks(size: usize, alignment: usize)
    requires
        is_pow2(alignment as int),
        size % alignment == 0,
    ensures
        aligned_masks(size, alignment),
{
    broadcast use vstd::arithmetic::power2::is_pow2_equiv;

    assert(exists|e: nat| pow(2, e) == alignment as int);
    let e = choose|e: nat| pow(2, e) == alignment as int;
    assert(pow2(e) == alignment as nat) by {
        reveal(pow2);
    }
    vstd::arithmetic::power2::lemma_pow2_pos(e);
    assert(alignment != 0);
    assert(e < usize::BITS as nat) by {
        unsigned_int_max_values();
        if e >= usize::BITS as nat {
            if e > usize::BITS as nat {
                lemma_pow2_strictly_increases(usize::BITS as nat, e);
            }
            assert(pow2(e) >= pow2(usize::BITS as nat));
        }
    }
    assert(low_bits_mask(e) == (alignment - 1) as nat);
    assert(low_bits_mask(e) as usize == (alignment - 1) as usize);
    assert(pow2(e) as usize == alignment);
    lemma_usize_low_bits_mask_is_mod(alignment, e);
    lemma_usize_low_bits_mask_is_mod(size, e);
    assert(alignment & ((alignment - 1) as usize) == alignment % alignment);
    assert(size & ((alignment - 1) as usize) == size % alignment);
}

/// The normalized element size the descriptor reports for `T`: zero-sized
/// types are presented as one byte wide.
pub open spec fn spec_elem_size<T>() -> nat {
    if size_of::<T>() == 0 {
        1
    } else {
        size_of::<T>()
    }
}

/// The normalized element alignment the descriptor reports for `T`.
pub open spec fn spec_elem_align<T>() -> nat {
    if size_of::<T>() == 0 {
        1
    } else {
        align_of::<T>()
    }
}

/// The packed size/alignment tag for elements of type `T`.
pub open spec fn spec_type_tag<T>() -> isize {
    spec_define_type(spec_elem_size::<T>() as usize, spec_elem_align::<T>() as usize)
}

/// The normalized element size for `T`, as the descriptor reports it.
pub fn elem_size<T>() -> (r: usize)
    ensures
        r == spec_elem_size::<T>(),
{
    layout_for_type_is_valid::<T>();
    let s = core::mem::size_of::<T>();
    if s == 0 {
        1
    } else {
        s
    }
}

/// Build the packed tag for elements of type `T`. The pair the descriptor
/// reports is always one the foreign side accepts, so the tag is a valid,
/// nonzero handle.
pub fn type_tag<T>() -> (r: isize)
    ensures
        r == spec_type_tag::<T>(),
        r != 0,
        r != isize::MIN,
        spec_alignof_type(r) == spec_elem_align::<T>(),
        spec_sizeof_type(r) == spec_elem_size::<T>(),
{
    layout_for_type_is_valid::<T>();
    let s = core::mem::size_of::<T>();
    let (size, alignment) = if s == 0 {
        (1usize, 1usize)
    } else {
        (s, core::mem::align_of::<T>())
    };
    proof {
        if s == 0 {
            assert(1usize & ((1usize - 1) as usize) == 0) by (bit_vector);
            assert(valid_type_layout(1, 1));
        } else {
            broadcast use vstd::layout::group_layout_axioms;

            assert(is_pow2(alignment as int));
            assert(size % alignment == 0);
            lemma_layout_masks(size, alignment);
            assert(size <= isize::MAX as usize) by {
                assert(size_of::<T>() <= isize::MAX as int - (isize::MAX as int % align_of::<
                    T,
                >() as int));
            }
            assert(valid_type_layout(size, alignment));
        }
        lemma_type_tag_roundtrip(size, alignment);
    }
    define_type(size, alignment)
}

/// The greatest number of elements of type `T` a contiguous foreign
/// container can hold: the native side never lets a buffer reach
/// `isize::MAX` bytes.
pub open spec fn spec_max_elems<T>() -> nat {
    ((isize::MAX - 1) as nat) / spec_elem_size::<T>()
}

/// The element limit for `T`, as the foreign side computes it.
pub fn max_elems<T>() -> (r: usize)
    ensures
        r == spec_max_elems::<T>(),
{
    let s = elem_size::<T>();
    (isize::MAX as usize - 1) / s
}

/// A length is within the element limit whenever one more element still
/// fits the byte budget: the everyday way for a caller to discharge the
/// limit that guards the growing container operations.
pub proof fn lemma_within_max_elems<T>(len: nat)
    requires
        spec_elem_size::<T>() * (len + 1) <= isize::MAX - 1,
    ensures
        len < spec_max_elems::<T>(),
{
    let w = spec_elem_size::<T>() as int;
    let k = (len + 1) as int;
    vstd::arithmetic::div_mod::lemma_div_multiples_vanish_fancy(k, 0, w);
    assert((w * k) / w == k);
    vstd::arithmetic::div_mod::lemma_div_is_ordered(w * k, isize::MAX - 1, w);
}

/// A slot that owns a value which a move operation may or may not have
/// consumed. It models storage whose contents are conditionally taken:
/// the value can be read back out exactly once when it was not taken.
pub struct DefaultUninit<T> {
    val: Option<T>,
}

impl<T> DefaultUninit<T> {
    /// The value the slot currently holds, if any.
    pub closed spec fn spec_val(&self) -> Option<T> {
        self.val
    }

    /// Fill a fresh slot with `val`.
    pub fn new(val: T) -> (r: Self)
        ensures
            r.spec_val() == Some(val),
    {
        DefaultUninit { val: Some(val) }
    }

    /// Read the still-held value back out of the slot.
    pub fn assume_init(self) -> (r: T)
        requires
            self.spec_val() is Some,
        ensures
            self.spec_val() == Some(r),
    {
        match self.val {
            Some(v) => v,
            None => unreached(),
        }
    }
}

impl<T> Default for DefaultUninit<T> {
    /// An empty slot, standing for uninitialized storage.
    fn default() -> (r: Self)
        ensures
            r.spec_val() is None,
    {
        DefaultUninit { val: None }
    }
}

} // verus!
