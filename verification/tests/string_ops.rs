//! Behaviour of the small-string-optimized string facades.

use cstl::proxy::{CountingAlloc, SysAlloc};
use cstl::string::{CxxNarrowString, CxxUtf16String, CxxUtf32String, CxxUtf8String, CxxWideString};

#[test]
fn fresh_strings_are_small_with_inline_capacity() {
    let narrow: CxxNarrowString = CxxNarrowString::new_in(SysAlloc);
    assert_eq!(narrow.capacity(), 15);
    assert!(!narrow.is_large());
    let wide: CxxWideString = CxxWideString::new_in(SysAlloc);
    assert_eq!(wide.capacity(), 7);
    assert!(!wide.is_large());
    let utf8: CxxUtf8String = CxxUtf8String::new_in(SysAlloc);
    assert_eq!(utf8.capacity(), 15);
    let utf16: CxxUtf16String = CxxUtf16String::new_in(SysAlloc);
    assert_eq!(utf16.capacity(), 7);
    let utf32: CxxUtf32String = CxxUtf32String::new_in(SysAlloc);
    assert_eq!(utf32.capacity(), 3);
    assert!(!utf32.is_large());
}

#[test]
fn narrow_inline_boundary_allocates_only_past_fifteen() {
    let alloc = CountingAlloc::new();
    let mut s: CxxNarrowString<CountingAlloc> = CxxNarrowString::new_in(alloc);
    s.push(b"0123456789abcde");
    assert_eq!(s.len(), 15);
    assert_eq!(s.capacity(), 15);
    assert!(!s.is_large());
    assert_eq!(s.allocator().allocs_served(), 0);
    s.push(b"f");
    assert_eq!(s.len(), 16);
    assert!(s.is_large());
    assert_eq!(s.capacity(), 31);
    assert_eq!(s.allocator().allocs_served(), 1);
    assert_eq!(s.as_bytes(), b"0123456789abcdef");
}

#[test]
fn wide_inline_boundary_is_seven_units() {
    let mut s: CxxWideString = CxxWideString::new_in(SysAlloc);
    s.push(&[1u16, 2, 3, 4, 5, 6, 7]);
    assert_eq!(s.capacity(), 7);
    assert!(!s.is_large());
    s.push(&[8u16]);
    assert!(s.is_large());
    assert_eq!(s.capacity(), 15);
    assert_eq!(s.as_bytes(), &[1u16, 2, 3, 4, 5, 6, 7, 8]);
}

#[test]
fn utf32_inline_boundary_is_three_units() {
    let mut s: CxxUtf32String = CxxUtf32String::new_in(SysAlloc);
    s.push(&[10u32, 20, 30]);
    assert_eq!(s.capacity(), 3);
    assert!(!s.is_large());
    s.push(&[40u32]);
    assert!(s.is_large());
    assert_eq!(s.capacity(), 7);
    assert_eq!(s.as_bytes(), &[10u32, 20, 30, 40]);
}

#[test]
fn shrink_to_fit_is_idempotent_for_strings() {
    let mut s: CxxNarrowString = CxxNarrowString::new_in(SysAlloc);
    s.push(b"0123456789abcdefghij");
    assert!(s.is_large());
    s.replace(b"abc");
    assert!(s.is_large());
    s.shrink_to_fit();
    assert_eq!(s.capacity(), 15);
    assert!(!s.is_large());
    s.shrink_to_fit();
    assert_eq!(s.capacity(), 15);
    assert_eq!(s.as_bytes(), b"abc");
}

#[test]
fn shrink_to_fit_rounds_by_mask_in_large_mode() {
    let mut s: CxxNarrowString = CxxNarrowString::new_in(SysAlloc);
    s.reserve(100);
    let grown = s.capacity();
    assert!(grown >= 100);
    s.push(b"0123456789abcdefgh");
    s.shrink_to_fit();
    assert_eq!(s.capacity(), 31);
    s.shrink_to_fit();
    assert_eq!(s.capacity(), 31);
    assert_eq!(s.len(), 18);
}

#[test]
fn replace_and_clear_keep_capacity() {
    let mut s: CxxNarrowString = CxxNarrowString::new_in(SysAlloc);
    s.push(b"hello");
    s.replace(b"world!");
    assert_eq!(s.as_bytes(), b"world!");
    assert_eq!(s.capacity(), 15);
    s.clear();
    assert_eq!(s.len(), 0);
    assert_eq!(s.capacity(), 15);
}

#[test]
fn reserve_rounds_up_by_mask() {
    let mut s: CxxNarrowString = CxxNarrowString::new_in(SysAlloc);
    s.reserve(20);
    assert_eq!(s.capacity(), 47);
    let mut w: CxxWideString = CxxWideString::new_in(SysAlloc);
    w.reserve(9);
    assert_eq!(w.capacity(), 23);
}

#[test]
fn as_bytes_with_nul_appends_terminator() {
    let mut s: CxxNarrowString = CxxNarrowString::new_in(SysAlloc);
    s.push(b"ab");
    assert_eq!(s.as_bytes_with_nul(), vec![b'a', b'b', 0]);
    let w: CxxWideString = CxxWideString::new_in(SysAlloc);
    assert_eq!(w.as_bytes_with_nul(), vec![0u16]);
}

#[test]
fn from_bytes_and_clone_match() {
    let s: CxxNarrowString = CxxNarrowString::from_bytes_in(b"copy me exactly!", SysAlloc);
    assert_eq!(s.as_bytes(), b"copy me exactly!");
    let t = s.clone();
    assert_eq!(t.as_bytes(), s.as_bytes());
}

#[test]
fn string_equality_ignores_capacity_and_mode() {
    let a: CxxNarrowString = CxxNarrowString::from_bytes_in(b"abc", SysAlloc);
    let mut b: CxxNarrowString = CxxNarrowString::new_in(SysAlloc);
    b.reserve(100);
    b.push(b"abc");
    assert!(a == b);
    b.push(b"d");
    assert!(a != b);
}

#[test]
fn counting_allocator_balances_for_strings() {
    let alloc = CountingAlloc::new();
    let mut s: CxxNarrowString<CountingAlloc> = CxxNarrowString::new_in(alloc);
    s.push(b"a long string that certainly leaves the inline buffer behind");
    s.push(b" and keeps growing to force another reallocation of the heap buffer");
    s.shrink_to_fit();
    let a = s.destroy();
    assert!(a.allocs_served() > 0);
    assert_eq!(a.allocs_served(), a.frees_served());
}

#[test]
fn empty_string_lifecycle_never_allocates() {
    let alloc = CountingAlloc::new();
    let s: CxxNarrowString<CountingAlloc> = CxxNarrowString::new_in(alloc);
    let a = s.destroy();
    assert_eq!(a.allocs_served(), 0);
    assert_eq!(a.frees_served(), 0);
}

#[test]
fn historical_layout_strings_behave_identically() {
    let mut modern: CxxNarrowString = CxxNarrowString::new_in(SysAlloc);
    let mut historical = cstl::string::msvc2012::CxxNarrowString::<SysAlloc>::new_in(SysAlloc);
    modern.push(b"0123456789abcdef");
    historical.push(b"0123456789abcdef");
    assert_eq!(modern.as_bytes(), historical.as_bytes());
    assert_eq!(modern.capacity(), historical.capacity());
    assert_eq!(modern.is_large(), historical.is_large());
}
