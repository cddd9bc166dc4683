//! Behaviour of the packed size/alignment type tag.

use cstl::semantics::{alignof_type, define_type, elem_size, max_elems, sizeof_type, type_tag};

#[test]
fn tag_with_alignment_bit_set_is_the_size_itself() {
    let tag = define_type(4, 4);
    assert_eq!(tag, 4);
    assert_eq!(sizeof_type(tag), 4);
    assert_eq!(alignof_type(tag), 4);
}

#[test]
fn tag_with_alignment_bit_clear_is_negative() {
    let tag = define_type(8, 4);
    assert!(tag < 0);
    assert_eq!(sizeof_type(tag), 8);
    assert_eq!(alignof_type(tag), 4);
}

#[test]
fn round_trip_over_many_layouts() {
    let mut alignment: usize = 1;
    while alignment <= 64 {
        let mut size = alignment;
        while size <= 1024 {
            let tag = define_type(size, alignment);
            assert_ne!(tag, 0);
            assert_eq!(sizeof_type(tag), size, "size for {size}/{alignment}");
            assert_eq!(alignof_type(tag), alignment, "alignment for {size}/{alignment}");
            size += alignment;
        }
        alignment *= 2;
    }
}

#[test]
fn invalid_layouts_give_the_null_tag() {
    assert_eq!(define_type(0, 1), 0);
    assert_eq!(define_type(8, 0), 0);
    assert_eq!(define_type(8, 3), 0);
    assert_eq!(define_type(6, 4), 0);
    assert_eq!(define_type(isize::MAX as usize + 1, 1), 0);
}

#[test]
fn type_tags_report_the_rust_layout() {
    let tag = type_tag::<u64>();
    assert_eq!(sizeof_type(tag), 8);
    assert_eq!(alignof_type(tag), 8);
    let tag = type_tag::<[u8; 3]>();
    assert_eq!(sizeof_type(tag), 3);
    assert_eq!(alignof_type(tag), 1);
    let tag = type_tag::<(u32, u8)>();
    assert_eq!(sizeof_type(tag), 8);
    assert_eq!(alignof_type(tag), 4);
}

#[test]
fn zero_sized_types_are_normalized_to_one_byte() {
    let tag = type_tag::<()>();
    assert_eq!(tag, 1);
    assert_eq!(sizeof_type(tag), 1);
    assert_eq!(alignof_type(tag), 1);
    assert_eq!(elem_size::<()>(), 1);
}

#[test]
fn element_limit_scales_with_the_element_size() {
    assert_eq!(max_elems::<u8>(), isize::MAX as usize - 1);
    assert_eq!(max_elems::<u64>(), (isize::MAX as usize - 1) / 8);
    assert_eq!(max_elems::<()>(), isize::MAX as usize - 1);
}
