//! Containers whose behaviour matches a native C++ standard library:
//! a dynamic array, a doubly linked list, and small-string-optimized
//! strings in five encodings, each specified against a mathematical view.
//!
//! The native implementation manipulates elements it cannot type-check
//! through a semantics descriptor (a packed size/alignment tag plus
//! per-element operations) and allocates through a call-scoped allocator
//! proxy. Both are modelled and specified here, together with the
//! layout/ownership wrapper that pairs an allocator with a foreign value
//! record, and the container facades built on top of it.

pub mod laws;
pub mod layout;
pub mod list;
pub mod msvc2012;
pub mod proxy;
pub mod semantics;
pub mod string;
pub mod vec;

