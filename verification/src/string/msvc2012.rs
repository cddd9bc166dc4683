//! The string facades in the historical ABI layout, value record first.

use crate::proxy::SysAlloc;
use crate::string::{CxxStringLayout, StrVal};
use vstd::prelude::*;

verus! {

/// The narrow (byte) string in the historical ABI layout.
pub type CxxNarrowString<A = SysAlloc> = CxxStringLayout<u8, A, crate::msvc2012::Layout<A, StrVal<u8>>>;

/// The wide string in the historical ABI layout.
pub type CxxWideString<A = SysAlloc> = CxxStringLayout<u16, A, crate::msvc2012::Layout<A, StrVal<u16>>>;

/// The UTF-8 string in the historical ABI layout.
pub type CxxUtf8String<A = SysAlloc> = CxxStringLayout<u8, A, crate::msvc2012::Layout<A, StrVal<u8>>>;

/// The UTF-16 string in the historical ABI layout.
pub type CxxUtf16String<A = SysAlloc> = CxxStringLayout<u16, A, crate::msvc2012::Layout<A, StrVal<u16>>>;

/// The UTF-32 string in the historical ABI layout.
pub type CxxUtf32String<A = SysAlloc> = CxxStringLayout<u32, A, crate::msvc2012::Layout<A, StrVal<u32>>>;

} // verus!
