//! The dynamic array in the historical ABI layout, value record first.

use crate::proxy::SysAlloc;
use crate::vec::{CxxVecLayout, VecVal};
use vstd::prelude::*;

verus! {

/// The dynamic array in the historical ABI layout.
pub type CxxVec<T, A = SysAlloc> = CxxVecLayout<T, A, crate::msvc2012::Layout<A, VecVal<T>>>;

} // verus!
