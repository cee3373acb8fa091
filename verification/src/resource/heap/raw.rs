//! The heap as the native layer hands it out.

use vstd::prelude::*;
use crate::resource::heap::Heap;

verus! {

/// A heap without a class in its type.
pub type RawHeap = Heap;

} // verus!
