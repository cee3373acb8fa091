//! The limit of the lists that builders keep.

use vstd::prelude::*;

verus! {

/// The most items that a list of a builder takes. A list of fewer items
/// than this grows without fail on every machine whose addresses have 32
/// bits or more, as no item of a list is larger than a kibibyte.
pub const MAX_LIST_LEN: usize = 0x10_0000;

} // verus!
