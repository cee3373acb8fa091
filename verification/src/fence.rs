//! Fences.

use vstd::prelude::*;

verus! {

/// Options of a fence.
#[derive(Clone, Copy, Debug, PartialEq, Eq, Hash, Structural)]
pub struct FenceFlags {
    pub bits: u32,
}

impl FenceFlags {
    /// No option.
    pub const NONE: u32 = 0;

    /// The fence is shared.
    pub const SHARED: u32 = 0x1;

    /// The fence is shared across adapters.
    pub const SHARED_CROSS_ADAPTER: u32 = 0x2;

    /// Every bit that names a flag.
    pub const ALL: u32 = 0x3;

    /// Whether every flag of `other` is among the flags of `self`.
    pub open spec fn spec_contains(self, other: FenceFlags) -> bool {
        self.bits & other.bits == other.bits
    }

    /// Whether only bits that name a flag are set.
    pub open spec fn is_known(self) -> bool {
        self.bits & !FenceFlags::ALL == 0
    }

    /// No flag.
    pub fn empty() -> (r: FenceFlags)
        ensures
            r.bits == 0,
    {
        FenceFlags { bits: 0 }
    }

    /// The bits.
    pub fn bits(&self) -> (r: u32)
        ensures
            r == self.bits,
    {
        self.bits
    }

    /// The flags that `bits` names, or nothing where a bit names no flag.
    pub fn from_bits(bits: u32) -> (r: Option<FenceFlags>)
        ensures
            r == (if (FenceFlags { bits }).is_known() {
                Some(FenceFlags { bits })
            } else {
                None
            }),
    {
        if bits & !FenceFlags::ALL == 0 {
            Some(FenceFlags { bits })
        } else {
            None
        }
    }

    /// The flags that `bits` names, without the bits that name none.
    pub fn from_bits_truncate(bits: u32) -> (r: FenceFlags)
        ensures
            r.bits == bits & FenceFlags::ALL,
    {
        FenceFlags { bits: bits & FenceFlags::ALL }
    }

    /// Whether no flag is set.
    pub fn is_empty(&self) -> (r: bool)
        ensures
            r == (self.bits == 0),
    {
        self.bits == 0
    }

    /// Whether every flag of `other` is among the flags of `self`.
    pub fn contains(&self, other: FenceFlags) -> (r: bool)
        ensures
            r == self.spec_contains(other),
    {
        self.bits & other.bits == other.bits
    }

    /// The flags of either.
    pub fn union(self, other: FenceFlags) -> (r: FenceFlags)
        ensures
            r.bits == self.bits | other.bits,
    {
        FenceFlags { bits: self.bits | other.bits }
    }
}

impl Default for FenceFlags {
    /// No option.
    fn default() -> (r: FenceFlags)
        ensures
            r.bits == 0,
    {
        FenceFlags { bits: 0 }
    }
}

} // verus!
