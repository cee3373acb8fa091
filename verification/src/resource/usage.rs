//! How a surface is used and who may reach it.

use vstd::prelude::*;

verus! {

/// The uses of a surface. The low bits say how the CPU reaches it.
#[derive(Clone, Copy, Debug, PartialEq, Eq, Hash, Structural)]
pub struct Usage {
    pub bits: u32,
}

impl Usage {
    /// The CPU does not reach the surface.
    pub const CPU_NONE: u32 = 0;

    /// The CPU writes the surface.
    pub const CPU_DYNAMIC: u32 = 1;

    /// The CPU reads and writes the surface.
    pub const CPU_READ_WRITE: u32 = 2;

    /// The surface is scratch memory of the CPU.
    pub const CPU_SCRATCH: u32 = 3;

    /// Shaders read the surface.
    pub const SHADER_INPUT: u32 = 0x10;

    /// The surface is rendered to.
    pub const RENDER_TARGET_OUTPUT: u32 = 0x20;

    /// The surface is a back buffer.
    pub const BACK_BUFFER: u32 = 0x40;

    /// The surface is shared.
    pub const SHARED: u32 = 0x80;

    /// The GPU only reads the surface.
    pub const READ_ONLY: u32 = 0x100;

    /// What the surface holds is dropped when it is presented.
    pub const DISCARD_ON_PRESENT: u32 = 0x200;

    /// The surface is reached through unordered access views.
    pub const UNORDERED_ACCESS: u32 = 0x400;

    /// Every bit that names a flag.
    pub const ALL: u32 = 0x7f3;

    /// Whether every flag of `other` is among the flags of `self`.
    pub open spec fn spec_contains(self, other: Usage) -> bool {
        self.bits & other.bits == other.bits
    }

    /// Whether only bits that name a flag are set.
    pub open spec fn is_known(self) -> bool {
        self.bits & !Usage::ALL == 0
    }

    /// No flag.
    pub fn empty() -> (r: Usage)
        ensures
            r.bits == 0,
    {
        Usage { bits: 0 }
    }

    /// The bits.
    pub fn bits(&self) -> (r: u32)
        ensures
            r == self.bits,
    {
        self.bits
    }

    /// The flags that `bits` names, or nothing where a bit names no flag.
    pub fn from_bits(bits: u32) -> (r: Option<Usage>)
        ensures
            r == (if (Usage { bits }).is_known() {
                Some(Usage { bits })
            } else {
                None
            }),
    {
        if bits & !Usage::ALL == 0 {
            Some(Usage { bits })
        } else {
            None
        }
    }

    /// The flags that `bits` names, without the bits that name none.
    pub fn from_bits_truncate(bits: u32) -> (r: Usage)
        ensures
            r.bits == bits & Usage::ALL,
    {
        Usage { bits: bits & Usage::ALL }
    }

    /// Whether no flag is set.
    pub fn is_empty(&self) -> (r: bool)
        ensures
            r == (self.bits == 0),
    {
        self.bits == 0
    }

    /// Whether every flag of `other` is among the flags of `self`.
    pub fn contains(&self, other: Usage) -> (r: bool)
        ensures
            r == self.spec_contains(other),
    {
        self.bits & other.bits == other.bits
    }

    /// The flags of either.
    pub fn union(self, other: Usage) -> (r: Usage)
        ensures
            r.bits == self.bits | other.bits,
    {
        Usage { bits: self.bits | other.bits }
    }
}

} // verus!
