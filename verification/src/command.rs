//! Commands for the GPU, and what takes them.

use vstd::prelude::*;

pub mod queue;
pub mod list;

verus! {

/// The kind of a command list.
#[derive(Clone, Copy, Debug, PartialEq, Eq, Hash, Structural)]
pub enum CommandListType {
    /// A list that the GPU runs directly.
    Direct,
    /// A list that only direct lists run.
    Bundle,
    /// A list of compute and copy commands.
    Compute,
    /// A list of copy commands.
    Copy,
}

impl CommandListType {
    /// The native number of the value.
    pub open spec fn spec_bits(self) -> u32 {
        match self {
            CommandListType::Direct => 0,
            CommandListType::Bundle => 1,
            CommandListType::Compute => 2,
            CommandListType::Copy => 3,
        }
    }

    /// The native number of the value.
    pub fn bits(self) -> (r: u32)
        ensures
            r == self.spec_bits(),
    {
        match self {
            CommandListType::Direct => 0,
            CommandListType::Bundle => 1,
            CommandListType::Compute => 2,
            CommandListType::Copy => 3,
        }
    }

    /// The value with the native number `bits`, if there is one.
    pub fn from_bits(bits: u32) -> (r: Option<CommandListType>)
        ensures
            match r {
                Some(v) => v.spec_bits() == bits,
                None => forall|v: CommandListType| v.spec_bits() != bits,
            },
    {
        if bits == 0 {
            Some(CommandListType::Direct)
        } else if bits == 1 {
            Some(CommandListType::Bundle)
        } else if bits == 2 {
            Some(CommandListType::Compute)
        } else if bits == 3 {
            Some(CommandListType::Copy)
        } else {
            None
        }
    }
}

impl Default for CommandListType {
    /// A direct list.
    fn default() -> (r: CommandListType)
        ensures
            r == CommandListType::Direct,
    {
        CommandListType::Direct
    }
}

/// The parts of a depth stencil view that are cleared.
#[derive(Clone, Copy, Debug, PartialEq, Eq, Hash, Structural)]
pub struct DepthStencilClearFlags {
    pub bits: u32,
}

impl DepthStencilClearFlags {
    /// The depth.
    pub const DEPTH: u32 = 0x1;

    /// The stencil.
    pub const STENCIL: u32 = 0x2;

    /// Every bit that names a flag.
    pub const ALL: u32 = 0x3;

    /// Whether every flag of `other` is among the flags of `self`.
    pub open spec fn spec_contains(self, other: DepthStencilClearFlags) -> bool {
        self.bits & other.bits == other.bits
    }

    /// Whether only bits that name a flag are set.
    pub open spec fn is_known(self) -> bool {
        self.bits & !DepthStencilClearFlags::ALL == 0
    }

    /// No flag.
    pub fn empty() -> (r: DepthStencilClearFlags)
        ensures
            r.bits == 0,
    {
        DepthStencilClearFlags { bits: 0 }
    }

    /// The bits.
    pub fn bits(&self) -> (r: u32)
        ensures
            r == self.bits,
    {
        self.bits
    }

    /// The flags that `bits` names, or nothing where a bit names no flag.
    pub fn from_bits(bits: u32) -> (r: Option<DepthStencilClearFlags>)
        ensures
            r == (if (DepthStencilClearFlags { bits }).is_known() {
                Some(DepthStencilClearFlags { bits })
            } else {
                None
            }),
    {
        if bits & !DepthStencilClearFlags::ALL == 0 {
            Some(DepthStencilClearFlags { bits })
        } else {
            None
        }
    }

    /// The flags that `bits` names, without the bits that name none.
    pub fn from_bits_truncate(bits: u32) -> (r: DepthStencilClearFlags)
        ensures
            r.bits == bits & DepthStencilClearFlags::ALL,
    {
        DepthStencilClearFlags { bits: bits & DepthStencilClearFlags::ALL }
    }

    /// Whether no flag is set.
    pub fn is_empty(&self) -> (r: bool)
        ensures
            r == (self.bits == 0),
    {
        self.bits == 0
    }

    /// Whether every flag of `other` is among the flags of `self`.
    pub fn contains(&self, other: DepthStencilClearFlags) -> (r: bool)
        ensures
            r == self.spec_contains(other),
    {
        self.bits & other.bits == other.bits
    }

    /// The flags of either.
    pub fn union(self, other: DepthStencilClearFlags) -> (r: DepthStencilClearFlags)
        ensures
            r.bits == self.bits | other.bits,
    {
        DepthStencilClearFlags { bits: self.bits | other.bits }
    }
}

impl Default for DepthStencilClearFlags {
    /// Both depth and stencil.
    fn default() -> (r: DepthStencilClearFlags)
        ensures
            r.bits == 0x3,
    {
        DepthStencilClearFlags { bits: 0x3 }
    }
}

} // verus!
