//! Command queues.

use vstd::prelude::*;
use crate::command::CommandListType;

verus! {

/// The priority of a command queue, by its native number.
#[derive(Copy, Clone, Debug, PartialEq, Eq, Hash, Structural)]
pub struct CommandQueuePriority {
    pub bits: u32,
}

impl CommandQueuePriority {
    /// The normal priority.
    pub const NORMAL: u32 = 0;

    /// The high priority.
    pub const HIGH: u32 = 100;

    /// The priority of real time work.
    pub const GLOBAL_REALTIME: u32 = 1000;
}

impl Default for CommandQueuePriority {
    /// The normal priority.
    fn default() -> (r: CommandQueuePriority)
        ensures
            r.bits == CommandQueuePriority::NORMAL,
    {
        CommandQueuePriority { bits: CommandQueuePriority::NORMAL }
    }
}

/// Options of a command queue.
#[derive(Clone, Copy, Debug, PartialEq, Eq, Hash, Structural)]
pub struct CommandQueueFlags {
    pub bits: u32,
}

impl CommandQueueFlags {
    /// No option.
    pub const NONE: u32 = 0;

    /// The GPU never times out on the queue.
    pub const DISABLE_GPU_TIMEOUT: u32 = 0x1;

    /// Every bit that names a flag.
    pub const ALL: u32 = 0x1;

    /// Whether every flag of `other` is among the flags of `self`.
    pub open spec fn spec_contains(self, other: CommandQueueFlags) -> bool {
        self.bits & other.bits == other.bits
    }

    /// Whether only bits that name a flag are set.
    pub open spec fn is_known(self) -> bool {
        self.bits & !CommandQueueFlags::ALL == 0
    }

    /// No flag.
    pub fn empty() -> (r: CommandQueueFlags)
        ensures
            r.bits == 0,
    {
        CommandQueueFlags { bits: 0 }
    }

    /// The bits.
    pub fn bits(&self) -> (r: u32)
        ensures
            r == self.bits,
    {
        self.bits
    }

    /// The flags that `bits` names, or nothing where a bit names no flag.
    pub fn from_bits(bits: u32) -> (r: Option<CommandQueueFlags>)
        ensures
            r == (if (CommandQueueFlags { bits }).is_known() {
                Some(CommandQueueFlags { bits })
            } else {
                None
            }),
    {
        if bits & !CommandQueueFlags::ALL == 0 {
            Some(CommandQueueFlags { bits })
        } else {
            None
        }
    }

    /// The flags that `bits` names, without the bits that name none.
    pub fn from_bits_truncate(bits: u32) -> (r: CommandQueueFlags)
        ensures
            r.bits == bits & CommandQueueFlags::ALL,
    {
        CommandQueueFlags { bits: bits & CommandQueueFlags::ALL }
    }

    /// Whether no flag is set.
    pub fn is_empty(&self) -> (r: bool)
        ensures
            r == (self.bits == 0),
    {
        self.bits == 0
    }

    /// Whether every flag of `other` is among the flags of `self`.
    pub fn contains(&self, other: CommandQueueFlags) -> (r: bool)
        ensures
            r == self.spec_contains(other),
    {
        self.bits & other.bits == other.bits
    }

    /// The flags of either.
    pub fn union(self, other: CommandQueueFlags) -> (r: CommandQueueFlags)
        ensures
            r.bits == self.bits | other.bits,
    {
        CommandQueueFlags { bits: self.bits | other.bits }
    }
}

impl Default for CommandQueueFlags {
    /// No option.
    fn default() -> (r: CommandQueueFlags)
        ensures
            r.bits == 0,
    {
        CommandQueueFlags { bits: 0 }
    }
}

/// The description of a command queue.
#[derive(Copy, Clone, Debug, PartialEq, Eq, Structural)]
pub struct CommandQueueDesc {
    pub list_type: CommandListType,
    pub priority: CommandQueuePriority,
    pub flags: CommandQueueFlags,
    pub node_mask: u32,
}

impl Default for CommandQueueDesc {
    /// A queue of direct lists at normal priority on the first node.
    fn default() -> (r: CommandQueueDesc)
        ensures
            r == (CommandQueueDesc {
                list_type: CommandListType::Direct,
                priority: CommandQueuePriority { bits: 0 },
                flags: CommandQueueFlags { bits: 0 },
                node_mask: 0,
            }),
    {
        CommandQueueDesc {
            list_type: CommandListType::Direct,
            priority: CommandQueuePriority { bits: CommandQueuePriority::NORMAL },
            flags: CommandQueueFlags { bits: CommandQueueFlags::NONE },
            node_mask: 0,
        }
    }
}

} // verus!
