//! Adapters and outputs, as they describe themselves.

use vstd::prelude::*;
use crate::format::{from_wchar_slice, wchar_len, Bool, Rect};

verus! {

/// What kind of adapter an adapter is.
#[derive(Clone, Copy, Debug, PartialEq, Eq, Hash, Structural)]
pub struct AdapterFlags {
    pub bits: u32,
}

impl AdapterFlags {
    /// An ordinary adapter.
    pub const NONE: u32 = 0;

    /// A remote adapter.
    pub const REMOTE: u32 = 1;

    /// A software adapter.
    pub const SOFTWARE: u32 = 2;

    /// Every bit that names a flag.
    pub const ALL: u32 = 0x3;

    /// Whether every flag of `other` is among the flags of `self`.
    pub open spec fn spec_contains(self, other: AdapterFlags) -> bool {
        self.bits & other.bits == other.bits
    }

    /// Whether only bits that name a flag are set.
    pub open spec fn is_known(self) -> bool {
        self.bits & !AdapterFlags::ALL == 0
    }

    /// No flag.
    pub fn empty() -> (r: AdapterFlags)
        ensures
            r.bits == 0,
    {
        AdapterFlags { bits: 0 }
    }

    /// The bits.
    pub fn bits(&self) -> (r: u32)
        ensures
            r == self.bits,
    {
        self.bits
    }

    /// The flags that `bits` names, or nothing where a bit names no flag.
    pub fn from_bits(bits: u32) -> (r: Option<AdapterFlags>)
        ensures
            r == (if (AdapterFlags { bits }).is_known() {
                Some(AdapterFlags { bits })
            } else {
                None
            }),
    {
        if bits & !AdapterFlags::ALL == 0 {
            Some(AdapterFlags { bits })
        } else {
            None
        }
    }

    /// The flags that `bits` names, without the bits that name none.
    pub fn from_bits_truncate(bits: u32) -> (r: AdapterFlags)
        ensures
            r.bits == bits & AdapterFlags::ALL,
    {
        AdapterFlags { bits: bits & AdapterFlags::ALL }
    }

    /// Whether no flag is set.
    pub fn is_empty(&self) -> (r: bool)
        ensures
            r == (self.bits == 0),
    {
        self.bits == 0
    }

    /// Whether every flag of `other` is among the flags of `self`.
    pub fn contains(&self, other: AdapterFlags) -> (r: bool)
        ensures
            r == self.spec_contains(other),
    {
        self.bits & other.bits == other.bits
    }

    /// The flags of either.
    pub fn union(self, other: AdapterFlags) -> (r: AdapterFlags)
        ensures
            r.bits == self.bits | other.bits,
    {
        AdapterFlags { bits: self.bits | other.bits }
    }
}

/// How an output is rotated.
#[derive(Clone, Copy, Debug, PartialEq, Eq, Hash, Structural)]
pub enum RotationMode {
    /// Not stated.
    Unspecified,
    /// Not at all.
    Identity,
    /// By 90 degrees.
    Rotate90,
    /// By 180 degrees.
    Rotate180,
    /// By 270 degrees.
    Rotate270,
}

impl RotationMode {
    /// The native number of the value.
    pub open spec fn spec_bits(self) -> u32 {
        match self {
            RotationMode::Unspecified => 0,
            RotationMode::Identity => 1,
            RotationMode::Rotate90 => 2,
            RotationMode::Rotate180 => 3,
            RotationMode::Rotate270 => 4,
        }
    }

    /// The native number of the value.
    pub fn bits(self) -> (r: u32)
        ensures
            r == self.spec_bits(),
    {
        match self {
            RotationMode::Unspecified => 0,
            RotationMode::Identity => 1,
            RotationMode::Rotate90 => 2,
            RotationMode::Rotate180 => 3,
            RotationMode::Rotate270 => 4,
        }
    }

    /// The value with the native number `bits`, if there is one.
    pub fn from_bits(bits: u32) -> (r: Option<RotationMode>)
        ensures
            match r {
                Some(v) => v.spec_bits() == bits,
                None => forall|v: RotationMode| v.spec_bits() != bits,
            },
    {
        if bits == 0 {
            Some(RotationMode::Unspecified)
        } else if bits == 1 {
            Some(RotationMode::Identity)
        } else if bits == 2 {
            Some(RotationMode::Rotate90)
        } else if bits == 3 {
            Some(RotationMode::Rotate180)
        } else if bits == 4 {
            Some(RotationMode::Rotate270)
        } else {
            None
        }
    }
}

/// The native number of the memory that lies on the adapter.
pub const MEMORY_SEGMENT_GROUP_LOCAL: u32 = 0;

/// The native number of the memory that lies off the adapter.
pub const MEMORY_SEGMENT_GROUP_NON_LOCAL: u32 = 1;

/// The native number of the memory that is asked about.
pub fn memory_segment_group(local: bool) -> (r: u32)
    ensures
        r == (if local {
            MEMORY_SEGMENT_GROUP_LOCAL
        } else {
            MEMORY_SEGMENT_GROUP_NON_LOCAL
        }),
{
    if local {
        MEMORY_SEGMENT_GROUP_LOCAL
    } else {
        MEMORY_SEGMENT_GROUP_NON_LOCAL
    }
}

/// How much video memory a process has and uses.
#[derive(Copy, Clone, Debug, PartialEq, Eq, Structural)]
pub struct VideoMemInfo {
    pub budget: u64,
    pub current_usage: u64,
    pub available_for_reservation: u64,
    pub current_reservation: u64,
}

/// A locally unique identifier.
#[derive(Copy, Clone, Debug, PartialEq, Eq, Structural)]
pub struct Luid {
    pub low_part: u32,
    pub high_part: i32,
}

/// What an adapter tells of itself.
#[derive(Copy, Clone, Debug, PartialEq, Eq)]
pub struct AdapterDesc {
    /// The name, in UTF-16, ended by a zero unit unless it fills the field.
    pub description: [u16; 128],
    pub vendor_id: u32,
    pub device_id: u32,
    pub revision: u32,
    pub dedicated_vmem: usize,
    pub dedicated_smem: usize,
    pub shared_smem: usize,
    pub luid: Luid,
    pub flags: AdapterFlags,
}

impl AdapterDesc {
    /// The name of the adapter, in UTF-16, without the zero unit and what
    /// follows it.
    pub fn name(&self) -> (r: &[u16])
        ensures
            r@ == self.description@.subrange(0, wchar_len(self.description@)),
    {
        from_wchar_slice(self.description.as_slice())
    }
}

/// What an output tells of itself.
#[derive(Copy, Clone, Debug, PartialEq, Eq)]
pub struct OutputDesc {
    /// The name, in UTF-16, ended by a zero unit unless it fills the field.
    pub name: [u16; 32],
    pub descktop_coordinates: Rect,
    pub attached_to_desktop: Bool,
    pub rotation: RotationMode,
    /// The address of the monitor.
    pub hmonitor: usize,
}

impl OutputDesc {
    /// The name of the output, in UTF-16, without the zero unit and what
    /// follows it.
    pub fn device_name(&self) -> (r: &[u16])
        ensures
            r@ == self.name@.subrange(0, wchar_len(self.name@)),
    {
        from_wchar_slice(self.name.as_slice())
    }
}

/// Walks the adapters of a factory, or the outputs of an adapter, by their
/// indices.
#[derive(Copy, Clone, Debug, PartialEq, Eq, Structural)]
pub struct EnumCursor {
    idx: u32,
}

impl EnumCursor {
    /// The index of the item that is asked for next.
    pub closed spec fn view(&self) -> u32 {
        self.idx
    }

    /// The cursor before the first item.
    pub fn new() -> (r: EnumCursor)
        ensures
            r@ == 0,
    {
        EnumCursor { idx: 0 }
    }

    /// The index of the item to ask the native layer for.
    pub fn index(&self) -> (r: u32)
        ensures
            r == self@,
    {
        self.idx
    }

    /// Takes the answer `hr` of the native layer to the last step of
    /// getting the item at the index, and says whether the item is handed
    /// out. Where it is, the cursor moves on by one, unless it stands at
    /// the greatest index; where it is not, the cursor stays.
    pub fn advance(&mut self, hr: i32) -> (r: bool)
        ensures
            r == crate::error::succeeded(hr),
            final(self)@ == (if crate::error::succeeded(hr) && old(self)@ < u32::MAX {
                (old(self)@ + 1) as u32
            } else {
                old(self)@
            }),
    {
        if hr >= 0 {
            if self.idx < u32::MAX {
                self.idx = self.idx + 1;
            }
            true
        } else {
            false
        }
    }
}

} // verus!
