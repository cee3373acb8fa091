//! Descriptions of heaps.

use vstd::prelude::*;
use crate::error::AllocationError;

verus! {

/// The placement class of a heap.
#[derive(Clone, Copy, Debug, PartialEq, Eq, Hash, Structural)]
pub enum HeapType {
    /// Memory that only the GPU reads and writes.
    Default,
    /// Memory that the CPU writes and the GPU reads. Resources on it are
    /// in the generic read state for their whole life.
    Upload,
    /// Memory that the GPU writes and the CPU reads. Resources on it are
    /// in the copy destination state for their whole life.
    Readback,
    /// Memory whose page property and pool are chosen by the caller.
    Custom,
}

impl HeapType {
    /// The native number of the value.
    pub open spec fn spec_bits(self) -> u32 {
        match self {
            HeapType::Default => 1,
            HeapType::Upload => 2,
            HeapType::Readback => 3,
            HeapType::Custom => 4,
        }
    }

    /// The native number of the value.
    pub fn bits(self) -> (r: u32)
        ensures
            r == self.spec_bits(),
    {
        match self {
            HeapType::Default => 1,
            HeapType::Upload => 2,
            HeapType::Readback => 3,
            HeapType::Custom => 4,
        }
    }

    /// The value with the native number `bits`, if there is one.
    pub fn from_bits(bits: u32) -> (r: Option<HeapType>)
        ensures
            match r {
                Some(v) => v.spec_bits() == bits,
                None => forall|v: HeapType| v.spec_bits() != bits,
            },
    {
        if bits == 1 {
            Some(HeapType::Default)
        } else if bits == 2 {
            Some(HeapType::Upload)
        } else if bits == 3 {
            Some(HeapType::Readback)
        } else if bits == 4 {
            Some(HeapType::Custom)
        } else {
            None
        }
    }
}

impl Default for HeapType {
    /// Memory of the GPU.
    fn default() -> (r: HeapType)
        ensures
            r == HeapType::Default,
    {
        HeapType::Default
    }
}

/// How the CPU maps the pages of a heap.
#[derive(Clone, Copy, Debug, PartialEq, Eq, Hash, Structural)]
pub enum PageProperty {
    /// Not stated.
    Unknown,
    /// The CPU cannot reach the heap.
    NotAvailable,
    /// Write combined.
    WriteCombine,
    /// Write back.
    WriteBack,
}

impl PageProperty {
    /// The native number of the value.
    pub open spec fn spec_bits(self) -> u32 {
        match self {
            PageProperty::Unknown => 0,
            PageProperty::NotAvailable => 1,
            PageProperty::WriteCombine => 2,
            PageProperty::WriteBack => 3,
        }
    }

    /// The native number of the value.
    pub fn bits(self) -> (r: u32)
        ensures
            r == self.spec_bits(),
    {
        match self {
            PageProperty::Unknown => 0,
            PageProperty::NotAvailable => 1,
            PageProperty::WriteCombine => 2,
            PageProperty::WriteBack => 3,
        }
    }

    /// The value with the native number `bits`, if there is one.
    pub fn from_bits(bits: u32) -> (r: Option<PageProperty>)
        ensures
            match r {
                Some(v) => v.spec_bits() == bits,
                None => forall|v: PageProperty| v.spec_bits() != bits,
            },
    {
        if bits == 0 {
            Some(PageProperty::Unknown)
        } else if bits == 1 {
            Some(PageProperty::NotAvailable)
        } else if bits == 2 {
            Some(PageProperty::WriteCombine)
        } else if bits == 3 {
            Some(PageProperty::WriteBack)
        } else {
            None
        }
    }
}

impl Default for PageProperty {
    /// Not stated.
    fn default() -> (r: PageProperty)
        ensures
            r == PageProperty::Unknown,
    {
        PageProperty::Unknown
    }
}

/// The memory pool that a heap prefers.
#[derive(Clone, Copy, Debug, PartialEq, Eq, Hash, Structural)]
pub enum MemoryPoolPreference {
    /// Not stated.
    Unknown,
    /// System memory.
    L0,
    /// Video memory.
    L1,
}

impl MemoryPoolPreference {
    /// The native number of the value.
    pub open spec fn spec_bits(self) -> u32 {
        match self {
            MemoryPoolPreference::Unknown => 0,
            MemoryPoolPreference::L0 => 1,
            MemoryPoolPreference::L1 => 2,
        }
    }

    /// The native number of the value.
    pub fn bits(self) -> (r: u32)
        ensures
            r == self.spec_bits(),
    {
        match self {
            MemoryPoolPreference::Unknown => 0,
            MemoryPoolPreference::L0 => 1,
            MemoryPoolPreference::L1 => 2,
        }
    }

    /// The value with the native number `bits`, if there is one.
    pub fn from_bits(bits: u32) -> (r: Option<MemoryPoolPreference>)
        ensures
            match r {
                Some(v) => v.spec_bits() == bits,
                None => forall|v: MemoryPoolPreference| v.spec_bits() != bits,
            },
    {
        if bits == 0 {
            Some(MemoryPoolPreference::Unknown)
        } else if bits == 1 {
            Some(MemoryPoolPreference::L0)
        } else if bits == 2 {
            Some(MemoryPoolPreference::L1)
        } else {
            None
        }
    }
}

impl Default for MemoryPoolPreference {
    /// Not stated.
    fn default() -> (r: MemoryPoolPreference)
        ensures
            r == MemoryPoolPreference::Unknown,
    {
        MemoryPoolPreference::Unknown
    }
}

/// The alignment of a heap.
#[derive(Clone, Copy, Debug, PartialEq, Eq, Hash, Structural)]
pub enum HeapAlignment {
    /// Another name for 64 kibibytes.
    Default,
    /// Four kibibytes.
    FourKb,
    /// 64 kibibytes.
    DefaultResourcePlacement,
    /// Four mebibytes. A heap that takes multisampled textures has this alignment.
    DefaultMsaaResourcePlacement,
}

impl HeapAlignment {
    /// The native number of the value.
    pub open spec fn spec_bits(self) -> u64 {
        match self {
            HeapAlignment::Default => 0,
            HeapAlignment::FourKb => 0x1000,
            HeapAlignment::DefaultResourcePlacement => 0x1_0000,
            HeapAlignment::DefaultMsaaResourcePlacement => 0x40_0000,
        }
    }

    /// The native number of the value.
    pub fn bits(self) -> (r: u64)
        ensures
            r == self.spec_bits(),
    {
        match self {
            HeapAlignment::Default => 0,
            HeapAlignment::FourKb => 0x1000,
            HeapAlignment::DefaultResourcePlacement => 0x1_0000,
            HeapAlignment::DefaultMsaaResourcePlacement => 0x40_0000,
        }
    }

    /// The value with the native number `bits`, if there is one.
    pub fn from_bits(bits: u64) -> (r: Option<HeapAlignment>)
        ensures
            match r {
                Some(v) => v.spec_bits() == bits,
                None => forall|v: HeapAlignment| v.spec_bits() != bits,
            },
    {
        if bits == 0 {
            Some(HeapAlignment::Default)
        } else if bits == 0x1000 {
            Some(HeapAlignment::FourKb)
        } else if bits == 0x1_0000 {
            Some(HeapAlignment::DefaultResourcePlacement)
        } else if bits == 0x40_0000 {
            Some(HeapAlignment::DefaultMsaaResourcePlacement)
        } else {
            None
        }
    }
}

impl Default for HeapAlignment {
    /// 64 kibibytes.
    fn default() -> (r: HeapAlignment)
        ensures
            r == HeapAlignment::Default,
    {
        HeapAlignment::Default
    }
}

impl HeapAlignment {
    /// The number of bytes of which the size of a heap must be a multiple.
    pub open spec fn spec_byte_value(self) -> u64 {
        match self {
            HeapAlignment::Default => 0x1_0000,
            HeapAlignment::FourKb => 0x1000,
            HeapAlignment::DefaultResourcePlacement => 0x1_0000,
            HeapAlignment::DefaultMsaaResourcePlacement => 0x40_0000,
        }
    }

    /// The number of bytes of which the size of a heap must be a multiple.
    pub fn byte_value(self) -> (r: u64)
        ensures
            r == self.spec_byte_value(),
            r > 0,
    {
        match self {
            HeapAlignment::Default => 0x1_0000,
            HeapAlignment::FourKb => 0x1000,
            HeapAlignment::DefaultResourcePlacement => 0x1_0000,
            HeapAlignment::DefaultMsaaResourcePlacement => 0x40_0000,
        }
    }
}

/// Options of a heap.
#[derive(Clone, Copy, Debug, PartialEq, Eq, Hash, Structural)]
pub struct HeapFlags {
    pub bits: u32,
}

impl HeapFlags {
    /// No option.
    pub const NONE: u32 = 0;

    /// The heap is shared.
    pub const SHARED: u32 = 0x1;

    /// The heap takes no buffers.
    pub const DENY_BUFFERS: u32 = 0x4;

    /// The heap may hold swap chain surfaces.
    pub const ALLOW_DISPLAY: u32 = 0x8;

    /// The heap may be shared across adapters.
    pub const SHARED_CROSS_ADAPTER: u32 = 0x20;

    /// The heap takes no render target and no depth stencil textures.
    pub const DENY_RT_DS_TEXTURES: u32 = 0x40;

    /// The heap takes no textures but render targets and depth stencils.
    pub const DENY_NON_RT_DS_TEXTURES: u32 = 0x80;

    /// Not supported.
    pub const HARDWARE_PROTECTED: u32 = 0x100;

    /// Tools may watch writes to the heap.
    pub const ALLOW_WRITE_WATCH: u32 = 0x200;

    /// The heap takes every kind of resource.
    pub const ALLOW_ALL_BUFFERS_AND_TEXTURES: u32 = 0;

    /// The heap takes buffers only.
    pub const ALLOW_ONLY_BUFFERS: u32 = 0xc0;

    /// The heap takes only textures that are neither render targets nor
    /// depth stencils.
    pub const ALLOW_ONLY_NON_RT_DS_TEXTURES: u32 = 0x44;

    /// The heap takes render target and depth stencil textures only.
    pub const ALLOW_ONLY_RT_DS_TEXTURES: u32 = 0x84;

    /// Every bit that names a flag.
    pub const ALL: u32 = 0x3ed;

    /// Whether every flag of `other` is among the flags of `self`.
    pub open spec fn spec_contains(self, other: HeapFlags) -> bool {
        self.bits & other.bits == other.bits
    }

    /// Whether only bits that name a flag are set.
    pub open spec fn is_known(self) -> bool {
        self.bits & !HeapFlags::ALL == 0
    }

    /// No flag.
    pub fn empty() -> (r: HeapFlags)
        ensures
            r.bits == 0,
    {
        HeapFlags { bits: 0 }
    }

    /// The bits.
    pub fn bits(&self) -> (r: u32)
        ensures
            r == self.bits,
    {
        self.bits
    }

    /// The flags that `bits` names, or nothing where a bit names no flag.
    pub fn from_bits(bits: u32) -> (r: Option<HeapFlags>)
        ensures
            r == (if (HeapFlags { bits }).is_known() {
                Some(HeapFlags { bits })
            } else {
                None
            }),
    {
        if bits & !HeapFlags::ALL == 0 {
            Some(HeapFlags { bits })
        } else {
            None
        }
    }

    /// The flags that `bits` names, without the bits that name none.
    pub fn from_bits_truncate(bits: u32) -> (r: HeapFlags)
        ensures
            r.bits == bits & HeapFlags::ALL,
    {
        HeapFlags { bits: bits & HeapFlags::ALL }
    }

    /// Whether no flag is set.
    pub fn is_empty(&self) -> (r: bool)
        ensures
            r == (self.bits == 0),
    {
        self.bits == 0
    }

    /// Whether every flag of `other` is among the flags of `self`.
    pub fn contains(&self, other: HeapFlags) -> (r: bool)
        ensures
            r == self.spec_contains(other),
    {
        self.bits & other.bits == other.bits
    }

    /// The flags of either.
    pub fn union(self, other: HeapFlags) -> (r: HeapFlags)
        ensures
            r.bits == self.bits | other.bits,
    {
        HeapFlags { bits: self.bits | other.bits }
    }

    /// The flags of both.
    pub fn intersection(self, other: HeapFlags) -> (r: HeapFlags)
        ensures
            r.bits == self.bits & other.bits,
    {
        HeapFlags { bits: self.bits & other.bits }
    }

    /// The flags of `self` that are not flags of `other`.
    pub fn difference(self, other: HeapFlags) -> (r: HeapFlags)
        ensures
            r.bits == self.bits & !other.bits,
    {
        HeapFlags { bits: self.bits & !other.bits }
    }
}

impl Default for HeapFlags {
    /// No option.
    fn default() -> (r: HeapFlags)
        ensures
            r.bits == 0,
    {
        HeapFlags { bits: 0 }
    }
}

impl HeapFlags {
    /// Whether buffers may be placed on a heap with these flags.
    pub fn accepts_buffers(&self) -> (r: bool)
        ensures
            r == (self.bits & HeapFlags::DENY_BUFFERS == 0),
    {
        self.bits & HeapFlags::DENY_BUFFERS == 0
    }
}

/// The properties of a heap.
#[derive(Copy, Clone, Debug, PartialEq, Eq, Structural)]
pub struct HeapProperties {
    /// The placement class.
    pub heap_type: HeapType,
    /// How the CPU maps the pages.
    pub page: PageProperty,
    /// The preferred memory pool.
    pub pool_preference: MemoryPoolPreference,
    /// The node on which the heap is created.
    pub creation_node_mask: u32,
    /// The nodes that see the heap.
    pub visible_node_mask: u32,
}

impl HeapProperties {
    /// The properties of a heap of the given class, the rest left to the
    /// native layer.
    pub fn new(heap_type: HeapType) -> (r: HeapProperties)
        ensures
            r == (HeapProperties {
                heap_type,
                page: PageProperty::Unknown,
                pool_preference: MemoryPoolPreference::Unknown,
                creation_node_mask: 0,
                visible_node_mask: 0,
            }),
    {
        HeapProperties {
            heap_type,
            page: PageProperty::Unknown,
            pool_preference: MemoryPoolPreference::Unknown,
            creation_node_mask: 0,
            visible_node_mask: 0,
        }
    }
}

impl Default for HeapProperties {
    /// The properties of a default heap.
    fn default() -> (r: HeapProperties)
        ensures
            r == (HeapProperties {
                heap_type: HeapType::Default,
                page: PageProperty::Unknown,
                pool_preference: MemoryPoolPreference::Unknown,
                creation_node_mask: 0,
                visible_node_mask: 0,
            }),
    {
        HeapProperties::new(HeapType::Default)
    }
}

/// The description of a heap.
#[derive(Copy, Clone, Debug, PartialEq, Eq, Structural)]
pub struct HeapDesc {
    /// The size in bytes.
    pub size: u64,
    /// The properties.
    pub properties: HeapProperties,
    /// The alignment.
    pub alignment: HeapAlignment,
    /// The options.
    pub flags: HeapFlags,
}

impl HeapDesc {
    /// Whether the size is a multiple of the alignment.
    pub open spec fn valid(&self) -> bool {
        self.size as int % self.alignment.spec_byte_value() as int == 0
    }

    /// Whether a heap of this description may take multisampled textures.
    pub open spec fn spec_accepts_msaa(&self) -> bool {
        self.alignment == HeapAlignment::DefaultMsaaResourcePlacement
    }

    /// Describes a heap of `size` bytes with the default alignment. The size
    /// is taken as it is: `validate` says whether it fits the alignment.
    pub fn new(size: u64, properties: HeapProperties, flags: HeapFlags) -> (r: HeapDesc)
        ensures
            r == (HeapDesc { size, properties, alignment: HeapAlignment::Default, flags }),
    {
        HeapDesc { size, properties, flags, alignment: HeapAlignment::Default }
    }

    /// Describes a heap of `size` bytes with the given alignment, if the
    /// size is a multiple of it.
    pub fn with_alignment(
        size: u64,
        properties: HeapProperties,
        alignment: HeapAlignment,
        flags: HeapFlags,
    ) -> (r: Result<HeapDesc, AllocationError>)
        ensures
            size as int % alignment.spec_byte_value() as int == 0 ==> r == Ok::<HeapDesc, AllocationError>(
                HeapDesc { size, properties, alignment, flags },
            ),
            size as int % alignment.spec_byte_value() as int != 0 ==> r == Err::<HeapDesc, AllocationError>(
                AllocationError::InvalidSize,
            ),
    {
        let desc = HeapDesc { size, properties, alignment, flags };
        match desc.validate() {
            Ok(()) => Ok(desc),
            Err(e) => Err(e),
        }
    }

    /// Checks that the size is a multiple of the alignment.
    pub fn validate(&self) -> (r: Result<(), AllocationError>)
        ensures
            self.valid() ==> r == Ok::<(), AllocationError>(()),
            !self.valid() ==> r == Err::<(), AllocationError>(AllocationError::InvalidSize),
    {
        if self.size % self.alignment.byte_value() == 0 {
            Ok(())
        } else {
            Err(AllocationError::InvalidSize)
        }
    }

    /// Whether a heap of this description may take multisampled textures:
    /// it must be aligned to four mebibytes.
    pub fn accepts_msaa(&self) -> (r: bool)
        ensures
            r == self.spec_accepts_msaa(),
    {
        self.alignment == HeapAlignment::DefaultMsaaResourcePlacement
    }
}

} // verus!
