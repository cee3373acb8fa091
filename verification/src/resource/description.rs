//! Descriptions of resources.

use vstd::prelude::*;
use crate::format::{DxgiFormat, DXGI_FORMAT_UNKNOWN};
use crate::swapchain::SampleDesc;

verus! {

/// The alignment of a resource on its heap.
#[derive(Clone, Copy, Debug, PartialEq, Eq, Hash, Structural)]
pub enum ResourceAlignment {
    /// Four mebibytes for multisampled textures, 64 kibibytes for everything else.
    Default,
    /// Four kibibytes.
    FourKb,
    /// 64 kibibytes.
    SixtyFourKb,
    /// Four mebibytes.
    FourMb,
}

impl ResourceAlignment {
    /// The native number of the value.
    pub open spec fn spec_bits(self) -> u64 {
        match self {
            ResourceAlignment::Default => 0,
            ResourceAlignment::FourKb => 0x1000,
            ResourceAlignment::SixtyFourKb => 0x1_0000,
            ResourceAlignment::FourMb => 0x40_0000,
        }
    }

    /// The native number of the value.
    pub fn bits(self) -> (r: u64)
        ensures
            r == self.spec_bits(),
    {
        match self {
            ResourceAlignment::Default => 0,
            ResourceAlignment::FourKb => 0x1000,
            ResourceAlignment::SixtyFourKb => 0x1_0000,
            ResourceAlignment::FourMb => 0x40_0000,
        }
    }

    /// The value with the native number `bits`, if there is one.
    pub fn from_bits(bits: u64) -> (r: Option<ResourceAlignment>)
        ensures
            match r {
                Some(v) => v.spec_bits() == bits,
                None => forall|v: ResourceAlignment| v.spec_bits() != bits,
            },
    {
        if bits == 0 {
            Some(ResourceAlignment::Default)
        } else if bits == 0x1000 {
            Some(ResourceAlignment::FourKb)
        } else if bits == 0x1_0000 {
            Some(ResourceAlignment::SixtyFourKb)
        } else if bits == 0x40_0000 {
            Some(ResourceAlignment::FourMb)
        } else {
            None
        }
    }
}

impl Default for ResourceAlignment {
    /// The alignment that the native layer picks.
    fn default() -> (r: ResourceAlignment)
        ensures
            r == ResourceAlignment::Default,
    {
        ResourceAlignment::Default
    }
}

impl ResourceAlignment {
    /// The number of bytes to which offsets must be aligned. The default
    /// counts as 64 kibibytes.
    pub open spec fn spec_byte_value(self) -> u64 {
        match self {
            ResourceAlignment::Default => 0x1_0000,
            ResourceAlignment::FourKb => 0x1000,
            ResourceAlignment::SixtyFourKb => 0x1_0000,
            ResourceAlignment::FourMb => 0x40_0000,
        }
    }

    /// The number of bytes to which offsets must be aligned.
    pub fn byte_value(self) -> (r: u64)
        ensures
            r == self.spec_byte_value(),
            r > 0,
    {
        match self {
            ResourceAlignment::Default => 0x1_0000,
            ResourceAlignment::FourKb => 0x1000,
            ResourceAlignment::SixtyFourKb => 0x1_0000,
            ResourceAlignment::FourMb => 0x40_0000,
        }
    }
}

/// The kind of a resource.
#[derive(Clone, Copy, Debug, PartialEq, Eq, Hash, Structural)]
pub enum ResourceDimension {
    /// No kind.
    Unknown,
    /// A buffer.
    Buffer,
    /// A one-dimensional texture.
    Texture1D,
    /// A two-dimensional texture.
    Texture2D,
    /// A three-dimensional texture.
    Texture3D,
}

impl ResourceDimension {
    /// The native number of the value.
    pub open spec fn spec_bits(self) -> u32 {
        match self {
            ResourceDimension::Unknown => 0,
            ResourceDimension::Buffer => 1,
            ResourceDimension::Texture1D => 2,
            ResourceDimension::Texture2D => 3,
            ResourceDimension::Texture3D => 4,
        }
    }

    /// The native number of the value.
    pub fn bits(self) -> (r: u32)
        ensures
            r == self.spec_bits(),
    {
        match self {
            ResourceDimension::Unknown => 0,
            ResourceDimension::Buffer => 1,
            ResourceDimension::Texture1D => 2,
            ResourceDimension::Texture2D => 3,
            ResourceDimension::Texture3D => 4,
        }
    }

    /// The value with the native number `bits`, if there is one.
    pub fn from_bits(bits: u32) -> (r: Option<ResourceDimension>)
        ensures
            match r {
                Some(v) => v.spec_bits() == bits,
                None => forall|v: ResourceDimension| v.spec_bits() != bits,
            },
    {
        if bits == 0 {
            Some(ResourceDimension::Unknown)
        } else if bits == 1 {
            Some(ResourceDimension::Buffer)
        } else if bits == 2 {
            Some(ResourceDimension::Texture1D)
        } else if bits == 3 {
            Some(ResourceDimension::Texture2D)
        } else if bits == 4 {
            Some(ResourceDimension::Texture3D)
        } else {
            None
        }
    }
}

/// How the texels of a texture are laid out in memory.
#[derive(Clone, Copy, Debug, PartialEq, Eq, Hash, Structural)]
pub enum TextureLayout {
    /// The driver chooses the layout when the resource is created.
    Unknown,
    /// Row after row. Buffers have this layout.
    RowMajor,
    /// Swizzled in 64 kibibyte tiles, in an order that the adapter chooses.
    UndefinedSwizzle,
    /// Swizzled in 64 kibibyte tiles, in the standard order.
    StandardSwizzle,
}

impl TextureLayout {
    /// The native number of the value.
    pub open spec fn spec_bits(self) -> u32 {
        match self {
            TextureLayout::Unknown => 0,
            TextureLayout::RowMajor => 1,
            TextureLayout::UndefinedSwizzle => 2,
            TextureLayout::StandardSwizzle => 3,
        }
    }

    /// The native number of the value.
    pub fn bits(self) -> (r: u32)
        ensures
            r == self.spec_bits(),
    {
        match self {
            TextureLayout::Unknown => 0,
            TextureLayout::RowMajor => 1,
            TextureLayout::UndefinedSwizzle => 2,
            TextureLayout::StandardSwizzle => 3,
        }
    }

    /// The value with the native number `bits`, if there is one.
    pub fn from_bits(bits: u32) -> (r: Option<TextureLayout>)
        ensures
            match r {
                Some(v) => v.spec_bits() == bits,
                None => forall|v: TextureLayout| v.spec_bits() != bits,
            },
    {
        if bits == 0 {
            Some(TextureLayout::Unknown)
        } else if bits == 1 {
            Some(TextureLayout::RowMajor)
        } else if bits == 2 {
            Some(TextureLayout::UndefinedSwizzle)
        } else if bits == 3 {
            Some(TextureLayout::StandardSwizzle)
        } else {
            None
        }
    }
}

impl Default for TextureLayout {
    /// The layout that the driver chooses.
    fn default() -> (r: TextureLayout)
        ensures
            r == TextureLayout::Unknown,
    {
        TextureLayout::Unknown
    }
}

/// Options of a resource.
#[derive(Clone, Copy, Debug, PartialEq, Eq, Hash, Structural)]
pub struct ResourceFlags {
    pub bits: u32,
}

impl ResourceFlags {
    /// No option.
    pub const NONE: u32 = 0;

    /// The resource may be used as a render target.
    pub const ALLOW_RENDER_TARGET: u32 = 0x1;

    /// The resource may be used as a depth stencil buffer.
    pub const ALLOW_DEPTH_STENCIL: u32 = 0x2;

    /// The resource may be reached through an unordered access view.
    pub const ALLOW_UNORDERED_ACCESS: u32 = 0x4;

    /// No shader resource view may be made of the resource.
    pub const DENY_SHADER_RESOURCE: u32 = 0x8;

    /// The resource may hold data that crosses adapters.
    pub const ALLOW_CROSS_ADAPTER: u32 = 0x10;

    /// Several queues may use the resource at once.
    pub const ALLOW_SIMULTANEOUS_ACCESS: u32 = 0x20;

    /// Every bit that names a flag.
    pub const ALL: u32 = 0x3f;

    /// Whether every flag of `other` is among the flags of `self`.
    pub open spec fn spec_contains(self, other: ResourceFlags) -> bool {
        self.bits & other.bits == other.bits
    }

    /// Whether only bits that name a flag are set.
    pub open spec fn is_known(self) -> bool {
        self.bits & !ResourceFlags::ALL == 0
    }

    /// No flag.
    pub fn empty() -> (r: ResourceFlags)
        ensures
            r.bits == 0,
    {
        ResourceFlags { bits: 0 }
    }

    /// The bits.
    pub fn bits(&self) -> (r: u32)
        ensures
            r == self.bits,
    {
        self.bits
    }

    /// The flags that `bits` names, or nothing where a bit names no flag.
    pub fn from_bits(bits: u32) -> (r: Option<ResourceFlags>)
        ensures
            r == (if (ResourceFlags { bits }).is_known() {
                Some(ResourceFlags { bits })
            } else {
                None
            }),
    {
        if bits & !ResourceFlags::ALL == 0 {
            Some(ResourceFlags { bits })
        } else {
            None
        }
    }

    /// The flags that `bits` names, without the bits that name none.
    pub fn from_bits_truncate(bits: u32) -> (r: ResourceFlags)
        ensures
            r.bits == bits & ResourceFlags::ALL,
    {
        ResourceFlags { bits: bits & ResourceFlags::ALL }
    }

    /// Whether no flag is set.
    pub fn is_empty(&self) -> (r: bool)
        ensures
            r == (self.bits == 0),
    {
        self.bits == 0
    }

    /// Whether every flag of `other` is among the flags of `self`.
    pub fn contains(&self, other: ResourceFlags) -> (r: bool)
        ensures
            r == self.spec_contains(other),
    {
        self.bits & other.bits == other.bits
    }

    /// The flags of either.
    pub fn union(self, other: ResourceFlags) -> (r: ResourceFlags)
        ensures
            r.bits == self.bits | other.bits,
    {
        ResourceFlags { bits: self.bits | other.bits }
    }

    /// The flags of both.
    pub fn intersection(self, other: ResourceFlags) -> (r: ResourceFlags)
        ensures
            r.bits == self.bits & other.bits,
    {
        ResourceFlags { bits: self.bits & other.bits }
    }

    /// The flags of `self` that are not flags of `other`.
    pub fn difference(self, other: ResourceFlags) -> (r: ResourceFlags)
        ensures
            r.bits == self.bits & !other.bits,
    {
        ResourceFlags { bits: self.bits & !other.bits }
    }
}

impl Default for ResourceFlags {
    /// No option.
    fn default() -> (r: ResourceFlags)
        ensures
            r.bits == 0,
    {
        ResourceFlags { bits: 0 }
    }
}

/// The shape of a resource, whatever memory backs it.
#[derive(Copy, Clone, Debug, PartialEq, Eq, Structural)]
pub struct ResourceDesc {
    pub dimension: ResourceDimension,
    pub alignment: ResourceAlignment,
    pub width: u64,
    pub height: u32,
    pub depth: u16,
    pub mip_levels: u16,
    pub format: DxgiFormat,
    pub sample_desc: SampleDesc,
    pub layout: TextureLayout,
    pub flags: ResourceFlags,
}

impl ResourceDesc {
    /// What can be checked of a description without asking a driver: it has a
    /// kind, no extent is zero, and a buffer is one row of bytes without a
    /// format.
    pub open spec fn well_formed(&self) -> bool {
        &&& self.dimension != ResourceDimension::Unknown
        &&& self.width > 0
        &&& self.height > 0
        &&& self.depth > 0
        &&& self.dimension == ResourceDimension::Buffer ==> {
            &&& self.height == 1
            &&& self.depth == 1
            &&& self.mip_levels == 1
            &&& self.format == DXGI_FORMAT_UNKNOWN
            &&& self.layout == TextureLayout::RowMajor
        }
        &&& self.dimension == ResourceDimension::Texture1D ==> self.height == 1
    }

    /// Describes a buffer of `size` bytes.
    pub fn buffer(size: u64, flags: ResourceFlags) -> (r: ResourceDesc)
        ensures
            r == (ResourceDesc {
                dimension: ResourceDimension::Buffer,
                alignment: ResourceAlignment::Default,
                width: size,
                height: 1,
                depth: 1,
                mip_levels: 1,
                format: DXGI_FORMAT_UNKNOWN,
                sample_desc: SampleDesc { count: 1, quality: 0 },
                layout: TextureLayout::RowMajor,
                flags,
            }),
    {
        ResourceDesc {
            dimension: ResourceDimension::Buffer,
            alignment: ResourceAlignment::Default,
            width: size,
            height: 1,
            depth: 1,
            mip_levels: 1,
            format: DXGI_FORMAT_UNKNOWN,
            sample_desc: SampleDesc { count: 1, quality: 0 },
            layout: TextureLayout::RowMajor,
            flags,
        }
    }

    /// Describes an array of `array_size` one-dimensional textures.
    pub fn tex1d(
        length: u64,
        array_size: u16,
        mip_levels: u16,
        format: DxgiFormat,
        flags: ResourceFlags,
        alignment: ResourceAlignment,
    ) -> (r: ResourceDesc)
        ensures
            r == (ResourceDesc {
                dimension: ResourceDimension::Texture1D,
                alignment,
                width: length,
                height: 1,
                depth: array_size,
                mip_levels,
                format,
                sample_desc: SampleDesc { count: 1, quality: 0 },
                layout: TextureLayout::Unknown,
                flags,
            }),
    {
        ResourceDesc {
            dimension: ResourceDimension::Texture1D,
            alignment,
            width: length,
            height: 1,
            depth: array_size,
            mip_levels,
            format,
            sample_desc: SampleDesc { count: 1, quality: 0 },
            layout: TextureLayout::Unknown,
            flags,
        }
    }

    /// Describes an array of `array_size` two-dimensional textures.
    pub fn tex2d(
        width: u64,
        height: u32,
        array_size: u16,
        mip_levels: u16,
        format: DxgiFormat,
        flags: ResourceFlags,
        alignment: ResourceAlignment,
    ) -> (r: ResourceDesc)
        ensures
            r == (ResourceDesc {
                dimension: ResourceDimension::Texture2D,
                alignment,
                width,
                height,
                depth: array_size,
                mip_levels,
                format,
                sample_desc: SampleDesc { count: 1, quality: 0 },
                layout: TextureLayout::Unknown,
                flags,
            }),
    {
        ResourceDesc {
            dimension: ResourceDimension::Texture2D,
            alignment,
            width,
            height,
            depth: array_size,
            mip_levels,
            format,
            sample_desc: SampleDesc { count: 1, quality: 0 },
            layout: TextureLayout::Unknown,
            flags,
        }
    }

    /// Describes a three-dimensional texture.
    pub fn tex3d(
        width: u64,
        height: u32,
        depth: u16,
        mip_levels: u16,
        format: DxgiFormat,
        flags: ResourceFlags,
        alignment: ResourceAlignment,
    ) -> (r: ResourceDesc)
        ensures
            r == (ResourceDesc {
                dimension: ResourceDimension::Texture3D,
                alignment,
                width,
                height,
                depth,
                mip_levels,
                format,
                sample_desc: SampleDesc { count: 1, quality: 0 },
                layout: TextureLayout::Unknown,
                flags,
            }),
    {
        ResourceDesc {
            dimension: ResourceDimension::Texture3D,
            alignment,
            width,
            height,
            depth,
            mip_levels,
            format,
            sample_desc: SampleDesc { count: 1, quality: 0 },
            layout: TextureLayout::Unknown,
            flags,
        }
    }

    /// Whether the description passes the checks that need no driver.
    pub fn is_well_formed(&self) -> (r: bool)
        ensures
            r == self.well_formed(),
    {
        let extents = self.width > 0 && self.height > 0 && self.depth > 0;
        match self.dimension {
            ResourceDimension::Unknown => false,
            ResourceDimension::Buffer => {
                extents && self.height == 1 && self.depth == 1 && self.mip_levels == 1
                    && self.format == DXGI_FORMAT_UNKNOWN && self.layout
                    == TextureLayout::RowMajor
            },
            ResourceDimension::Texture1D => extents && self.height == 1,
            ResourceDimension::Texture2D => extents,
            ResourceDimension::Texture3D => extents,
        }
    }

    /// Whether the resource is multisampled.
    pub fn is_multisampled(&self) -> (r: bool)
        ensures
            r == (self.sample_desc.count > 1),
    {
        self.sample_desc.count > 1
    }
}

/// A buffer description is a single row without a format, whatever its size
/// and flags, and it is well formed exactly when its size is not zero.
pub proof fn lemma_buffer_desc(size: u64, flags: ResourceFlags, desc: ResourceDesc)
    requires
        desc == (ResourceDesc {
            dimension: ResourceDimension::Buffer,
            alignment: ResourceAlignment::Default,
            width: size,
            height: 1,
            depth: 1,
            mip_levels: 1,
            format: DXGI_FORMAT_UNKNOWN,
            sample_desc: SampleDesc { count: 1, quality: 0 },
            layout: TextureLayout::RowMajor,
            flags,
        }),
    ensures
        desc.height == 1,
        desc.depth == 1,
        desc.mip_levels == 1,
        desc.format == DXGI_FORMAT_UNKNOWN,
        desc.layout == TextureLayout::RowMajor,
        desc.well_formed() <==> size > 0,
{
}

} // verus!
