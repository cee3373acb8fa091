//! Descriptions of depth stencil views.

use vstd::prelude::*;
use crate::format::DxgiFormat;

verus! {

/// Which parts of a depth stencil view are read only. A read only part may
/// be bound through several views at once.
#[derive(Clone, Copy, Debug, PartialEq, Eq, Hash, Structural)]
pub struct DsvFlags {
    pub bits: u32,
}

impl DsvFlags {
    /// Nothing is read only.
    pub const NONE: u32 = 0;

    /// The depth is read only.
    pub const READ_ONLY_DEPTH: u32 = 0x1;

    /// The stencil is read only.
    pub const READ_ONLY_STENCIL: u32 = 0x2;

    /// Every bit that names a flag.
    pub const ALL: u32 = 0x3;

    /// Whether every flag of `other` is among the flags of `self`.
    pub open spec fn spec_contains(self, other: DsvFlags) -> bool {
        self.bits & other.bits == other.bits
    }

    /// Whether only bits that name a flag are set.
    pub open spec fn is_known(self) -> bool {
        self.bits & !DsvFlags::ALL == 0
    }

    /// No flag.
    pub fn empty() -> (r: DsvFlags)
        ensures
            r.bits == 0,
    {
        DsvFlags { bits: 0 }
    }

    /// The bits.
    pub fn bits(&self) -> (r: u32)
        ensures
            r == self.bits,
    {
        self.bits
    }

    /// The flags that `bits` names, or nothing where a bit names no flag.
    pub fn from_bits(bits: u32) -> (r: Option<DsvFlags>)
        ensures
            r == (if (DsvFlags { bits }).is_known() {
                Some(DsvFlags { bits })
            } else {
                None
            }),
    {
        if bits & !DsvFlags::ALL == 0 {
            Some(DsvFlags { bits })
        } else {
            None
        }
    }

    /// The flags that `bits` names, without the bits that name none.
    pub fn from_bits_truncate(bits: u32) -> (r: DsvFlags)
        ensures
            r.bits == bits & DsvFlags::ALL,
    {
        DsvFlags { bits: bits & DsvFlags::ALL }
    }

    /// Whether no flag is set.
    pub fn is_empty(&self) -> (r: bool)
        ensures
            r == (self.bits == 0),
    {
        self.bits == 0
    }

    /// Whether every flag of `other` is among the flags of `self`.
    pub fn contains(&self, other: DsvFlags) -> (r: bool)
        ensures
            r == self.spec_contains(other),
    {
        self.bits & other.bits == other.bits
    }

    /// The flags of either.
    pub fn union(self, other: DsvFlags) -> (r: DsvFlags)
        ensures
            r.bits == self.bits | other.bits,
    {
        DsvFlags { bits: self.bits | other.bits }
    }
}

impl Default for DsvFlags {
    /// Nothing is read only.
    fn default() -> (r: DsvFlags)
        ensures
            r.bits == 0,
    {
        DsvFlags { bits: 0 }
    }
}

/// A view of a one-dimensional texture.
#[derive(Copy, Clone, Debug, PartialEq, Eq, Structural)]
pub struct DsvTex1DDesc {
    /// The index of the mipmap slice to use.
    pub mip_slice: u32,
}

/// A view of an array of one-dimensional textures.
#[derive(Copy, Clone, Debug, PartialEq, Eq, Structural)]
pub struct DsvTex1DArrayDesc {
    /// The index of the mipmap slice to use.
    pub mip_slice: u32,
    /// The first array slice to use.
    pub first_slice: u32,
    /// The number of slices in the array.
    pub array_size: u32,
}

/// A view of a two-dimensional texture.
#[derive(Copy, Clone, Debug, PartialEq, Eq, Structural)]
pub struct DsvTex2DDesc {
    /// The index of the mipmap slice to use.
    pub mip_slice: u32,
}

/// A view of an array of two-dimensional textures.
#[derive(Copy, Clone, Debug, PartialEq, Eq, Structural)]
pub struct DsvTex2DArrayDesc {
    /// The index of the mipmap slice to use.
    pub mip_slice: u32,
    /// The first array slice to use.
    pub first_slice: u32,
    /// The number of slices in the array.
    pub array_size: u32,
}

/// A view of an array of multisampled two-dimensional textures.
#[derive(Copy, Clone, Debug, PartialEq, Eq, Structural)]
pub struct DsvTex2DMsArrayDesc {
    /// The first array slice to use.
    pub first_slice: u32,
    /// The number of slices in the array.
    pub array_size: u32,
}

/// What a depth stencil view looks at.
#[derive(Copy, Clone, Debug, PartialEq, Eq, Structural)]
pub enum DsvDimension {
    /// A one-dimensional texture.
    Tex1D(DsvTex1DDesc),
    /// An array of one-dimensional textures.
    Tex1DArray(DsvTex1DArrayDesc),
    /// A two-dimensional texture.
    Tex2D(DsvTex2DDesc),
    /// An array of two-dimensional textures.
    Tex2DArray(DsvTex2DArrayDesc),
    /// A multisampled two-dimensional texture.
    Tex2DMs,
    /// An array of multisampled two-dimensional textures.
    Tex2DMsArray(DsvTex2DMsArrayDesc),
}

impl DsvDimension {
    /// The native number of the kind of view.
    pub open spec fn spec_view_dimension(self) -> u32 {
        match self {
            DsvDimension::Tex1D(_) => 1,
            DsvDimension::Tex1DArray(_) => 2,
            DsvDimension::Tex2D(_) => 3,
            DsvDimension::Tex2DArray(_) => 4,
            DsvDimension::Tex2DMs => 5,
            DsvDimension::Tex2DMsArray(_) => 6,
        }
    }

    /// The fields of the view as three words: each field in its turn, a 64-bit
    /// field as its low word and then its high word, and zeros to the end.
    pub open spec fn spec_words(self) -> Seq<u32> {
        match self {
            DsvDimension::Tex1D(c) => seq![c.mip_slice, 0, 0],
            DsvDimension::Tex1DArray(c) => seq![c.mip_slice, c.first_slice, c.array_size],
            DsvDimension::Tex2D(c) => seq![c.mip_slice, 0, 0],
            DsvDimension::Tex2DArray(c) => seq![c.mip_slice, c.first_slice, c.array_size],
            DsvDimension::Tex2DMs => seq![0, 0, 0],
            DsvDimension::Tex2DMsArray(c) => seq![c.first_slice, c.array_size, 0],
        }
    }

    /// The native number of the kind of view.
    pub fn view_dimension(&self) -> (r: u32)
        ensures
            r == self.spec_view_dimension(),
    {
        match self {
            DsvDimension::Tex1D(_) => 1,
            DsvDimension::Tex1DArray(_) => 2,
            DsvDimension::Tex2D(_) => 3,
            DsvDimension::Tex2DArray(_) => 4,
            DsvDimension::Tex2DMs => 5,
            DsvDimension::Tex2DMsArray(_) => 6,
        }
    }

    /// The fields of the view as words.
    pub fn words(&self) -> (r: [u32; 3])
        ensures
            r@ == self.spec_words(),
    {
        let r: [u32; 3] = match self {
            DsvDimension::Tex1D(c) => [c.mip_slice, 0, 0],
            DsvDimension::Tex1DArray(c) => [c.mip_slice, c.first_slice, c.array_size],
            DsvDimension::Tex2D(c) => [c.mip_slice, 0, 0],
            DsvDimension::Tex2DArray(c) => [c.mip_slice, c.first_slice, c.array_size],
            DsvDimension::Tex2DMs => [0, 0, 0],
            DsvDimension::Tex2DMsArray(c) => [c.first_slice, c.array_size, 0],
        };
        assert(r@ =~= self.spec_words());
        r
    }
}

/// Describes a depth stencil view.
#[derive(Copy, Clone, Debug, PartialEq, Eq, Structural)]
pub struct DsvDesc {
    pub format: DxgiFormat,
    pub flags: DsvFlags,
    pub dimension: DsvDimension,
}

/// A depth stencil view as the native layer reads it: the fields of the
/// view are the words of `a`.
#[derive(Copy, Clone, Debug, PartialEq, Eq)]
pub struct DsvDescBindHelper {
    pub format: DxgiFormat,
    pub view_dimension: u32,
    pub flags: DsvFlags,
    pub a: [u32; 3],
}

impl DsvDesc {
    /// Whether `helper` is the description as the native layer reads it.
    pub open spec fn laid_out_as(self, helper: DsvDescBindHelper) -> bool {
        &&& helper.format == self.format
        &&& helper.flags == self.flags
        &&& helper.view_dimension == self.dimension.spec_view_dimension()
        &&& helper.a@ == self.dimension.spec_words()
    }

    /// Lays the description out as the native layer reads it.
    pub fn into_cstruct(self) -> (r: DsvDescBindHelper)
        ensures
            self.laid_out_as(r),
    {
        DsvDescBindHelper {
            format: self.format,
            view_dimension: self.dimension.view_dimension(),
            flags: self.flags,
            a: self.dimension.words(),
        }
    }
}

} // verus!
