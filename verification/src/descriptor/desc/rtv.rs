//! Descriptions of render target views.

use vstd::prelude::*;
use crate::descriptor::desc::{hi32, high_word, lo32, low_word};
use crate::format::DxgiFormat;

verus! {

/// A view of a buffer.
#[derive(Copy, Clone, Debug, PartialEq, Eq, Structural)]
pub struct RtvBufferDesc {
    /// The first element that the view reaches.
    pub offset: u64,
    /// The number of elements.
    pub num_elements: u32,
}

/// A view of a one-dimensional texture.
#[derive(Copy, Clone, Debug, PartialEq, Eq, Structural)]
pub struct RtvTex1DDesc {
    /// The index of the mipmap slice to use.
    pub mip_slice: u32,
}

/// A view of an array of one-dimensional textures.
#[derive(Copy, Clone, Debug, PartialEq, Eq, Structural)]
pub struct RtvTex1DArrayDesc {
    /// The index of the mipmap slice to use.
    pub mip_slice: u32,
    /// The first array slice to use.
    pub first_slice: u32,
    /// The number of slices in the array.
    pub array_size: u32,
}

/// A view of a two-dimensional texture.
#[derive(Copy, Clone, Debug, PartialEq, Eq, Structural)]
pub struct RtvTex2DDesc {
    /// The index of the mipmap slice to use.
    pub mip_slice: u32,
    /// The index of the plane slice to use.
    pub plane_slice: u32,
}

/// A view of an array of two-dimensional textures.
#[derive(Copy, Clone, Debug, PartialEq, Eq, Structural)]
pub struct RtvTex2DArrayDesc {
    /// The index of the mipmap slice to use.
    pub mip_slice: u32,
    /// The first array slice to use.
    pub first_slice: u32,
    /// The number of slices in the array.
    pub array_size: u32,
    /// The index of the plane slice to use.
    pub plane_slice: u32,
}

/// A view of an array of multisampled two-dimensional textures.
#[derive(Copy, Clone, Debug, PartialEq, Eq, Structural)]
pub struct RtvTex2DMsArrayDesc {
    /// The first array slice to use.
    pub first_slice: u32,
    /// The number of slices in the array.
    pub array_size: u32,
}

/// A view of a three-dimensional texture.
#[derive(Copy, Clone, Debug, PartialEq, Eq, Structural)]
pub struct RtvTex3DDesc {
    /// The index of the mipmap slice to use.
    pub mip_slice: u32,
    /// The first depth level to use.
    pub first_slice: u32,
    /// The number of depth levels to use.
    pub num_slices: u32,
}

/// What a render target view looks at.
#[derive(Copy, Clone, Debug, PartialEq, Eq, Structural)]
pub enum RtvDimension {
    /// A buffer.
    Buffer(RtvBufferDesc),
    /// A one-dimensional texture.
    Tex1D(RtvTex1DDesc),
    /// An array of one-dimensional textures.
    Tex1DArray(RtvTex1DArrayDesc),
    /// A two-dimensional texture.
    Tex2D(RtvTex2DDesc),
    /// An array of two-dimensional textures.
    Tex2DArray(RtvTex2DArrayDesc),
    /// A multisampled two-dimensional texture.
    Tex2DMs,
    /// An array of multisampled two-dimensional textures.
    Tex2DMsArray(RtvTex2DMsArrayDesc),
    /// A three-dimensional texture.
    Tex3D(RtvTex3DDesc),
}

impl RtvDimension {
    /// The native number of the kind of view.
    pub open spec fn spec_view_dimension(self) -> u32 {
        match self {
            RtvDimension::Buffer(_) => 1,
            RtvDimension::Tex1D(_) => 2,
            RtvDimension::Tex1DArray(_) => 3,
            RtvDimension::Tex2D(_) => 4,
            RtvDimension::Tex2DArray(_) => 5,
            RtvDimension::Tex2DMs => 6,
            RtvDimension::Tex2DMsArray(_) => 7,
            RtvDimension::Tex3D(_) => 8,
        }
    }

    /// The fields of the view as four words: each field in its turn, a 64-bit
    /// field as its low word and then its high word, and zeros to the end.
    pub open spec fn spec_words(self) -> Seq<u32> {
        match self {
            RtvDimension::Buffer(c) => seq![lo32(c.offset), hi32(c.offset), c.num_elements, 0],
            RtvDimension::Tex1D(c) => seq![c.mip_slice, 0, 0, 0],
            RtvDimension::Tex1DArray(c) => seq![c.mip_slice, c.first_slice, c.array_size, 0],
            RtvDimension::Tex2D(c) => seq![c.mip_slice, c.plane_slice, 0, 0],
            RtvDimension::Tex2DArray(c) => seq![c.mip_slice, c.first_slice, c.array_size, c.plane_slice],
            RtvDimension::Tex2DMs => seq![0, 0, 0, 0],
            RtvDimension::Tex2DMsArray(c) => seq![c.first_slice, c.array_size, 0, 0],
            RtvDimension::Tex3D(c) => seq![c.mip_slice, c.first_slice, c.num_slices, 0],
        }
    }

    /// The native number of the kind of view.
    pub fn view_dimension(&self) -> (r: u32)
        ensures
            r == self.spec_view_dimension(),
    {
        match self {
            RtvDimension::Buffer(_) => 1,
            RtvDimension::Tex1D(_) => 2,
            RtvDimension::Tex1DArray(_) => 3,
            RtvDimension::Tex2D(_) => 4,
            RtvDimension::Tex2DArray(_) => 5,
            RtvDimension::Tex2DMs => 6,
            RtvDimension::Tex2DMsArray(_) => 7,
            RtvDimension::Tex3D(_) => 8,
        }
    }

    /// The fields of the view as words.
    pub fn words(&self) -> (r: [u32; 4])
        ensures
            r@ == self.spec_words(),
    {
        let r: [u32; 4] = match self {
            RtvDimension::Buffer(c) => [low_word(c.offset), high_word(c.offset), c.num_elements, 0],
            RtvDimension::Tex1D(c) => [c.mip_slice, 0, 0, 0],
            RtvDimension::Tex1DArray(c) => [c.mip_slice, c.first_slice, c.array_size, 0],
            RtvDimension::Tex2D(c) => [c.mip_slice, c.plane_slice, 0, 0],
            RtvDimension::Tex2DArray(c) => [c.mip_slice, c.first_slice, c.array_size, c.plane_slice],
            RtvDimension::Tex2DMs => [0, 0, 0, 0],
            RtvDimension::Tex2DMsArray(c) => [c.first_slice, c.array_size, 0, 0],
            RtvDimension::Tex3D(c) => [c.mip_slice, c.first_slice, c.num_slices, 0],
        };
        assert(r@ =~= self.spec_words());
        r
    }
}

/// Describes a render target view.
#[derive(Copy, Clone, Debug, PartialEq, Eq, Structural)]
pub struct RtvDesc {
    pub format: DxgiFormat,
    pub dimension: RtvDimension,
}

/// A render target view as the native layer reads it: the fields of the
/// view are the words of `a`.
#[derive(Copy, Clone, Debug, PartialEq, Eq)]
pub struct RtvDescBindHelper {
    pub format: DxgiFormat,
    pub view_dimension: u32,
    pub a: [u32; 4],
}

impl RtvDesc {
    /// Whether `helper` is the description as the native layer reads it.
    pub open spec fn laid_out_as(self, helper: RtvDescBindHelper) -> bool {
        &&& helper.format == self.format
        &&& helper.view_dimension == self.dimension.spec_view_dimension()
        &&& helper.a@ == self.dimension.spec_words()
    }

    /// Lays the description out as the native layer reads it.
    pub fn into_cstruct(self) -> (r: RtvDescBindHelper)
        ensures
            self.laid_out_as(r),
    {
        RtvDescBindHelper {
            format: self.format,
            view_dimension: self.dimension.view_dimension(),
            a: self.dimension.words(),
        }
    }
}

} // verus!
