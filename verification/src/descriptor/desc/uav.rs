//! Descriptions of unordered access views.

use vstd::prelude::*;
use crate::descriptor::desc::{hi32, high_word, lo32, low_word};
use crate::format::DxgiFormat;

verus! {

/// A view of a buffer.
#[derive(Copy, Clone, Debug, PartialEq, Eq, Structural)]
pub struct UavBufferDesc {
    /// The first element that the view reaches.
    pub offset: u64,
    /// The number of elements.
    pub num_elements: u32,
    /// The size of each element in bytes.
    pub byte_stride: u32,
    /// The offset of the counter in bytes; zero where there is none.
    pub counter_offset: u64,
    /// One for a raw buffer, zero otherwise.
    pub raw: u32,
}

/// A view of a one-dimensional texture.
#[derive(Copy, Clone, Debug, PartialEq, Eq, Structural)]
pub struct UavTex1DDesc {
    /// The index of the mipmap slice to use.
    pub mip_slice: u32,
}

/// A view of an array of one-dimensional textures.
#[derive(Copy, Clone, Debug, PartialEq, Eq, Structural)]
pub struct UavTex1DArrayDesc {
    /// The index of the mipmap slice to use.
    pub mip_slice: u32,
    /// The first array slice to use.
    pub first_slice: u32,
    /// The number of slices in the array.
    pub array_size: u32,
}

/// A view of a two-dimensional texture.
#[derive(Copy, Clone, Debug, PartialEq, Eq, Structural)]
pub struct UavTex2DDesc {
    /// The index of the mipmap slice to use.
    pub mip_slice: u32,
    /// The index of the plane slice to use.
    pub plane_slice: u32,
}

/// A view of an array of two-dimensional textures.
#[derive(Copy, Clone, Debug, PartialEq, Eq, Structural)]
pub struct UavTex2DArrayDesc {
    /// The index of the mipmap slice to use.
    pub mip_slice: u32,
    /// The first array slice to use.
    pub first_slice: u32,
    /// The number of slices in the array.
    pub array_size: u32,
    /// The index of the plane slice to use.
    pub plane_slice: u32,
}

/// A view of a three-dimensional texture.
#[derive(Copy, Clone, Debug, PartialEq, Eq, Structural)]
pub struct UavTex3DDesc {
    /// The index of the mipmap slice to use.
    pub mip_slice: u32,
    /// The first depth level to use.
    pub first_slice: u32,
    /// The number of depth levels to use.
    pub num_slices: u32,
}

/// What a unordered access view looks at.
#[derive(Copy, Clone, Debug, PartialEq, Eq, Structural)]
pub enum UavDimension {
    /// Nothing.
    Unknown,
    /// A buffer.
    Buffer(UavBufferDesc),
    /// A one-dimensional texture.
    Tex1D(UavTex1DDesc),
    /// An array of one-dimensional textures.
    Tex1DArray(UavTex1DArrayDesc),
    /// A two-dimensional texture.
    Tex2D(UavTex2DDesc),
    /// An array of two-dimensional textures.
    Tex2DArray(UavTex2DArrayDesc),
    /// A three-dimensional texture.
    Tex3D(UavTex3DDesc),
}

impl UavDimension {
    /// The native number of the kind of view.
    pub open spec fn spec_view_dimension(self) -> u32 {
        match self {
            UavDimension::Unknown => 0,
            UavDimension::Buffer(_) => 1,
            UavDimension::Tex1D(_) => 2,
            UavDimension::Tex1DArray(_) => 3,
            UavDimension::Tex2D(_) => 4,
            UavDimension::Tex2DArray(_) => 5,
            UavDimension::Tex3D(_) => 8,
        }
    }

    /// The fields of the view as eight words: each field in its turn, a 64-bit
    /// field as its low word and then its high word, and zeros to the end.
    pub open spec fn spec_words(self) -> Seq<u32> {
        match self {
            UavDimension::Unknown => seq![0, 0, 0, 0, 0, 0, 0, 0],
            UavDimension::Buffer(c) => seq![lo32(c.offset), hi32(c.offset), c.num_elements, c.byte_stride, lo32(c.counter_offset), hi32(c.counter_offset), c.raw, 0],
            UavDimension::Tex1D(c) => seq![c.mip_slice, 0, 0, 0, 0, 0, 0, 0],
            UavDimension::Tex1DArray(c) => seq![c.mip_slice, c.first_slice, c.array_size, 0, 0, 0, 0, 0],
            UavDimension::Tex2D(c) => seq![c.mip_slice, c.plane_slice, 0, 0, 0, 0, 0, 0],
            UavDimension::Tex2DArray(c) => seq![c.mip_slice, c.first_slice, c.array_size, c.plane_slice, 0, 0, 0, 0],
            UavDimension::Tex3D(c) => seq![c.mip_slice, c.first_slice, c.num_slices, 0, 0, 0, 0, 0],
        }
    }

    /// The native number of the kind of view.
    pub fn view_dimension(&self) -> (r: u32)
        ensures
            r == self.spec_view_dimension(),
    {
        match self {
            UavDimension::Unknown => 0,
            UavDimension::Buffer(_) => 1,
            UavDimension::Tex1D(_) => 2,
            UavDimension::Tex1DArray(_) => 3,
            UavDimension::Tex2D(_) => 4,
            UavDimension::Tex2DArray(_) => 5,
            UavDimension::Tex3D(_) => 8,
        }
    }

    /// The fields of the view as words.
    pub fn words(&self) -> (r: [u32; 8])
        ensures
            r@ == self.spec_words(),
    {
        let r: [u32; 8] = match self {
            UavDimension::Unknown => [0, 0, 0, 0, 0, 0, 0, 0],
            UavDimension::Buffer(c) => [low_word(c.offset), high_word(c.offset), c.num_elements, c.byte_stride, low_word(c.counter_offset), high_word(c.counter_offset), c.raw, 0],
            UavDimension::Tex1D(c) => [c.mip_slice, 0, 0, 0, 0, 0, 0, 0],
            UavDimension::Tex1DArray(c) => [c.mip_slice, c.first_slice, c.array_size, 0, 0, 0, 0, 0],
            UavDimension::Tex2D(c) => [c.mip_slice, c.plane_slice, 0, 0, 0, 0, 0, 0],
            UavDimension::Tex2DArray(c) => [c.mip_slice, c.first_slice, c.array_size, c.plane_slice, 0, 0, 0, 0],
            UavDimension::Tex3D(c) => [c.mip_slice, c.first_slice, c.num_slices, 0, 0, 0, 0, 0],
        };
        assert(r@ =~= self.spec_words());
        r
    }
}

/// Describes a unordered access view.
#[derive(Copy, Clone, Debug, PartialEq, Eq, Structural)]
pub struct UavDesc {
    pub format: DxgiFormat,
    pub dimension: UavDimension,
}

/// An unordered access view as the native layer reads it: the fields of the
/// view are the words of `a`. No components are mapped, so
/// `component_mapping` is zero.
#[derive(Copy, Clone, Debug, PartialEq, Eq)]
pub struct UavDescBindHelper {
    pub format: DxgiFormat,
    pub view_dimension: u32,
    pub component_mapping: u32,
    pub a: [u32; 8],
}

impl UavDesc {
    /// Whether `helper` is the description as the native layer reads it.
    pub open spec fn laid_out_as(self, helper: UavDescBindHelper) -> bool {
        &&& helper.format == self.format
        &&& helper.view_dimension == self.dimension.spec_view_dimension()
        &&& helper.component_mapping == 0
        &&& helper.a@ == self.dimension.spec_words()
    }

    /// Lays the description out as the native layer reads it.
    pub fn into_cstruct(self) -> (r: UavDescBindHelper)
        ensures
            self.laid_out_as(r),
    {
        UavDescBindHelper {
            format: self.format,
            view_dimension: self.dimension.view_dimension(),
            component_mapping: 0,
            a: self.dimension.words(),
        }
    }
}

} // verus!
