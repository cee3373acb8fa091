//! Descriptions of shader resource views.

use vstd::prelude::*;
use crate::descriptor::desc::{
    hi32,
    high_word,
    i32_word,
    lo32,
    low_word,
    word_of_i32,
    Shader4ComponentMapping,
};
use crate::format::DxgiFormat;

verus! {

/// A view of a buffer.
#[derive(Copy, Clone, Debug, PartialEq, Eq, Structural)]
pub struct SrvBufferDesc {
    /// The first element that the view reaches.
    pub offset: u64,
    /// The number of elements.
    pub num_elements: u32,
    /// The size of each element in bytes.
    pub byte_stride: u32,
    /// One for a raw buffer, zero otherwise.
    pub raw: u32,
}

/// A view of a one-dimensional texture.
#[derive(Copy, Clone, Debug, PartialEq, Eq, Structural)]
pub struct SrvTex1DDesc {
    /// The index of the most detailed mipmap to use.
    pub most_detailed_mip: u32,
    /// The number of mipmap levels to use; `-1` for all down to the least detailed.
    pub mip_levels: i32,
    /// The least level of detail that may be sampled, as the bits of a
    /// 32-bit float.
    pub mip_lod_clamp: u32,
}

/// A view of an array of one-dimensional textures.
#[derive(Copy, Clone, Debug, PartialEq, Eq, Structural)]
pub struct SrvTex1DArrayDesc {
    /// The index of the most detailed mipmap to use.
    pub most_detailed_mip: u32,
    /// The number of mipmap levels to use; `-1` for all down to the least detailed.
    pub mip_levels: i32,
    /// The first array slice to use.
    pub first_slice: u32,
    /// The number of slices in the array.
    pub array_size: u32,
    /// The least level of detail that may be sampled, as the bits of a
    /// 32-bit float.
    pub mip_lod_clamp: u32,
}

/// A view of a two-dimensional texture.
#[derive(Copy, Clone, Debug, PartialEq, Eq, Structural)]
pub struct SrvTex2DDesc {
    /// The index of the most detailed mipmap to use.
    pub most_detailed_mip: u32,
    /// The number of mipmap levels to use; `-1` for all down to the least detailed.
    pub mip_levels: i32,
    /// The index of the plane slice to use.
    pub plane_slice: u32,
    /// The least level of detail that may be sampled, as the bits of a
    /// 32-bit float.
    pub mip_lod_clamp: u32,
}

/// A view of an array of two-dimensional textures.
#[derive(Copy, Clone, Debug, PartialEq, Eq, Structural)]
pub struct SrvTex2DArrayDesc {
    /// The index of the most detailed mipmap to use.
    pub most_detailed_mip: u32,
    /// The number of mipmap levels to use; `-1` for all down to the least detailed.
    pub mip_levels: i32,
    /// The first array slice to use.
    pub first_slice: u32,
    /// The number of slices in the array.
    pub array_size: u32,
    /// The index of the plane slice to use.
    pub plane_slice: u32,
    /// The least level of detail that may be sampled, as the bits of a
    /// 32-bit float.
    pub mip_lod_clamp: u32,
}

/// A view of an array of multisampled two-dimensional textures.
#[derive(Copy, Clone, Debug, PartialEq, Eq, Structural)]
pub struct SrvTex2DMsArrayDesc {
    /// The first array slice to use.
    pub first_slice: u32,
    /// The number of slices in the array.
    pub array_size: u32,
}

/// A view of a three-dimensional texture.
#[derive(Copy, Clone, Debug, PartialEq, Eq, Structural)]
pub struct SrvTex3DDesc {
    /// The index of the most detailed mipmap to use.
    pub most_detailed_mip: u32,
    /// The number of mipmap levels to use; `-1` for all down to the least detailed.
    pub mip_levels: i32,
    /// The least level of detail that may be sampled, as the bits of a
    /// 32-bit float.
    pub mip_lod_clamp: u32,
}

/// A view of a cube texture.
#[derive(Copy, Clone, Debug, PartialEq, Eq, Structural)]
pub struct SrvTexCubeDesc {
    /// The index of the most detailed mipmap to use.
    pub most_detailed_mip: u32,
    /// The number of mipmap levels to use; `-1` for all down to the least detailed.
    pub mip_levels: i32,
    /// The least level of detail that may be sampled, as the bits of a
    /// 32-bit float.
    pub mip_lod_clamp: u32,
}

/// A view of an array of cube textures.
#[derive(Copy, Clone, Debug, PartialEq, Eq, Structural)]
pub struct SrvTexCubeArrayDesc {
    /// The index of the most detailed mipmap to use.
    pub most_detailed_mip: u32,
    /// The number of mipmap levels to use; `-1` for all down to the least detailed.
    pub mip_levels: i32,
    /// The first two-dimensional slice to use.
    pub first_slice: u32,
    /// The number of cube textures to use.
    pub num_cubes: u32,
    /// The least level of detail that may be sampled, as the bits of a
    /// 32-bit float.
    pub mip_lod_clamp: u32,
}

/// What a shader resource view looks at.
#[derive(Copy, Clone, Debug, PartialEq, Eq, Structural)]
pub enum SrvDimension {
    /// Nothing.
    Unknown,
    /// A buffer.
    Buffer(SrvBufferDesc),
    /// A one-dimensional texture.
    Tex1D(SrvTex1DDesc),
    /// An array of one-dimensional textures.
    Tex1DArray(SrvTex1DArrayDesc),
    /// A two-dimensional texture.
    Tex2D(SrvTex2DDesc),
    /// An array of two-dimensional textures.
    Tex2DArray(SrvTex2DArrayDesc),
    /// A multisampled two-dimensional texture.
    Tex2DMs,
    /// An array of multisampled two-dimensional textures.
    Tex2DMsArray(SrvTex2DMsArrayDesc),
    /// A three-dimensional texture.
    Tex3D(SrvTex3DDesc),
    /// A cube texture.
    TexCube(SrvTexCubeDesc),
    /// An array of cube textures.
    TexCubeArray(SrvTexCubeArrayDesc),
}

impl SrvDimension {
    /// The native number of the kind of view.
    pub open spec fn spec_view_dimension(self) -> u32 {
        match self {
            SrvDimension::Unknown => 0,
            SrvDimension::Buffer(_) => 1,
            SrvDimension::Tex1D(_) => 2,
            SrvDimension::Tex1DArray(_) => 3,
            SrvDimension::Tex2D(_) => 4,
            SrvDimension::Tex2DArray(_) => 5,
            SrvDimension::Tex2DMs => 6,
            SrvDimension::Tex2DMsArray(_) => 7,
            SrvDimension::Tex3D(_) => 8,
            SrvDimension::TexCube(_) => 9,
            SrvDimension::TexCubeArray(_) => 10,
        }
    }

    /// The fields of the view as six words: each field in its turn, a 64-bit
    /// field as its low word and then its high word, and zeros to the end.
    pub open spec fn spec_words(self) -> Seq<u32> {
        match self {
            SrvDimension::Unknown => seq![0, 0, 0, 0, 0, 0],
            SrvDimension::Buffer(c) => seq![lo32(c.offset), hi32(c.offset), c.num_elements, c.byte_stride, c.raw, 0],
            SrvDimension::Tex1D(c) => seq![c.most_detailed_mip, word_of_i32(c.mip_levels), c.mip_lod_clamp, 0, 0, 0],
            SrvDimension::Tex1DArray(c) => seq![c.most_detailed_mip, word_of_i32(c.mip_levels), c.first_slice, c.array_size, c.mip_lod_clamp, 0],
            SrvDimension::Tex2D(c) => seq![c.most_detailed_mip, word_of_i32(c.mip_levels), c.plane_slice, c.mip_lod_clamp, 0, 0],
            SrvDimension::Tex2DArray(c) => seq![c.most_detailed_mip, word_of_i32(c.mip_levels), c.first_slice, c.array_size, c.plane_slice, c.mip_lod_clamp],
            SrvDimension::Tex2DMs => seq![0, 0, 0, 0, 0, 0],
            SrvDimension::Tex2DMsArray(c) => seq![c.first_slice, c.array_size, 0, 0, 0, 0],
            SrvDimension::Tex3D(c) => seq![c.most_detailed_mip, word_of_i32(c.mip_levels), c.mip_lod_clamp, 0, 0, 0],
            SrvDimension::TexCube(c) => seq![c.most_detailed_mip, word_of_i32(c.mip_levels), c.mip_lod_clamp, 0, 0, 0],
            SrvDimension::TexCubeArray(c) => seq![c.most_detailed_mip, word_of_i32(c.mip_levels), c.first_slice, c.num_cubes, c.mip_lod_clamp, 0],
        }
    }

    /// The native number of the kind of view.
    pub fn view_dimension(&self) -> (r: u32)
        ensures
            r == self.spec_view_dimension(),
    {
        match self {
            SrvDimension::Unknown => 0,
            SrvDimension::Buffer(_) => 1,
            SrvDimension::Tex1D(_) => 2,
            SrvDimension::Tex1DArray(_) => 3,
            SrvDimension::Tex2D(_) => 4,
            SrvDimension::Tex2DArray(_) => 5,
            SrvDimension::Tex2DMs => 6,
            SrvDimension::Tex2DMsArray(_) => 7,
            SrvDimension::Tex3D(_) => 8,
            SrvDimension::TexCube(_) => 9,
            SrvDimension::TexCubeArray(_) => 10,
        }
    }

    /// The fields of the view as words.
    pub fn words(&self) -> (r: [u32; 6])
        ensures
            r@ == self.spec_words(),
    {
        let r: [u32; 6] = match self {
            SrvDimension::Unknown => [0, 0, 0, 0, 0, 0],
            SrvDimension::Buffer(c) => [low_word(c.offset), high_word(c.offset), c.num_elements, c.byte_stride, c.raw, 0],
            SrvDimension::Tex1D(c) => [c.most_detailed_mip, i32_word(c.mip_levels), c.mip_lod_clamp, 0, 0, 0],
            SrvDimension::Tex1DArray(c) => [c.most_detailed_mip, i32_word(c.mip_levels), c.first_slice, c.array_size, c.mip_lod_clamp, 0],
            SrvDimension::Tex2D(c) => [c.most_detailed_mip, i32_word(c.mip_levels), c.plane_slice, c.mip_lod_clamp, 0, 0],
            SrvDimension::Tex2DArray(c) => [c.most_detailed_mip, i32_word(c.mip_levels), c.first_slice, c.array_size, c.plane_slice, c.mip_lod_clamp],
            SrvDimension::Tex2DMs => [0, 0, 0, 0, 0, 0],
            SrvDimension::Tex2DMsArray(c) => [c.first_slice, c.array_size, 0, 0, 0, 0],
            SrvDimension::Tex3D(c) => [c.most_detailed_mip, i32_word(c.mip_levels), c.mip_lod_clamp, 0, 0, 0],
            SrvDimension::TexCube(c) => [c.most_detailed_mip, i32_word(c.mip_levels), c.mip_lod_clamp, 0, 0, 0],
            SrvDimension::TexCubeArray(c) => [c.most_detailed_mip, i32_word(c.mip_levels), c.first_slice, c.num_cubes, c.mip_lod_clamp, 0],
        };
        assert(r@ =~= self.spec_words());
        r
    }
}

/// Describes a shader resource view.
#[derive(Copy, Clone, Debug, PartialEq, Eq, Structural)]
pub struct SrvDesc {
    pub format: DxgiFormat,
    pub component_mapping: Shader4ComponentMapping,
    pub dimension: SrvDimension,
}

/// A shader resource view as the native layer reads it: the fields of the
/// view are the words of `a`.
#[derive(Copy, Clone, Debug, PartialEq, Eq)]
pub struct SrvDescBindHelper {
    pub format: DxgiFormat,
    pub view_dimension: u32,
    pub component_mapping: u32,
    pub a: [u32; 6],
}

impl SrvDesc {
    /// Whether `helper` is the description as the native layer reads it.
    pub open spec fn laid_out_as(self, helper: SrvDescBindHelper) -> bool {
        &&& helper.format == self.format
        &&& helper.component_mapping == self.component_mapping@
        &&& helper.view_dimension == self.dimension.spec_view_dimension()
        &&& helper.a@ == self.dimension.spec_words()
    }

    /// Lays the description out as the native layer reads it.
    pub fn into_cstruct(self) -> (r: SrvDescBindHelper)
        ensures
            self.laid_out_as(r),
    {
        SrvDescBindHelper {
            format: self.format,
            view_dimension: self.dimension.view_dimension(),
            component_mapping: self.component_mapping.into_bits(),
            a: self.dimension.words(),
        }
    }
}

} // verus!
