//! Resources, the heaps that back them, and the barriers between their uses.

use vstd::prelude::*;
use crate::format::DxgiFormat;
use crate::resource::description::ResourceAlignment;
use crate::resource::raw::RawResource;

pub mod state;
pub mod description;
pub mod heap;
pub mod raw;
pub mod committed;
pub mod placed;
pub mod barrier;
pub mod usage;
pub mod traits;
pub mod buffer;
pub mod texture;

verus! {

/// What a resource of some description takes up on a heap, as the native
/// layer reports it.
#[derive(Copy, Clone, Debug, PartialEq, Eq, Structural)]
pub struct ResourceAllocInfo {
    /// The number of bytes that the resource takes up.
    pub size: u64,
    /// The alignment that its offset on the heap must have.
    pub alignment: ResourceAlignment,
}

/// Where the texels of a subresource lie within a buffer.
#[derive(Copy, Clone, Debug, PartialEq, Eq, Structural)]
pub struct PlacedSubresourceFootprint {
    /// The offset within the parent resource.
    pub offset: u64,
    pub format: DxgiFormat,
    pub width: u32,
    pub height: u32,
    pub depth: u32,
    pub row_pitch: u32,
}

/// How one end of a texture copy is addressed.
#[derive(Copy, Clone, Debug, PartialEq, Eq, Structural)]
pub enum TextureCopyType {
    /// By the index of a subresource of a texture.
    SubresourceIndex(u32),
    /// By a footprint within a buffer.
    PlacedFootprint(PlacedSubresourceFootprint),
}

/// The native number of a copy location that names a subresource.
pub const TEXTURE_COPY_TYPE_SUBRESOURCE_INDEX: u32 = 0;

/// The native number of a copy location that names a footprint.
pub const TEXTURE_COPY_TYPE_PLACED_FOOTPRINT: u32 = 1;

/// One end of a texture copy.
#[derive(Copy, Clone, Debug, PartialEq, Eq, Structural)]
pub struct TextureCopyLocation {
    /// The address of the resource.
    pub resource: usize,
    pub copy_type: TextureCopyType,
}

/// One end of a texture copy, field by field as the native layer reads it.
/// Of `subresource_index` and `footprint` the native layer reads the one
/// that `copy_type` names; the other is zero.
#[derive(Copy, Clone, Debug, PartialEq, Eq, Structural)]
pub struct NativeTextureCopyLocation {
    pub resource: usize,
    pub copy_type: u32,
    pub subresource_index: u32,
    pub footprint: PlacedSubresourceFootprint,
}

impl TextureCopyLocation {
    /// The location that names a subresource of `resource`.
    pub fn subresource(resource: &RawResource, index: u32) -> (r: TextureCopyLocation)
        ensures
            r == (TextureCopyLocation {
                resource: resource.ptr().addr(),
                copy_type: TextureCopyType::SubresourceIndex(index),
            }),
    {
        TextureCopyLocation {
            resource: resource.as_comptr().as_mut_ptr(),
            copy_type: TextureCopyType::SubresourceIndex(index),
        }
    }

    /// The location that names a footprint within the buffer `resource`.
    pub fn placed_footprint(
        resource: &RawResource,
        footprint: PlacedSubresourceFootprint,
    ) -> (r: TextureCopyLocation)
        ensures
            r == (TextureCopyLocation {
                resource: resource.ptr().addr(),
                copy_type: TextureCopyType::PlacedFootprint(footprint),
            }),
    {
        TextureCopyLocation {
            resource: resource.as_comptr().as_mut_ptr(),
            copy_type: TextureCopyType::PlacedFootprint(footprint),
        }
    }

    /// The location as the native layer reads it.
    pub open spec fn spec_to_native(self) -> NativeTextureCopyLocation {
        match self.copy_type {
            TextureCopyType::SubresourceIndex(index) => NativeTextureCopyLocation {
                resource: self.resource,
                copy_type: TEXTURE_COPY_TYPE_SUBRESOURCE_INDEX,
                subresource_index: index,
                footprint: PlacedSubresourceFootprint {
                    offset: 0,
                    format: 0,
                    width: 0,
                    height: 0,
                    depth: 0,
                    row_pitch: 0,
                },
            },
            TextureCopyType::PlacedFootprint(footprint) => NativeTextureCopyLocation {
                resource: self.resource,
                copy_type: TEXTURE_COPY_TYPE_PLACED_FOOTPRINT,
                subresource_index: 0,
                footprint,
            },
        }
    }

    /// Lays the location out as the native layer reads it.
    pub fn to_native(self) -> (r: NativeTextureCopyLocation)
        ensures
            r == self.spec_to_native(),
    {
        match self.copy_type {
            TextureCopyType::SubresourceIndex(index) => NativeTextureCopyLocation {
                resource: self.resource,
                copy_type: TEXTURE_COPY_TYPE_SUBRESOURCE_INDEX,
                subresource_index: index,
                footprint: PlacedSubresourceFootprint {
                    offset: 0,
                    format: 0,
                    width: 0,
                    height: 0,
                    depth: 0,
                    row_pitch: 0,
                },
            },
            TextureCopyType::PlacedFootprint(footprint) => NativeTextureCopyLocation {
                resource: self.resource,
                copy_type: TEXTURE_COPY_TYPE_PLACED_FOOTPRINT,
                subresource_index: 0,
                footprint,
            },
        }
    }
}

} // verus!
