//! What is known of a resource from its type.

use vstd::prelude::*;
use crate::descriptor::desc::cbv::CbvDesc;
use crate::descriptor::desc::srv::{SrvBufferDesc, SrvDesc, SrvDimension};
use crate::descriptor::desc::uav::{UavBufferDesc, UavDesc, UavDimension};
use crate::descriptor::desc::{lo32, low_word, Shader4ComponentMapping};
use crate::format::{DxgiFormat, DXGI_FORMAT_R16_UINT, DXGI_FORMAT_R32_UINT, DXGI_FORMAT_UNKNOWN};
use crate::pipeline::ia::{IndexBufferView, VertexBufferView};
use crate::resource::buffer::BufferSlice;
use crate::resource::raw::{GpuVAddress, RawResource};

verus! {

/// A resource of some kind.
pub trait Resource {
    /// The resource itself.
    spec fn raw(&self) -> RawResource;

    /// The resource itself.
    fn as_raw(&self) -> (r: &RawResource)
        ensures
            *r == self.raw(),
    ;
}

/// A resource that may be a render target.
pub trait AllowRenderTarget: Resource {

}

/// A resource that may be a depth stencil buffer.
pub trait AllowDepthStencil: Resource {

}

/// A resource that may be reached through unordered access views.
pub trait AllowUnorderedAccess: Resource {

}

/// A resource that may be shared.
pub trait AllowSharedResource: Resource {

}

/// A resource that shaders may read.
pub trait AllowShaderResource: Resource {

}

/// A resource that is placed on a heap.
pub trait Placed: Resource {
    /// The type of the heap.
    type Heap: crate::resource::heap::traits::Heap;

    /// The heap on which the resource lies.
    spec fn placed_heap(&self) -> Self::Heap;

    /// The offset of the resource within its heap.
    spec fn heap_offset(&self) -> u64;

    /// The heap on which the resource lies.
    fn get_placed_heap(&self) -> (r: &Self::Heap)
        ensures
            *r == self.placed_heap(),
    ;

    /// The offset of the resource within its heap.
    fn get_heap_offset(&self) -> (r: u64)
        ensures
            r == self.heap_offset(),
    ;
}

/// A resource that only the GPU reaches.
pub trait GpuOnly: Resource {

}

/// A resource on an upload heap.
pub trait Upload: Resource {

}

/// A resource on a readback heap.
pub trait Readback: Resource {

}

/// A texture.
pub trait Texture: Resource {
    /// The format of the texels.
    spec fn format(&self) -> DxgiFormat;

    /// The format of the texels.
    fn get_format(&self) -> (r: DxgiFormat)
        ensures
            r == self.format(),
    ;
}

/// A two-dimensional texture.
pub trait Tex2D: Texture {
    /// The width and the height in texels.
    spec fn extent(&self) -> (u64, u32);

    /// The width in texels.
    fn get_width(&self) -> (r: u64)
        ensures
            r == self.extent().0,
    ;

    /// The height in texels.
    fn get_height(&self) -> (r: u32)
        ensures
            r == self.extent().1,
    ;
}

/// Whether a slice lies within `size` bytes: the elements from its offset
/// to its end, each of the stride of the slice, take up no more.
pub open spec fn slice_fits(slice: BufferSlice, size: u64) -> bool {
    (slice.offset + slice.length) * slice.byte_stride <= size
}

/// The end of a slice in bytes fits in 128 bits.
pub proof fn lemma_slice_end_is_small(offset: u64, length: u32, stride: u32)
    by (nonlinear_arith)
    ensures
        0 <= (offset + length) * stride <= 0xffff_ffff_ffff_ffff_ffff_ffff_ffff_ffff,
{
}

/// The view of a buffer slice for shaders to read.
pub open spec fn srv_of_slice(slice: BufferSlice, mapping: Shader4ComponentMapping) -> SrvDesc {
    SrvDesc {
        format: DXGI_FORMAT_UNKNOWN,
        component_mapping: mapping,
        dimension: SrvDimension::Buffer(
            SrvBufferDesc {
                offset: slice.offset,
                num_elements: slice.length,
                byte_stride: slice.byte_stride,
                raw: 0,
            },
        ),
    }
}

/// The unordered access view of a buffer slice with its counter at
/// `counter_offset`.
pub open spec fn uav_of_slice(slice: BufferSlice, counter_offset: u64) -> UavDesc {
    UavDesc {
        format: DXGI_FORMAT_UNKNOWN,
        dimension: UavDimension::Buffer(
            UavBufferDesc {
                offset: slice.offset,
                num_elements: slice.length,
                byte_stride: slice.byte_stride,
                counter_offset,
                raw: 0,
            },
        ),
    }
}

/// A buffer.
pub trait Buffer: Resource {
    /// The size of the buffer in bytes.
    spec fn size(&self) -> u64;

    /// The size of the buffer in bytes.
    fn get_size(&self) -> (r: u64)
        ensures
            r == self.size(),
    ;

    /// Whether the buffer can hold `buffer_slice`.
    fn is_compatible_with(&self, buffer_slice: BufferSlice) -> (r: bool)
        ensures
            r == slice_fits(buffer_slice, self.size()),
    {
        proof {
            lemma_slice_end_is_small(
                buffer_slice.offset,
                buffer_slice.length,
                buffer_slice.byte_stride,
            );
        }
        let end: u128 = (buffer_slice.offset as u128 + buffer_slice.length as u128)
            * buffer_slice.byte_stride as u128;
        end <= self.get_size() as u128
    }

    /// The constant buffer view of the whole buffer, which lies at
    /// `location`. The view holds the low 32 bits of the size.
    fn create_cbv(&self, location: GpuVAddress) -> (r: CbvDesc)
        ensures
            r == (CbvDesc { buffer_location: location, size: lo32(self.size()) }),
    {
        CbvDesc { buffer_location: location, size: low_word(self.get_size()) }
    }

    /// The view of `slice` for shaders to read. The buffer must hold the
    /// slice.
    fn create_srv(&self, slice: BufferSlice) -> (r: SrvDesc)
        requires
            slice_fits(slice, self.size()),
        ensures
            exists|m: Shader4ComponentMapping|
                m@ == crate::descriptor::desc::component_mapping_code(0, 1, 2, 3) && r
                    == #[trigger] srv_of_slice(slice, m),
    {
        let mapping: Shader4ComponentMapping = Default::default();
        let r = SrvDesc {
            format: DXGI_FORMAT_UNKNOWN,
            component_mapping: mapping,
            dimension: SrvDimension::Buffer(
                SrvBufferDesc {
                    offset: slice.offset,
                    num_elements: slice.length,
                    byte_stride: slice.byte_stride,
                    raw: 0,
                },
            ),
        };
        assert(r == srv_of_slice(slice, mapping));
        r
    }

    /// The unordered access view of `slice`, without a counter. The buffer
    /// must hold the slice.
    fn create_uav(&self, slice: BufferSlice) -> (r: UavDesc)
        requires
            slice_fits(slice, self.size()),
        ensures
            r == uav_of_slice(slice, 0),
    {
        UavDesc {
            format: DXGI_FORMAT_UNKNOWN,
            dimension: UavDimension::Buffer(
                UavBufferDesc {
                    offset: slice.offset,
                    num_elements: slice.length,
                    byte_stride: slice.byte_stride,
                    counter_offset: 0,
                    raw: 0,
                },
            ),
        }
    }

    /// The unordered access view of `slice` with its counter at
    /// `counter_offset` of a buffer of `counter_size` bytes. The buffer must
    /// hold the slice; the offset must be a multiple of four within the
    /// counter buffer.
    fn create_uav_with_counter(
        &self,
        slice: BufferSlice,
        counter_size: u64,
        counter_offset: u64,
    ) -> (r: UavDesc)
        requires
            slice_fits(slice, self.size()),
            counter_offset % 4 == 0,
            counter_offset <= counter_size,
        ensures
            r == uav_of_slice(slice, counter_offset),
    {
        UavDesc {
            format: DXGI_FORMAT_UNKNOWN,
            dimension: UavDimension::Buffer(
                UavBufferDesc {
                    offset: slice.offset,
                    num_elements: slice.length,
                    byte_stride: slice.byte_stride,
                    counter_offset,
                    raw: 0,
                },
            ),
        }
    }

    /// The view of the first `size` bytes of the buffer, which lies at
    /// `location`, as vertices of `stride` bytes. The buffer must hold as
    /// many bytes.
    fn create_vbv(&self, location: GpuVAddress, size: u32, stride: u32) -> (r: VertexBufferView)
        requires
            size <= self.size(),
        ensures
            r == (VertexBufferView { location, size, stride }),
    {
        VertexBufferView { location, size, stride }
    }

    /// The view of the first `size` bytes of the buffer, which lies at
    /// `location`, as 32-bit indices. The buffer must hold as many bytes.
    fn create_ibv_u32(&self, location: GpuVAddress, size: u32) -> (r: IndexBufferView)
        requires
            size <= self.size(),
        ensures
            r == (IndexBufferView { location, size, format: DXGI_FORMAT_R32_UINT }),
    {
        IndexBufferView { location, size, format: DXGI_FORMAT_R32_UINT }
    }

    /// The view of the first `size` bytes of the buffer, which lies at
    /// `location`, as 16-bit indices. The buffer must hold as many bytes.
    fn create_ibv_u16(&self, location: GpuVAddress, size: u32) -> (r: IndexBufferView)
        requires
            size <= self.size(),
        ensures
            r == (IndexBufferView { location, size, format: DXGI_FORMAT_R16_UINT }),
    {
        IndexBufferView { location, size, format: DXGI_FORMAT_R16_UINT }
    }
}

/// Whether `bytes` bytes may be written to a buffer of `size` bytes through
/// a mapping of `range`, or of the whole buffer where no range is given: the
/// range is in order, ends within the buffer and is long enough.
pub open spec fn write_fits(size: u64, bytes: usize, range: Option<(usize, usize)>) -> bool {
    match range {
        Some(pair) => pair.0 <= pair.1 && pair.1 <= size && bytes <= pair.1 - pair.0,
        None => bytes <= size,
    }
}

/// The number of bytes that are read from a buffer of `size` bytes through a
/// mapping of `range`, or of the whole buffer where no range is given;
/// nothing where the range is out of order or ends past the buffer, or the
/// number does not fit.
pub open spec fn read_length(size: u64, range: Option<(usize, usize)>) -> Option<usize> {
    match range {
        Some(pair) => if pair.0 <= pair.1 && pair.1 <= size {
            Some((pair.1 - pair.0) as usize)
        } else {
            None
        },
        None => if size <= usize::MAX {
            Some(size as usize)
        } else {
            None
        },
    }
}

/// A buffer that the CPU writes.
pub trait CpuWriteBuffer: Buffer {
    /// Whether `bytes` bytes may be written through a mapping of `range`.
    fn can_write(&self, bytes: usize, range: Option<(usize, usize)>) -> (r: bool)
        ensures
            r == write_fits(self.size(), bytes, range),
    {
        let size = self.get_size();
        match range {
            Some(pair) => pair.0 <= pair.1 && pair.1 as u64 <= size && bytes <= pair.1 - pair.0,
            None => bytes as u64 <= size,
        }
    }
}

/// A buffer that the CPU reads.
pub trait CpuReadBuffer: Buffer {
    /// The number of bytes that a mapping of `range` reads.
    fn read_len(&self, range: Option<(usize, usize)>) -> (r: Option<usize>)
        ensures
            r == read_length(self.size(), range),
    {
        let size = self.get_size();
        match range {
            Some(pair) => if pair.0 <= pair.1 && pair.1 as u64 <= size {
                Some(pair.1 - pair.0)
            } else {
                None
            },
            None => if size <= usize::MAX as u64 {
                Some(size as usize)
            } else {
                None
            },
        }
    }
}

} // verus!
