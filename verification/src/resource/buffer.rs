//! Buffers.

use vstd::prelude::*;
use crate::error::PlacementViolation;
use crate::resource::committed::{
    effective_initial_state,
    CommittedResource,
    CommittedResourceInfo,
    CommittedResourceRequest,
};
use crate::resource::description::{
    ResourceAlignment,
    ResourceDesc,
    ResourceDimension,
    ResourceFlags,
    TextureLayout,
};
use crate::resource::heap::description::{
    HeapFlags,
    HeapProperties,
    HeapType,
    MemoryPoolPreference,
    PageProperty,
};
use crate::resource::placed::{
    placement_violation,
    PlacedResource,
    PlacedResourceRequest,
    Placement,
};
use crate::resource::raw::RawResource;
use crate::resource::state::ResourceStates;
use crate::resource::traits::{
    AllowShaderResource,
    Buffer,
    CpuReadBuffer,
    CpuWriteBuffer,
    GpuOnly,
    Placed,
    Readback,
    Resource,
    Upload,
};
use crate::resource::ResourceAllocInfo;
use crate::format::DXGI_FORMAT_UNKNOWN;
use crate::swapchain::SampleDesc;

verus! {

/// A run of elements of one size within a buffer.
#[derive(Copy, Clone, Debug, PartialEq, Eq, Structural)]
pub struct BufferSlice {
    /// The index of the first element.
    pub offset: u64,
    /// The number of elements.
    pub length: u32,
    /// The size of an element in bytes.
    pub byte_stride: u32,
}

impl BufferSlice {
    /// The slice of `length` elements of type `T` from `offset` on. The
    /// stride is the size of `T`, of which the low 32 bits are kept.
    pub fn from_type<T>(offset: u64, length: u32) -> (r: BufferSlice)
        ensures
            r == (BufferSlice {
                offset,
                length,
                byte_stride: (core::mem::size_of::<T>() as u32),
            }),
    {
        BufferSlice {
            offset,
            length,
            byte_stride: #[verifier::truncate]
            (core::mem::size_of::<T>() as u32),
        }
    }

    /// The slice of `length` bytes from `offset` on.
    pub fn from_bytes(offset: u64, length: u32) -> (r: BufferSlice)
        ensures
            r == (BufferSlice { offset, length, byte_stride: 1 }),
    {
        broadcast use vstd::layout::layout_of_primitives;

        BufferSlice::from_type::<u8>(offset, length)
    }
}

/// The description of a buffer of `size` bytes without options.
pub open spec fn plain_buffer_desc(size: u64) -> ResourceDesc {
    ResourceDesc {
        dimension: ResourceDimension::Buffer,
        alignment: ResourceAlignment::Default,
        width: size,
        height: 1,
        depth: 1,
        mip_levels: 1,
        format: DXGI_FORMAT_UNKNOWN,
        sample_desc: SampleDesc { count: 1, quality: 0 },
        layout: TextureLayout::RowMajor,
        flags: ResourceFlags { bits: 0 },
    }
}

/// What a committed buffer of `size` bytes on a heap of the given class is
/// made from, when `requested` is the state asked for.
pub open spec fn committed_buffer_info(
    heap_type: HeapType,
    size: u64,
    requested: ResourceStates,
) -> CommittedResourceInfo {
    CommittedResourceInfo {
        heap_properties: HeapProperties {
            heap_type,
            page: PageProperty::Unknown,
            pool_preference: MemoryPoolPreference::Unknown,
            creation_node_mask: 0,
            visible_node_mask: 0,
        },
        heap_flags: HeapFlags { bits: 0 },
        desc: plain_buffer_desc(size),
        initial_state: effective_initial_state(heap_type, requested),
    }
}

/// Whether a committed resource is a buffer on a heap of the given class.
pub open spec fn is_buffer_on(info: CommittedResourceInfo, heap_type: HeapType) -> bool {
    info.heap_properties.heap_type == heap_type && info.desc.dimension
        == ResourceDimension::Buffer
}

/// A committed buffer that only the GPU reaches.
#[derive(Debug)]
pub struct DefaultBuffer {
    resource: CommittedResource,
}

impl DefaultBuffer {
    /// The resource that is the buffer.
    pub closed spec fn view(&self) -> CommittedResource {
        self.resource
    }

    #[verifier::type_invariant]
    spec fn inv(&self) -> bool {
        is_buffer_on(self.resource.info(), HeapType::Default)
    }

    /// Begins the creation of a buffer of `size` bytes, which starts in the
    /// generic read state.
    pub fn new(size: u64) -> (r: CommittedResourceRequest)
        ensures
            r@ == committed_buffer_info(
                HeapType::Default,
                size,
                ResourceStates { bits: ResourceStates::GENERIC_READ },
            ),
    {
        CommittedResource::create(
            &HeapProperties::new(HeapType::Default),
            HeapFlags { bits: 0 },
            &ResourceDesc::buffer(size, ResourceFlags { bits: 0 }),
            ResourceStates::generic_read(),
        )
    }

    /// Takes a committed resource as a buffer, if it is a buffer on a
    /// default heap.
    pub fn from_resource(resource: CommittedResource) -> (r: Option<DefaultBuffer>)
        ensures
            is_buffer_on(resource.info(), HeapType::Default) ==> r is Some && r->Some_0@
                == resource,
            !is_buffer_on(resource.info(), HeapType::Default) ==> r is None,
    {
        let info = resource.get_info();
        if info.heap_properties.heap_type == HeapType::Default && info.desc.dimension
            == ResourceDimension::Buffer {
            Some(DefaultBuffer { resource })
        } else {
            None
        }
    }
}

impl Resource for DefaultBuffer {
    open spec fn raw(&self) -> RawResource {
        self@.raw()
    }

    fn as_raw(&self) -> (r: &RawResource) {
        self.resource.as_raw()
    }
}

impl Buffer for DefaultBuffer {
    open spec fn size(&self) -> u64 {
        self@.info().desc.width
    }

    fn get_size(&self) -> (r: u64) {
        self.resource.get_info().desc.width
    }
}

impl GpuOnly for DefaultBuffer {

}

impl AllowShaderResource for DefaultBuffer {

}

/// A committed buffer that the CPU writes.
#[derive(Debug)]
pub struct UploadBuffer {
    resource: CommittedResource,
}

impl UploadBuffer {
    /// The resource that is the buffer.
    pub closed spec fn view(&self) -> CommittedResource {
        self.resource
    }

    #[verifier::type_invariant]
    spec fn inv(&self) -> bool {
        is_buffer_on(self.resource.info(), HeapType::Upload)
    }

    /// Begins the creation of a buffer of `size` bytes, which is in the
    /// generic read state for its whole life.
    pub fn new(size: u64) -> (r: CommittedResourceRequest)
        ensures
            r@ == committed_buffer_info(
                HeapType::Upload,
                size,
                ResourceStates { bits: ResourceStates::GENERIC_READ },
            ),
            r@.initial_state.bits == ResourceStates::GENERIC_READ,
    {
        CommittedResource::create(
            &HeapProperties::new(HeapType::Upload),
            HeapFlags { bits: 0 },
            &ResourceDesc::buffer(size, ResourceFlags { bits: 0 }),
            ResourceStates::generic_read(),
        )
    }

    /// Takes a committed resource as a buffer, if it is a buffer on an
    /// upload heap.
    pub fn from_resource(resource: CommittedResource) -> (r: Option<UploadBuffer>)
        ensures
            is_buffer_on(resource.info(), HeapType::Upload) ==> r is Some && r->Some_0@
                == resource,
            !is_buffer_on(resource.info(), HeapType::Upload) ==> r is None,
    {
        let info = resource.get_info();
        if info.heap_properties.heap_type == HeapType::Upload && info.desc.dimension
            == ResourceDimension::Buffer {
            Some(UploadBuffer { resource })
        } else {
            None
        }
    }
}

impl Resource for UploadBuffer {
    open spec fn raw(&self) -> RawResource {
        self@.raw()
    }

    fn as_raw(&self) -> (r: &RawResource) {
        self.resource.as_raw()
    }
}

impl Buffer for UploadBuffer {
    open spec fn size(&self) -> u64 {
        self@.info().desc.width
    }

    fn get_size(&self) -> (r: u64) {
        self.resource.get_info().desc.width
    }
}

impl Upload for UploadBuffer {

}

impl CpuWriteBuffer for UploadBuffer {

}

impl AllowShaderResource for UploadBuffer {

}

/// A committed buffer that the CPU reads.
#[derive(Debug)]
pub struct ReadbackBuffer {
    resource: CommittedResource,
}

impl ReadbackBuffer {
    /// The resource that is the buffer.
    pub closed spec fn view(&self) -> CommittedResource {
        self.resource
    }

    #[verifier::type_invariant]
    spec fn inv(&self) -> bool {
        is_buffer_on(self.resource.info(), HeapType::Readback)
    }

    /// Begins the creation of a buffer of `size` bytes, which is a copy
    /// destination for its whole life.
    pub fn new(size: u64) -> (r: CommittedResourceRequest)
        ensures
            r@ == committed_buffer_info(
                HeapType::Readback,
                size,
                ResourceStates { bits: ResourceStates::COPY_DEST },
            ),
            r@.initial_state.bits == ResourceStates::COPY_DEST,
    {
        CommittedResource::create(
            &HeapProperties::new(HeapType::Readback),
            HeapFlags { bits: 0 },
            &ResourceDesc::buffer(size, ResourceFlags { bits: 0 }),
            ResourceStates::copy_dest(),
        )
    }

    /// Takes a committed resource as a buffer, if it is a buffer on a
    /// readback heap.
    pub fn from_resource(resource: CommittedResource) -> (r: Option<ReadbackBuffer>)
        ensures
            is_buffer_on(resource.info(), HeapType::Readback) ==> r is Some && r->Some_0@
                == resource,
            !is_buffer_on(resource.info(), HeapType::Readback) ==> r is None,
    {
        let info = resource.get_info();
        if info.heap_properties.heap_type == HeapType::Readback && info.desc.dimension
            == ResourceDimension::Buffer {
            Some(ReadbackBuffer { resource })
        } else {
            None
        }
    }
}

impl Resource for ReadbackBuffer {
    open spec fn raw(&self) -> RawResource {
        self@.raw()
    }

    fn as_raw(&self) -> (r: &RawResource) {
        self.resource.as_raw()
    }
}

impl Buffer for ReadbackBuffer {
    open spec fn size(&self) -> u64 {
        self@.info().desc.width
    }

    fn get_size(&self) -> (r: u64) {
        self.resource.get_info().desc.width
    }
}

impl Readback for ReadbackBuffer {

}

impl CpuReadBuffer for ReadbackBuffer {

}

impl AllowShaderResource for ReadbackBuffer {

}

/// What is wrong with the placement of a buffer of `size` bytes at
/// `offset`, if anything: the offset must be a multiple of 64 kibibytes,
/// the buffer must end within the heap, and so must what the native layer
/// says the buffer takes up.
pub open spec fn buffer_placement_violation(
    heap_size: u64,
    offset: u64,
    size: u64,
    alloc_info: ResourceAllocInfo,
) -> Option<PlacementViolation> {
    if offset as int % 0x1_0000 != 0 {
        Some(PlacementViolation::Misaligned)
    } else if offset + size > heap_size {
        Some(PlacementViolation::OutOfBounds)
    } else {
        placement_violation(heap_size, offset, alloc_info)
    }
}

/// A buffer placed on a heap of type `H`.
pub struct PlacedBuffer<H: crate::resource::heap::traits::Heap> {
    resource: PlacedResource,
    heap: H,
}

impl<H: crate::resource::heap::traits::Heap> PlacedBuffer<H> {
    /// The resource that is the buffer.
    pub closed spec fn view(&self) -> PlacedResource {
        self.resource
    }

    /// The heap on which the buffer lies.
    pub closed spec fn typed_heap(&self) -> H {
        self.heap
    }

    #[verifier::type_invariant]
    spec fn inv(&self) -> bool {
        &&& self.resource.heap() == self.heap.raw()
        &&& self.resource.placement().desc.dimension == ResourceDimension::Buffer
    }

    /// Begins the placement of a buffer of `size` bytes at `offset` within
    /// `heap`. `alloc_info` is what the native layer says the buffer takes
    /// up. The buffer starts in `initial_state`, unless the class of the
    /// heap fixes the state.
    pub fn place(
        heap: &H,
        offset: u64,
        size: u64,
        initial_state: ResourceStates,
        alloc_info: ResourceAllocInfo,
    ) -> (r: Result<PlacedResourceRequest, PlacementViolation>)
        ensures
            match buffer_placement_violation(heap.raw().desc().size, offset, size, alloc_info) {
                Some(v) => r == Err::<PlacedResourceRequest, PlacementViolation>(v),
                None => {
                    &&& r is Ok
                    &&& r->Ok_0.heap() == heap.raw()
                    &&& r->Ok_0.placement() == (Placement {
                        heap_offset: offset,
                        alloc_info,
                        desc: plain_buffer_desc(size),
                        initial_state: effective_initial_state(H::class(), initial_state),
                    })
                },
            },
    {
        let raw = heap.as_raw();
        if offset % 0x1_0000 != 0 {
            Err(PlacementViolation::Misaligned)
        } else if size > raw.size() || offset > raw.size() - size {
            Err(PlacementViolation::OutOfBounds)
        } else {
            PlacedResource::create(
                raw,
                offset,
                &ResourceDesc::buffer(size, ResourceFlags { bits: 0 }),
                initial_state,
                alloc_info,
            )
        }
    }

    /// Takes a placed resource as a buffer on `heap`, if it is a buffer and
    /// lies on that heap.
    pub fn from_resource(resource: PlacedResource, heap: H) -> (r: Option<PlacedBuffer<H>>)
        ensures
            match r {
                Some(b) => {
                    &&& b@ == resource
                    &&& b.typed_heap() == heap
                    &&& resource.placement().desc.dimension == ResourceDimension::Buffer
                    &&& resource.heap().ptr().addr() == heap.raw().ptr().addr()
                    &&& resource.heap().desc() == heap.raw().desc()
                },
                None => {
                    ||| resource.placement().desc.dimension != ResourceDimension::Buffer
                    ||| resource.heap().ptr().addr() != heap.raw().ptr().addr()
                    ||| resource.heap().desc() != heap.raw().desc()
                },
            },
    {
        let same = {
            let raw = heap.as_raw();
            let on = resource.get_placed_heap();
            raw.as_comptr().same_object(on.as_comptr()) && raw.get_desc() == on.get_desc()
        };
        if same && resource.get_placement().desc.dimension == ResourceDimension::Buffer {
            proof {
                crate::resource::heap::lemma_heap_is_its_parts(resource.heap(), heap.raw());
            }
            Some(PlacedBuffer { resource, heap })
        } else {
            None
        }
    }

    /// The size of the buffer in bytes.
    pub fn get_size(&self) -> (r: u64)
        ensures
            r == self@.placement().desc.width,
    {
        self.resource.get_placement().desc.width
    }
}

impl<H: crate::resource::heap::traits::AcceptBuffer + crate::resource::heap::traits::GpuOnly> PlacedBuffer<H> {
    /// Begins the placement of a buffer that only the GPU reaches, which
    /// starts in the generic read state.
    pub fn gpu_only(heap: &H, offset: u64, size: u64, alloc_info: ResourceAllocInfo) -> (r: Result<PlacedResourceRequest, PlacementViolation>)
        ensures
            match buffer_placement_violation(heap.raw().desc().size, offset, size, alloc_info) {
                Some(v) => r == Err::<PlacedResourceRequest, PlacementViolation>(v),
                None => {
                    &&& r is Ok
                    &&& r->Ok_0.heap() == heap.raw()
                    &&& r->Ok_0.placement().heap_offset == offset
                    &&& r->Ok_0.placement().alloc_info == alloc_info
                    &&& r->Ok_0.placement().desc == plain_buffer_desc(size)
                    &&& r->Ok_0.placement().initial_state == effective_initial_state(
                        H::class(),
                        ResourceStates { bits: ResourceStates::GENERIC_READ },
                    )
                },
            },
    {
        Self::place(heap, offset, size, ResourceStates::generic_read(), alloc_info)
    }
}

impl<H: crate::resource::heap::traits::AcceptBuffer + crate::resource::heap::traits::Upload> PlacedBuffer<H> {
    /// Begins the placement of a buffer that the CPU writes, which starts
    /// in the generic read state.
    pub fn upload(heap: &H, offset: u64, size: u64, alloc_info: ResourceAllocInfo) -> (r: Result<PlacedResourceRequest, PlacementViolation>)
        ensures
            match buffer_placement_violation(heap.raw().desc().size, offset, size, alloc_info) {
                Some(v) => r == Err::<PlacedResourceRequest, PlacementViolation>(v),
                None => {
                    &&& r is Ok
                    &&& r->Ok_0.heap() == heap.raw()
                    &&& r->Ok_0.placement().heap_offset == offset
                    &&& r->Ok_0.placement().alloc_info == alloc_info
                    &&& r->Ok_0.placement().desc == plain_buffer_desc(size)
                    &&& r->Ok_0.placement().initial_state == effective_initial_state(
                        H::class(),
                        ResourceStates { bits: ResourceStates::GENERIC_READ },
                    )
                },
            },
    {
        Self::place(heap, offset, size, ResourceStates::generic_read(), alloc_info)
    }
}

impl<H: crate::resource::heap::traits::AcceptBuffer + crate::resource::heap::traits::Readback> PlacedBuffer<H> {
    /// Begins the placement of a buffer that the CPU reads, which starts as
    /// a copy destination.
    pub fn readback(heap: &H, offset: u64, size: u64, alloc_info: ResourceAllocInfo) -> (r: Result<PlacedResourceRequest, PlacementViolation>)
        ensures
            match buffer_placement_violation(heap.raw().desc().size, offset, size, alloc_info) {
                Some(v) => r == Err::<PlacedResourceRequest, PlacementViolation>(v),
                None => {
                    &&& r is Ok
                    &&& r->Ok_0.heap() == heap.raw()
                    &&& r->Ok_0.placement().heap_offset == offset
                    &&& r->Ok_0.placement().alloc_info == alloc_info
                    &&& r->Ok_0.placement().desc == plain_buffer_desc(size)
                    &&& r->Ok_0.placement().initial_state == effective_initial_state(
                        H::class(),
                        ResourceStates { bits: ResourceStates::COPY_DEST },
                    )
                },
            },
    {
        Self::place(heap, offset, size, ResourceStates::copy_dest(), alloc_info)
    }
}

impl<H: crate::resource::heap::traits::Heap> Resource for PlacedBuffer<H> {
    open spec fn raw(&self) -> RawResource {
        self@.raw()
    }

    fn as_raw(&self) -> (r: &RawResource) {
        self.resource.as_raw()
    }
}

impl<H: crate::resource::heap::traits::Heap> Placed for PlacedBuffer<H> {
    type Heap = H;

    open spec fn placed_heap(&self) -> H {
        self.typed_heap()
    }

    open spec fn heap_offset(&self) -> u64 {
        self@.placement().heap_offset
    }

    fn get_placed_heap(&self) -> (r: &H) {
        &self.heap
    }

    fn get_heap_offset(&self) -> (r: u64) {
        self.resource.get_heap_offset()
    }
}

impl<H: crate::resource::heap::traits::Heap> AllowShaderResource for PlacedBuffer<H> {

}

} // verus!
