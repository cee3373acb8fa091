use redirect::comptr::ComPtr;
use redirect::error::PlacementViolation;
use redirect::resource::buffer::PlacedBuffer;
use redirect::resource::description::{ResourceAlignment, ResourceDesc, ResourceFlags};
use redirect::resource::heap::{DefaultHeap, ReadbackHeap, UploadHeap};
use redirect::resource::placed::PlacedResource;
use redirect::resource::raw::{MapRange, RawResource};
use redirect::resource::state::ResourceStates;
use redirect::resource::traits::{Placed, Resource};
use redirect::resource::{
    NativeTextureCopyLocation, PlacedSubresourceFootprint, ResourceAllocInfo, TextureCopyLocation,
};

fn info(size: u64) -> ResourceAllocInfo {
    ResourceAllocInfo { size, alignment: ResourceAlignment::SixtyFourKb }
}

#[test]
fn placed_buffers_start_in_the_state_of_their_heap() {
    let default = DefaultHeap::from_raw(
        DefaultHeap::new(4 * 65536).unwrap().complete(Ok(ComPtr::new(0x10))).unwrap(),
    )
    .unwrap();
    let request = PlacedBuffer::gpu_only(&default, 65536, 1000, info(65536)).unwrap();
    let placement = request.get_placement();
    assert_eq!(placement.heap_offset, 65536);
    assert_eq!(placement.desc, ResourceDesc::buffer(1000, ResourceFlags { bits: 0 }));
    assert_eq!(placement.initial_state.bits, ResourceStates::GENERIC_READ);
    let resource = request.complete(Ok(ComPtr::new(0x20))).unwrap();
    let buffer = PlacedBuffer::from_resource(resource, default.clone()).unwrap();
    assert_eq!(buffer.get_size(), 1000);
    assert_eq!(buffer.get_heap_offset(), 65536);
    assert_eq!(buffer.as_raw().as_comptr().as_ptr(), 0x20);
    assert_eq!(buffer.get_placed_heap().get().size(), 4 * 65536);

    let upload = UploadHeap::from_raw(
        UploadHeap::new(65536).unwrap().complete(Ok(ComPtr::new(0x11))).unwrap(),
    )
    .unwrap();
    let request = PlacedBuffer::upload(&upload, 0, 65536, info(65536)).unwrap();
    assert_eq!(request.get_placement().initial_state.bits, ResourceStates::GENERIC_READ);

    let readback = ReadbackHeap::from_raw(
        ReadbackHeap::new(65536).unwrap().complete(Ok(ComPtr::new(0x12))).unwrap(),
    )
    .unwrap();
    let request = PlacedBuffer::readback(&readback, 0, 16, info(65536)).unwrap();
    assert_eq!(request.get_placement().initial_state.bits, ResourceStates::COPY_DEST);
    let request = PlacedBuffer::place(
        &readback,
        0,
        16,
        ResourceStates { bits: ResourceStates::RENDER_TARGET },
        info(65536),
    )
    .unwrap();
    assert_eq!(request.get_placement().initial_state.bits, ResourceStates::COPY_DEST);
}

#[test]
fn placed_buffers_are_checked_by_their_own_size_too() {
    let heap = DefaultHeap::from_raw(
        DefaultHeap::new(2 * 65536).unwrap().complete(Ok(ComPtr::new(0x10))).unwrap(),
    )
    .unwrap();
    let small = ResourceAllocInfo { size: 4096, alignment: ResourceAlignment::FourKb };
    assert_eq!(
        PlacedBuffer::gpu_only(&heap, 4096, 16, small).err(),
        Some(PlacementViolation::Misaligned)
    );
    assert_eq!(
        PlacedBuffer::gpu_only(&heap, 65536, 65537, small).err(),
        Some(PlacementViolation::OutOfBounds)
    );
    assert_eq!(
        PlacedBuffer::gpu_only(&heap, 65536, 16, info(2 * 65536)).err(),
        Some(PlacementViolation::OutOfBounds)
    );
    assert_eq!(
        PlacedBuffer::gpu_only(&heap, 65536, 16, ResourceAllocInfo { size: 16, alignment: ResourceAlignment::FourMb })
            .err(),
        Some(PlacementViolation::Misaligned)
    );
    assert!(PlacedBuffer::gpu_only(&heap, 65536, 65536, info(65536)).is_ok());
    assert!(PlacedBuffer::gpu_only(&heap, 0, u64::MAX, small).is_err());
}

#[test]
fn a_placed_buffer_lies_on_the_heap_it_is_given_with() {
    let heap_a = DefaultHeap::from_raw(
        DefaultHeap::new(65536).unwrap().complete(Ok(ComPtr::new(0x10))).unwrap(),
    )
    .unwrap();
    let heap_b = DefaultHeap::from_raw(
        DefaultHeap::new(65536).unwrap().complete(Ok(ComPtr::new(0x11))).unwrap(),
    )
    .unwrap();
    let make = |heap: &DefaultHeap| {
        PlacedBuffer::gpu_only(heap, 0, 16, info(65536))
            .unwrap()
            .complete(Ok(ComPtr::new(0x30)))
            .unwrap()
    };
    assert!(PlacedBuffer::from_resource(make(&heap_a), heap_b.clone()).is_none());
    assert!(PlacedBuffer::from_resource(make(&heap_a), heap_a.clone()).is_some());
    let texture = PlacedResource::create(
        heap_a.get(),
        0,
        &ResourceDesc::tex2d(4, 4, 1, 1, 28, ResourceFlags { bits: 0 }, ResourceAlignment::Default),
        ResourceStates { bits: 0 },
        info(65536),
    )
    .unwrap()
    .complete(Ok(ComPtr::new(0x31)))
    .unwrap();
    assert!(PlacedBuffer::from_resource(texture, heap_a).is_none());
}

#[test]
fn copy_locations_are_laid_out_field_by_field() {
    let resource = RawResource::from_comptr(ComPtr::new(0x44));
    let zero = PlacedSubresourceFootprint { offset: 0, format: 0, width: 0, height: 0, depth: 0, row_pitch: 0 };
    assert_eq!(
        TextureCopyLocation::subresource(&resource, 3).to_native(),
        NativeTextureCopyLocation { resource: 0x44, copy_type: 0, subresource_index: 3, footprint: zero }
    );
    let footprint =
        PlacedSubresourceFootprint { offset: 512, format: 28, width: 4, height: 4, depth: 1, row_pitch: 256 };
    assert_eq!(
        TextureCopyLocation::placed_footprint(&resource, footprint).to_native(),
        NativeTextureCopyLocation { resource: 0x44, copy_type: 1, subresource_index: 0, footprint }
    );
}

#[test]
fn map_ranges_are_taken_from_pairs() {
    assert_eq!(MapRange::from_pair(None), None);
    assert_eq!(MapRange::from_pair(Some((4, 12))), Some(MapRange { begin: 4, end: 12 }));
    assert_eq!(MapRange { begin: 4, end: 12 }.len(), 8);
    assert_eq!(MapRange { begin: 12, end: 4 }.len(), 0);
    assert_eq!(MapRange { begin: 0, end: usize::MAX }.len(), usize::MAX);
}
