use redirect::comptr::{ComPtr, ResourceObject};
use redirect::error::{CreationError, PlacementViolation, WinError, E_INVALIDARG};
use redirect::resource::description::{ResourceAlignment, ResourceDesc, ResourceFlags};
use redirect::resource::heap::description::{HeapFlags, HeapProperties, HeapType};
use redirect::resource::heap::Heap;
use redirect::resource::placed::{
    check_placement, AllocInfoQuery, PlacedResource, PlacedResourceRequest, Placement,
};
use redirect::resource::raw::RawResource;
use redirect::resource::state::ResourceStates;
use redirect::resource::ResourceAllocInfo;

/// Stands for the native layer and counts what it is asked.
struct CountingDevice {
    info: ResourceAllocInfo,
    queries: usize,
    creations: usize,
    fail_with: Option<i32>,
}

impl CountingDevice {
    fn new(info: ResourceAllocInfo) -> Self {
        CountingDevice { info, queries: 0, creations: 0, fail_with: None }
    }

    fn get_resource_alloc_info(&mut self, _query: AllocInfoQuery) -> ResourceAllocInfo {
        self.queries += 1;
        self.info
    }

    fn create_placed_resource(
        &mut self,
        _request: &PlacedResourceRequest,
    ) -> Result<ComPtr<ResourceObject>, WinError> {
        self.creations += 1;
        match self.fail_with {
            Some(hr) => Err(WinError { hr }),
            None => Ok(ComPtr::new(0x5000 + self.creations)),
        }
    }
}

fn place(
    device: &mut CountingDevice,
    heap: &Heap,
    offset: u64,
    desc: &ResourceDesc,
    state: ResourceStates,
) -> Result<PlacedResource, CreationError> {
    let info = device.get_resource_alloc_info(PlacedResource::alloc_info_query(heap, desc));
    match PlacedResource::create(heap, offset, desc, state, info) {
        Err(violation) => Err(CreationError::Placement(violation)),
        Ok(request) => {
            let outcome = device.create_placed_resource(&request);
            request.complete(outcome)
        }
    }
}

fn heap_of(heap_type: HeapType, size: u64) -> Heap {
    Heap::create(HeapProperties::new(heap_type), size, HeapFlags { bits: 0 })
        .unwrap()
        .complete(Ok(ComPtr::new(0x100)))
        .unwrap()
}

fn info_64k(size: u64) -> ResourceAllocInfo {
    ResourceAllocInfo { size, alignment: ResourceAlignment::SixtyFourKb }
}

#[test]
fn two_placements_side_by_side_succeed_and_a_misaligned_third_fails() {
    let heap = heap_of(HeapType::Default, 2 * 65536);
    let desc = ResourceDesc::buffer(65536, ResourceFlags { bits: 0 });
    let mut device = CountingDevice::new(info_64k(65536));
    let common = ResourceStates { bits: ResourceStates::COMMON };

    let first = place(&mut device, &heap, 0, &desc, common).unwrap();
    let second = place(&mut device, &heap, 65536, &desc, common).unwrap();
    assert_eq!(device.creations, 2);
    assert_eq!(first.get_heap_offset(), 0);
    assert_eq!(second.get_heap_offset(), 65536);
    assert_eq!(first.get_alloc_info(), info_64k(65536));
    assert!(!first.overlaps(&second));
    assert!(!first.is_same_placement(&second));
    assert_eq!(first.get_placed_heap().as_comptr().as_ptr(), 0x100);

    let third = place(&mut device, &heap, 32768, &desc, common);
    assert!(matches!(third, Err(CreationError::Placement(PlacementViolation::Misaligned))));
    assert_eq!(device.creations, 2);
}

#[test]
fn overlap_of_aligned_placements_is_left_to_the_caller() {
    let heap = heap_of(HeapType::Default, 4 * 65536);
    let desc = ResourceDesc::buffer(2 * 65536, ResourceFlags { bits: 0 });
    let mut device = CountingDevice::new(info_64k(2 * 65536));
    let common = ResourceStates { bits: ResourceStates::COMMON };
    let first = place(&mut device, &heap, 0, &desc, common).unwrap();
    let second = place(&mut device, &heap, 65536, &desc, common).unwrap();
    let third = place(&mut device, &heap, 2 * 65536, &desc, common).unwrap();
    assert!(first.overlaps(&second));
    assert!(second.overlaps(&first));
    assert!(second.overlaps(&third));
    assert!(!first.overlaps(&third));
}

#[test]
fn placement_past_the_heap_fails_without_a_native_creation() {
    let heap = heap_of(HeapType::Default, 2 * 65536);
    let desc = ResourceDesc::buffer(65536, ResourceFlags { bits: 0 });
    let mut device = CountingDevice::new(info_64k(65536));
    let common = ResourceStates { bits: ResourceStates::COMMON };
    for offset in [2 * 65536u64, 3 * 65536, 65536 * 65536, u64::MAX - 65535] {
        let r = place(&mut device, &heap, offset, &desc, common);
        assert!(matches!(r, Err(CreationError::Placement(PlacementViolation::OutOfBounds))));
    }
    let mut large = CountingDevice::new(info_64k(3 * 65536));
    let r = place(&mut large, &heap, 0, &desc, common);
    assert!(matches!(r, Err(CreationError::Placement(PlacementViolation::OutOfBounds))));
    let mut huge = CountingDevice::new(info_64k(u64::MAX));
    let r = place(&mut huge, &heap, 65536, &desc, common);
    assert!(matches!(r, Err(CreationError::Placement(PlacementViolation::OutOfBounds))));
    assert_eq!(device.creations + large.creations + huge.creations, 0);
    assert_eq!(device.queries, 4);
}

#[test]
fn misaligned_placement_fails_without_a_native_creation() {
    let heap = heap_of(HeapType::Default, 64 * 65536);
    let desc = ResourceDesc::buffer(256, ResourceFlags { bits: 0 });
    let mut device = CountingDevice::new(info_64k(65536));
    let common = ResourceStates { bits: ResourceStates::COMMON };
    for offset in [1u64, 4096, 65535, 65537, 3 * 65536 + 32768] {
        let r = place(&mut device, &heap, offset, &desc, common);
        assert!(matches!(r, Err(CreationError::Placement(PlacementViolation::Misaligned))));
    }
    assert_eq!(device.creations, 0);
    let mut small = CountingDevice::new(ResourceAllocInfo {
        size: 4096,
        alignment: ResourceAlignment::FourKb,
    });
    assert!(place(&mut small, &heap, 4096, &desc, common).is_ok());
    assert_eq!(small.creations, 1);
}

#[test]
fn misalignment_is_reported_before_bounds() {
    assert_eq!(
        check_placement(65536, 65537, info_64k(65536)),
        Err(PlacementViolation::Misaligned)
    );
    assert_eq!(
        check_placement(65536, 65536, info_64k(65536)),
        Err(PlacementViolation::OutOfBounds)
    );
    assert_eq!(check_placement(65536, 0, info_64k(65536)), Ok(()));
    assert_eq!(check_placement(65536, 0, info_64k(65537)), Err(PlacementViolation::OutOfBounds));
    assert_eq!(
        check_placement(
            2 * 65536,
            65536,
            ResourceAllocInfo { size: 65536, alignment: ResourceAlignment::Default }
        ),
        Ok(())
    );
    assert_eq!(
        check_placement(
            u64::MAX,
            4194304,
            ResourceAllocInfo { size: 1, alignment: ResourceAlignment::FourMb }
        ),
        Ok(())
    );
}

#[test]
fn native_failure_of_a_placement_is_handed_on() {
    let heap = heap_of(HeapType::Default, 65536);
    let desc = ResourceDesc::buffer(256, ResourceFlags { bits: 0 });
    let mut device = CountingDevice::new(info_64k(65536));
    device.fail_with = Some(E_INVALIDARG);
    let r = place(&mut device, &heap, 0, &desc, ResourceStates { bits: 0 });
    assert!(matches!(r, Err(CreationError::Native(WinError { hr: E_INVALIDARG }))));
    assert_eq!(device.creations, 1);
}

#[test]
fn placed_resource_on_fixed_state_heaps_ignores_the_requested_state() {
    let desc = ResourceDesc::buffer(256, ResourceFlags { bits: 0 });
    let common = ResourceStates { bits: ResourceStates::COMMON };
    let upload = heap_of(HeapType::Upload, 65536);
    let request = PlacedResource::create(&upload, 0, &desc, common, info_64k(65536)).unwrap();
    assert_eq!(request.get_placement().initial_state.bits, ResourceStates::GENERIC_READ);
    assert_eq!(request.get_heap().size(), 65536);
    let readback = heap_of(HeapType::Readback, 65536);
    let request = PlacedResource::create(&readback, 0, &desc, common, info_64k(65536)).unwrap();
    assert_eq!(request.get_placement().initial_state.bits, ResourceStates::COPY_DEST);
    let default = heap_of(HeapType::Default, 65536);
    let request = PlacedResource::create(
        &default,
        0,
        &desc,
        ResourceStates { bits: ResourceStates::RENDER_TARGET },
        info_64k(65536),
    )
    .unwrap();
    assert_eq!(
        request.get_placement(),
        Placement {
            heap_offset: 0,
            alloc_info: info_64k(65536),
            desc,
            initial_state: ResourceStates { bits: ResourceStates::RENDER_TARGET },
        }
    );
}

#[test]
fn alloc_info_query_carries_the_visible_nodes_of_the_heap() {
    let mut properties = HeapProperties::new(HeapType::Default);
    properties.visible_node_mask = 0x5;
    let heap = Heap::create(properties, 65536, HeapFlags { bits: 0 })
        .unwrap()
        .complete(Ok(ComPtr::new(0x9)))
        .unwrap();
    let desc = ResourceDesc::buffer(16, ResourceFlags { bits: 0 });
    assert_eq!(
        PlacedResource::alloc_info_query(&heap, &desc),
        AllocInfoQuery { desc, visible_mask: 0x5 }
    );
}

#[test]
fn from_raw_takes_only_sound_placements() {
    let heap = heap_of(HeapType::Upload, 65536);
    let desc = ResourceDesc::buffer(16, ResourceFlags { bits: 0 });
    let sound = Placement {
        heap_offset: 0,
        alloc_info: info_64k(65536),
        desc,
        initial_state: ResourceStates { bits: ResourceStates::GENERIC_READ },
    };
    let raw = || RawResource::from_comptr(ComPtr::new(0x77));
    assert!(PlacedResource::from_raw(raw(), heap.clone(), sound).is_some());
    let wrong_state = Placement { initial_state: ResourceStates { bits: 0 }, ..sound };
    assert!(PlacedResource::from_raw(raw(), heap.clone(), wrong_state).is_none());
    let outside = Placement { heap_offset: 65536, ..sound };
    assert!(PlacedResource::from_raw(raw(), heap.clone(), outside).is_none());
    let misaligned = Placement { heap_offset: 8, alloc_info: info_64k(8), ..sound };
    assert!(PlacedResource::from_raw(raw(), heap, misaligned).is_none());
}
