use redirect::comptr::ComPtr;
use redirect::error::AliasingMismatch;
use redirect::resource::barrier::{
    NativeBarrier, ResourceAliasingBarrier, ResourceBarrier, ResourceBarrierBuilder,
    ResourceBarrierFlags, ResourceBarrierType, ResourceTransitionBarrier, ResourceUavBarrier,
};
use redirect::resource::description::{ResourceAlignment, ResourceDesc, ResourceFlags};
use redirect::resource::heap::description::{HeapFlags, HeapProperties, HeapType};
use redirect::resource::heap::Heap;
use redirect::resource::placed::PlacedResource;
use redirect::resource::raw::RawResource;
use redirect::resource::state::ResourceStates;
use redirect::resource::ResourceAllocInfo;

fn heap(addr: usize) -> Heap {
    Heap::create(HeapProperties::new(HeapType::Default), 8 * 65536, HeapFlags { bits: 0 })
        .unwrap()
        .complete(Ok(ComPtr::new(addr)))
        .unwrap()
}

fn placed(heap: &Heap, addr: usize, offset: u64, size: u64, alignment: ResourceAlignment) -> PlacedResource {
    PlacedResource::create(
        heap,
        offset,
        &ResourceDesc::buffer(size, ResourceFlags { bits: 0 }),
        ResourceStates { bits: 0 },
        ResourceAllocInfo { size, alignment },
    )
    .unwrap()
    .complete(Ok(ComPtr::new(addr)))
    .unwrap()
}

#[test]
fn aliasing_barrier_of_one_placement_names_both_resources() {
    let h = heap(0x100);
    let before = placed(&h, 0xa, 65536, 65536, ResourceAlignment::SixtyFourKb);
    let after = placed(&h, 0xb, 65536, 65536, ResourceAlignment::SixtyFourKb);
    assert!(before.is_same_placement(&after));
    assert!(before.overlaps(&after));
    let barrier = ResourceAliasingBarrier::checked(&before, &after).unwrap();
    assert_eq!(barrier, ResourceAliasingBarrier::new(&before, &after));
    let native = ResourceBarrier::new(ResourceBarrierType::Aliasing(barrier)).to_native();
    assert_eq!(
        native,
        NativeBarrier {
            barrier_type: 1,
            flags: 0,
            resource: 0xa,
            resource_after: 0xb,
            subresource: 0,
            state_before: 0,
            state_after: 0,
        }
    );
}

#[test]
fn aliasing_barrier_across_offsets_is_refused() {
    let h = heap(0x100);
    let before = placed(&h, 0xa, 0, 65536, ResourceAlignment::SixtyFourKb);
    let after = placed(&h, 0xb, 65536, 65536, ResourceAlignment::SixtyFourKb);
    assert_eq!(ResourceAliasingBarrier::checked(&before, &after), Err(AliasingMismatch::Offset));
    assert_eq!(ResourceAliasingBarrier::checked(&after, &before), Err(AliasingMismatch::Offset));
}

#[test]
fn aliasing_barrier_across_heaps_is_refused() {
    let h1 = heap(0x100);
    let h2 = heap(0x200);
    let before = placed(&h1, 0xa, 0, 65536, ResourceAlignment::SixtyFourKb);
    let after = placed(&h2, 0xb, 0, 65536, ResourceAlignment::SixtyFourKb);
    assert_eq!(ResourceAliasingBarrier::checked(&before, &after), Err(AliasingMismatch::Heap));
    let elsewhere = placed(&h2, 0xc, 65536, 65536, ResourceAlignment::SixtyFourKb);
    assert_eq!(ResourceAliasingBarrier::checked(&before, &elsewhere), Err(AliasingMismatch::Heap));
    assert!(!before.overlaps(&after));
}

#[test]
fn aliasing_barrier_across_sizes_is_refused() {
    let h = heap(0x100);
    let before = placed(&h, 0xa, 0, 65536, ResourceAlignment::SixtyFourKb);
    let larger = placed(&h, 0xb, 0, 2 * 65536, ResourceAlignment::SixtyFourKb);
    let finer = placed(&h, 0xc, 0, 65536, ResourceAlignment::FourKb);
    assert_eq!(ResourceAliasingBarrier::checked(&before, &larger), Err(AliasingMismatch::AllocInfo));
    assert_eq!(ResourceAliasingBarrier::checked(&before, &finer), Err(AliasingMismatch::AllocInfo));
}

#[test]
fn split_barriers_carry_their_flag() {
    let resource = RawResource::from_comptr(ComPtr::new(0x33));
    let transition = ResourceTransitionBarrier::new(
        &resource,
        7,
        ResourceStates { bits: ResourceStates::COPY_DEST },
        ResourceStates { bits: ResourceStates::PIXEL_SHADER_RESOURCE },
    );
    let mut barrier = ResourceBarrier::new(ResourceBarrierType::Transition(transition));
    assert_eq!(barrier.flags, ResourceBarrierFlags::Whole);
    barrier.flags = ResourceBarrierFlags::BeginOnly;
    assert_eq!(
        barrier.to_native(),
        NativeBarrier {
            barrier_type: 0,
            flags: 1,
            resource: 0x33,
            resource_after: 0,
            subresource: 7,
            state_before: 0x400,
            state_after: 0x80,
        }
    );
    barrier.flags = ResourceBarrierFlags::EndOnly;
    assert_eq!(barrier.to_native().flags, 2);
    assert_eq!(ResourceBarrierFlags::from_bits(2), Some(ResourceBarrierFlags::EndOnly));
    assert_eq!(ResourceBarrierFlags::from_bits(3), None);
    assert_eq!(ResourceBarrierFlags::default(), ResourceBarrierFlags::Whole);
}

#[test]
fn extend_appends_in_order_behind_what_is_there() {
    let uav = |addr: usize| {
        ResourceBarrier::new(ResourceBarrierType::Uav(ResourceUavBarrier::new(
            &RawResource::from_comptr(ComPtr::new(addr)),
        )))
    };
    let mut builder = ResourceBarrierBuilder::default();
    assert_eq!(builder.len(), 0);
    assert!(builder.as_ffi_slice().is_empty());
    assert!(builder.try_push(uav(1)));
    builder.extend(&[uav(2), uav(3), uav(4)]);
    builder.extend(&[]);
    builder.push(uav(5));
    let addresses: Vec<usize> = builder.as_ffi_slice().iter().map(|b| b.resource).collect();
    assert_eq!(addresses, vec![1, 2, 3, 4, 5]);
    assert!(builder.as_ffi_slice().iter().all(|b| b.barrier_type == 2));
}
