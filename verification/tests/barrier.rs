use redirect::comptr::ComPtr;
use redirect::resource::barrier::{
    NativeBarrier, ResourceBarrier, ResourceBarrierBuilder, ResourceBarrierType,
    ResourceTransitionBarrier, ResourceUavBarrier,
};
use redirect::resource::raw::RawResource;
use redirect::resource::state::ResourceStates;

fn resource(addr: usize) -> RawResource {
    RawResource::from_comptr(ComPtr::new(addr))
}

fn transition(addr: usize, subresource: u32) -> ResourceBarrier {
    ResourceBarrier::new(ResourceBarrierType::Transition(ResourceTransitionBarrier::new(
        &resource(addr),
        subresource,
        ResourceStates { bits: ResourceStates::COMMON },
        ResourceStates { bits: ResourceStates::RENDER_TARGET },
    )))
}

fn pushed_in_order(n: usize) {
    let mut builder = ResourceBarrierBuilder::new();
    for i in 0..n {
        builder.push(transition(0x1000 + i, i as u32));
    }
    let slice = builder.as_ffi_slice();
    assert_eq!(slice.len(), n);
    assert_eq!(builder.len(), n);
    for i in 0..n {
        assert_eq!(
            slice[i],
            NativeBarrier {
                barrier_type: 0,
                flags: 0,
                resource: 0x1000 + i,
                resource_after: 0,
                subresource: i as u32,
                state_before: 0,
                state_after: 0x4,
            }
        );
    }
}

#[test]
fn no_barrier_gives_an_empty_batch() {
    pushed_in_order(0);
}

#[test]
fn one_barrier_is_kept() {
    pushed_in_order(1);
}

#[test]
fn eight_barriers_are_kept_in_order() {
    pushed_in_order(8);
}

#[test]
fn a_hundred_barriers_are_kept_in_order() {
    pushed_in_order(100);
}

#[test]
fn uav_barrier_names_only_its_resource() {
    let barrier = ResourceBarrier::new(ResourceBarrierType::Uav(ResourceUavBarrier::new(&resource(0x40))));
    assert_eq!(
        barrier.to_native(),
        NativeBarrier {
            barrier_type: 2,
            flags: 0,
            resource: 0x40,
            resource_after: 0,
            subresource: 0,
            state_before: 0,
            state_after: 0,
        }
    );
}
