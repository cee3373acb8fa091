//! Placed resources: resources at an offset within a heap of the caller.

use vstd::prelude::*;
use crate::comptr::{ComPtr, ResourceObject};
use crate::error::{CreationError, PlacementViolation, WinError};
use crate::resource::committed::{effective_initial_state, initial_state_on};
use crate::resource::description::ResourceDesc;
use crate::resource::heap::Heap;
use crate::resource::raw::RawResource;
use crate::resource::state::ResourceStates;
use crate::resource::ResourceAllocInfo;

verus! {

/// Whether a resource that takes up `info` may lie at `offset` within a heap
/// of `heap_size` bytes: the offset is a multiple of the alignment, and the
/// resource ends within the heap.
pub open spec fn placement_fits(heap_size: u64, offset: u64, info: ResourceAllocInfo) -> bool {
    &&& offset as int % info.alignment.spec_byte_value() as int == 0
    &&& offset + info.size <= heap_size
}

/// What is wrong with a placement, if anything. A placement that is both
/// misaligned and out of bounds counts as misaligned.
pub open spec fn placement_violation(
    heap_size: u64,
    offset: u64,
    info: ResourceAllocInfo,
) -> Option<PlacementViolation> {
    if offset as int % info.alignment.spec_byte_value() as int != 0 {
        Some(PlacementViolation::Misaligned)
    } else if offset + info.size > heap_size {
        Some(PlacementViolation::OutOfBounds)
    } else {
        None
    }
}

/// Whether two stretches of bytes, each given by its offset and its size,
/// have a byte in common.
pub open spec fn ranges_overlap(offset_a: u64, size_a: u64, offset_b: u64, size_b: u64) -> bool {
    offset_a < offset_b + size_b && offset_b < offset_a + size_a
}

/// Checks a placement without making anything.
pub fn check_placement(heap_size: u64, offset: u64, info: ResourceAllocInfo) -> (r: Result<(), PlacementViolation>)
    ensures
        r == (match placement_violation(heap_size, offset, info) {
            Some(v) => Err::<(), PlacementViolation>(v),
            None => Ok::<(), PlacementViolation>(()),
        }),
        r is Ok <==> placement_fits(heap_size, offset, info),
{
    if offset % info.alignment.byte_value() != 0 {
        Err(PlacementViolation::Misaligned)
    } else if info.size > heap_size || offset > heap_size - info.size {
        Err(PlacementViolation::OutOfBounds)
    } else {
        Ok(())
    }
}

/// The query that tells what a resource takes up on a heap. It is answered
/// by the native layer alone: sizes of textures depend on the hardware.
#[derive(Copy, Clone, Debug, PartialEq, Eq, Structural)]
pub struct AllocInfoQuery {
    /// The shape of the resource.
    pub desc: ResourceDesc,
    /// The nodes that see the resource.
    pub visible_mask: u32,
}

/// Where and how a placed resource lies on its heap.
#[derive(Copy, Clone, Debug, PartialEq, Eq, Structural)]
pub struct Placement {
    /// The offset of the resource within the heap, in bytes.
    pub heap_offset: u64,
    /// What the resource takes up.
    pub alloc_info: ResourceAllocInfo,
    /// The shape of the resource.
    pub desc: ResourceDesc,
    /// The state in which the resource starts.
    pub initial_state: ResourceStates,
}

impl Placement {
    /// Whether the placement is sound on `heap`: it fits, and the initial
    /// state is one that the class of the heap allows.
    pub open spec fn sound_on(&self, heap: Heap) -> bool {
        &&& placement_fits(heap.desc().size, self.heap_offset, self.alloc_info)
        &&& self.initial_state == effective_initial_state(
            heap.desc().properties.heap_type,
            self.initial_state,
        )
    }
}

/// A placed resource that is yet to be created: the arguments of the native
/// call that creates it. The placement has been checked.
#[derive(Debug)]
pub struct PlacedResourceRequest {
    heap: Heap,
    placement: Placement,
}

impl PlacedResourceRequest {
    /// The heap on which the resource is placed.
    pub closed spec fn heap(&self) -> Heap {
        self.heap
    }

    /// Where and how the resource lies on the heap.
    pub closed spec fn placement(&self) -> Placement {
        self.placement
    }

    #[verifier::type_invariant]
    spec fn inv(&self) -> bool {
        self.placement.sound_on(self.heap)
    }

    /// The heap on which the resource is placed.
    pub fn get_heap(&self) -> (r: &Heap)
        ensures
            *r == self.heap(),
    {
        &self.heap
    }

    /// Where and how the resource lies on the heap. The placement is sound.
    pub fn get_placement(&self) -> (r: Placement)
        ensures
            r == self.placement(),
            r.sound_on(self.heap()),
    {
        proof {
            use_type_invariant(self);
        }
        self.placement
    }

    /// Ends the creation with what the native layer answered.
    pub fn complete(self, outcome: Result<ComPtr<ResourceObject>, WinError>) -> (r: Result<PlacedResource, CreationError>)
        ensures
            match outcome {
                Ok(ptr) => {
                    &&& r is Ok
                    &&& r->Ok_0.raw().ptr() == ptr
                    &&& r->Ok_0.heap() == self.heap()
                    &&& r->Ok_0.placement() == self.placement()
                },
                Err(e) => r == Err::<PlacedResource, CreationError>(CreationError::Native(e)),
            },
    {
        proof {
            use_type_invariant(&self);
        }
        match outcome {
            Ok(ptr) => Ok(
                PlacedResource {
                    raw: RawResource::from_comptr(ptr),
                    heap: self.heap,
                    placement: self.placement,
                },
            ),
            Err(e) => Err(CreationError::Native(e)),
        }
    }
}

/// A resource at an offset within a heap.
///
/// The resource holds its heap, so the heap lives at least as long as the
/// resource does. It lies within the heap, at an offset that is a multiple
/// of its alignment.
#[derive(Debug)]
pub struct PlacedResource {
    raw: RawResource,
    heap: Heap,
    placement: Placement,
}

impl PlacedResource {
    /// The resource itself.
    pub closed spec fn raw(&self) -> RawResource {
        self.raw
    }

    /// The heap on which the resource lies.
    pub closed spec fn heap(&self) -> Heap {
        self.heap
    }

    /// Where and how the resource lies on the heap.
    pub closed spec fn placement(&self) -> Placement {
        self.placement
    }

    #[verifier::type_invariant]
    spec fn inv(&self) -> bool {
        self.placement.sound_on(self.heap)
    }

    /// Whether two placed resources lie on one heap, at one offset, and take
    /// up the same there.
    pub open spec fn same_placement(&self, other: &PlacedResource) -> bool {
        &&& self.heap().ptr().addr() == other.heap().ptr().addr()
        &&& self.placement().heap_offset == other.placement().heap_offset
        &&& self.placement().alloc_info == other.placement().alloc_info
    }

    /// Whether two placed resources lie on one heap and have a byte of it in
    /// common.
    pub open spec fn spec_overlaps(&self, other: &PlacedResource) -> bool {
        &&& self.heap().ptr().addr() == other.heap().ptr().addr()
        &&& ranges_overlap(
            self.placement().heap_offset,
            self.placement().alloc_info.size,
            other.placement().heap_offset,
            other.placement().alloc_info.size,
        )
    }

    /// The query that must be answered before a resource of `desc` can be
    /// placed on `heap`.
    pub fn alloc_info_query(heap: &Heap, desc: &ResourceDesc) -> (r: AllocInfoQuery)
        ensures
            r == (AllocInfoQuery {
                desc: *desc,
                visible_mask: heap.desc().properties.visible_node_mask,
            }),
    {
        AllocInfoQuery { desc: *desc, visible_mask: heap.get_desc().properties.visible_node_mask }
    }

    /// Begins the creation of a resource at `offset` within `heap`.
    ///
    /// `alloc_info` is the answer of the native layer to
    /// `alloc_info_query`. The placement is refused, before the native layer
    /// is asked to create anything, where the offset is not a multiple of
    /// the alignment or the resource would end past the heap. Nothing is
    /// rounded or moved. Whether the bytes are shared with another resource
    /// is not looked at: resources may alias, and `overlaps` tells.
    ///
    /// The resource starts in `initial_state`, unless the heap is an upload
    /// or a readback heap, where the state is fixed.
    pub fn create(
        heap: &Heap,
        offset: u64,
        desc: &ResourceDesc,
        initial_state: ResourceStates,
        alloc_info: ResourceAllocInfo,
    ) -> (r: Result<PlacedResourceRequest, PlacementViolation>)
        ensures
            match placement_violation(heap.desc().size, offset, alloc_info) {
                Some(v) => r == Err::<PlacedResourceRequest, PlacementViolation>(v),
                None => {
                    &&& r is Ok
                    &&& r->Ok_0.heap() == *heap
                    &&& r->Ok_0.placement() == (Placement {
                        heap_offset: offset,
                        alloc_info,
                        desc: *desc,
                        initial_state: effective_initial_state(
                            heap.desc().properties.heap_type,
                            initial_state,
                        ),
                    })
                },
            },
    {
        match check_placement(heap.size(), offset, alloc_info) {
            Err(v) => Err(v),
            Ok(()) => {
                let state = initial_state_on(heap.get_desc().properties.heap_type, initial_state);
                Ok(
                    PlacedResourceRequest {
                        heap: heap.clone(),
                        placement: Placement {
                            heap_offset: offset,
                            alloc_info,
                            desc: *desc,
                            initial_state: state,
                        },
                    },
                )
            },
        }
    }

    /// Takes a native resource as a resource placed on `heap`, if the
    /// placement is sound there.
    pub fn from_raw(raw: RawResource, heap: Heap, placement: Placement) -> (r: Option<PlacedResource>)
        ensures
            placement.sound_on(heap) ==> r is Some && r->Some_0.raw() == raw && r->Some_0.heap()
                == heap && r->Some_0.placement() == placement,
            !placement.sound_on(heap) ==> r is None,
    {
        let fits = check_placement(heap.size(), placement.heap_offset, placement.alloc_info);
        let state = initial_state_on(heap.get_desc().properties.heap_type, placement.initial_state);
        if fits.is_ok() && state.bits == placement.initial_state.bits {
            Some(PlacedResource { raw, heap, placement })
        } else {
            None
        }
    }

    /// The resource itself.
    pub fn as_raw(&self) -> (r: &RawResource)
        ensures
            *r == self.raw(),
    {
        &self.raw
    }

    /// The heap on which the resource lies.
    pub fn get_placed_heap(&self) -> (r: &Heap)
        ensures
            *r == self.heap(),
    {
        &self.heap
    }

    /// The offset of the resource within its heap.
    pub fn get_heap_offset(&self) -> (r: u64)
        ensures
            r == self.placement().heap_offset,
            r as int % self.placement().alloc_info.alignment.spec_byte_value() as int == 0,
            r + self.placement().alloc_info.size <= self.heap().desc().size,
    {
        proof {
            use_type_invariant(self);
        }
        self.placement.heap_offset
    }

    /// What the resource takes up on its heap.
    pub fn get_alloc_info(&self) -> (r: ResourceAllocInfo)
        ensures
            r == self.placement().alloc_info,
    {
        self.placement.alloc_info
    }

    /// Where and how the resource lies on its heap.
    pub fn get_placement(&self) -> (r: Placement)
        ensures
            r == self.placement(),
            r.sound_on(self.heap()),
    {
        proof {
            use_type_invariant(self);
        }
        self.placement
    }

    /// Whether both resources lie on one heap, at one offset, and take up
    /// the same there.
    pub fn is_same_placement(&self, other: &PlacedResource) -> (r: bool)
        ensures
            r == self.same_placement(other),
    {
        self.heap.as_comptr().same_object(other.heap.as_comptr()) && self.placement.heap_offset
            == other.placement.heap_offset && self.placement.alloc_info
            == other.placement.alloc_info
    }

    /// Whether both resources lie on one heap and share a byte of it.
    pub fn overlaps(&self, other: &PlacedResource) -> (r: bool)
        ensures
            r == self.spec_overlaps(other),
    {
        proof {
            use_type_invariant(self);
            use_type_invariant(other);
        }
        self.heap.as_comptr().same_object(other.heap.as_comptr()) && self.placement.heap_offset
            < other.placement.heap_offset + other.placement.alloc_info.size
            && other.placement.heap_offset < self.placement.heap_offset
            + self.placement.alloc_info.size
    }
}

/// A placement that reaches past the end of the heap is refused.
pub proof fn lemma_out_of_bounds_is_refused(heap_size: u64, offset: u64, info: ResourceAllocInfo)
    requires
        offset + info.size > heap_size,
    ensures
        placement_violation(heap_size, offset, info) is Some,
        !placement_fits(heap_size, offset, info),
{
}

/// A placement at an offset that is no multiple of the alignment is refused,
/// as misaligned.
pub proof fn lemma_misaligned_is_refused(heap_size: u64, offset: u64, info: ResourceAllocInfo)
    requires
        offset as int % info.alignment.spec_byte_value() as int != 0,
    ensures
        placement_violation(heap_size, offset, info) == Some(PlacementViolation::Misaligned),
        !placement_fits(heap_size, offset, info),
{
}

} // verus!
