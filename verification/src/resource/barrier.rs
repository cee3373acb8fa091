//! Resource barriers.

use vstd::prelude::*;
use smallvec::SmallVec;
use crate::error::AliasingMismatch;
use crate::list::MAX_LIST_LEN;
use crate::resource::placed::PlacedResource;
use crate::resource::raw::RawResource;
use crate::resource::state::ResourceStates;

verus! {

/// Whether a barrier is whole or one half of a split barrier.
#[derive(Clone, Copy, Debug, PartialEq, Eq, Hash, Structural)]
pub enum ResourceBarrierFlags {
    /// The whole barrier: no flag is set.
    Whole,
    /// The half that begins the transition.
    BeginOnly,
    /// The half that ends the transition.
    EndOnly,
}

impl ResourceBarrierFlags {
    /// The native number of the value.
    pub open spec fn spec_bits(self) -> u32 {
        match self {
            ResourceBarrierFlags::Whole => 0,
            ResourceBarrierFlags::BeginOnly => 0x1,
            ResourceBarrierFlags::EndOnly => 0x2,
        }
    }

    /// The native number of the value.
    pub fn bits(self) -> (r: u32)
        ensures
            r == self.spec_bits(),
    {
        match self {
            ResourceBarrierFlags::Whole => 0,
            ResourceBarrierFlags::BeginOnly => 0x1,
            ResourceBarrierFlags::EndOnly => 0x2,
        }
    }

    /// The value with the native number `bits`, if there is one.
    pub fn from_bits(bits: u32) -> (r: Option<ResourceBarrierFlags>)
        ensures
            match r {
                Some(v) => v.spec_bits() == bits,
                None => forall|v: ResourceBarrierFlags| v.spec_bits() != bits,
            },
    {
        if bits == 0 {
            Some(ResourceBarrierFlags::Whole)
        } else if bits == 0x1 {
            Some(ResourceBarrierFlags::BeginOnly)
        } else if bits == 0x2 {
            Some(ResourceBarrierFlags::EndOnly)
        } else {
            None
        }
    }
}

impl Default for ResourceBarrierFlags {
    /// The whole barrier.
    fn default() -> (r: ResourceBarrierFlags)
        ensures
            r == ResourceBarrierFlags::Whole,
    {
        ResourceBarrierFlags::Whole
    }
}

/// The transition of a subresource from one use to another.
#[derive(Copy, Clone, Debug, PartialEq, Eq, Structural)]
pub struct ResourceTransitionBarrier {
    resource: usize,
    subresource: u32,
    before: ResourceStates,
    after: ResourceStates,
}

impl ResourceTransitionBarrier {
    /// The address of the resource.
    pub closed spec fn resource(&self) -> usize {
        self.resource
    }

    /// The index of the subresource.
    pub closed spec fn subresource(&self) -> u32 {
        self.subresource
    }

    /// The states before the transition.
    pub closed spec fn before(&self) -> ResourceStates {
        self.before
    }

    /// The states after the transition.
    pub closed spec fn after(&self) -> ResourceStates {
        self.after
    }

    /// The transition of a subresource of `resource` from `before` to
    /// `after`. That the subresource is in `before` when the barrier runs is
    /// for the caller to see to.
    pub fn new(
        resource: &RawResource,
        subresource: u32,
        before: ResourceStates,
        after: ResourceStates,
    ) -> (r: ResourceTransitionBarrier)
        ensures
            r.resource() == resource.ptr().addr(),
            r.subresource() == subresource,
            r.before() == before,
            r.after() == after,
    {
        ResourceTransitionBarrier {
            resource: resource.as_comptr().as_mut_ptr(),
            subresource,
            before,
            after,
        }
    }
}

/// The change from the use of one resource to the use of another that lies
/// on the same bytes of the same heap.
#[derive(Copy, Clone, Debug, PartialEq, Eq, Structural)]
pub struct ResourceAliasingBarrier {
    before: usize,
    after: usize,
}

/// What sets two placements apart, if anything: the heap first, then the
/// offset, then what the resources take up.
pub open spec fn aliasing_mismatch(
    before: &PlacedResource,
    after: &PlacedResource,
) -> Option<AliasingMismatch> {
    if before.heap().ptr().addr() != after.heap().ptr().addr() {
        Some(AliasingMismatch::Heap)
    } else if before.placement().heap_offset != after.placement().heap_offset {
        Some(AliasingMismatch::Offset)
    } else if before.placement().alloc_info != after.placement().alloc_info {
        Some(AliasingMismatch::AllocInfo)
    } else {
        None
    }
}

impl ResourceAliasingBarrier {
    /// The address of the resource that was in use.
    pub closed spec fn before(&self) -> usize {
        self.before
    }

    /// The address of the resource that comes into use.
    pub closed spec fn after(&self) -> usize {
        self.after
    }

    /// The barrier between two resources that lie on one heap, at one
    /// offset, and take up the same there.
    pub fn new(before: &PlacedResource, after: &PlacedResource) -> (r: ResourceAliasingBarrier)
        requires
            before.same_placement(after),
        ensures
            r.before() == before.raw().ptr().addr(),
            r.after() == after.raw().ptr().addr(),
    {
        ResourceAliasingBarrier {
            before: before.as_raw().as_comptr().as_mut_ptr(),
            after: after.as_raw().as_comptr().as_mut_ptr(),
        }
    }

    /// The barrier between two placed resources, if they lie on one heap, at
    /// one offset, and take up the same there; otherwise what sets them
    /// apart. Nothing native is touched either way.
    pub fn checked(before: &PlacedResource, after: &PlacedResource) -> (r: Result<ResourceAliasingBarrier, AliasingMismatch>)
        ensures
            match aliasing_mismatch(before, after) {
                Some(m) => r == Err::<ResourceAliasingBarrier, AliasingMismatch>(m),
                None => {
                    &&& r is Ok
                    &&& r->Ok_0.before() == before.raw().ptr().addr()
                    &&& r->Ok_0.after() == after.raw().ptr().addr()
                },
            },
            before.placement().heap_offset != after.placement().heap_offset ==> r is Err,
    {
        if !before.get_placed_heap().as_comptr().same_object(after.get_placed_heap().as_comptr()) {
            Err(AliasingMismatch::Heap)
        } else if before.get_heap_offset() != after.get_heap_offset() {
            Err(AliasingMismatch::Offset)
        } else if before.get_alloc_info() != after.get_alloc_info() {
            Err(AliasingMismatch::AllocInfo)
        } else {
            Ok(ResourceAliasingBarrier::new(before, after))
        }
    }
}

/// The fence between unordered accesses to a resource: those before it end
/// before those after it begin.
#[derive(Copy, Clone, Debug, PartialEq, Eq, Structural)]
pub struct ResourceUavBarrier {
    resource: usize,
}

impl ResourceUavBarrier {
    /// The address of the resource.
    pub closed spec fn resource(&self) -> usize {
        self.resource
    }

    /// The fence between unordered accesses to `resource`.
    pub fn new(resource: &RawResource) -> (r: ResourceUavBarrier)
        ensures
            r.resource() == resource.ptr().addr(),
    {
        ResourceUavBarrier { resource: resource.as_comptr().as_mut_ptr() }
    }
}

/// What a barrier is about.
#[derive(Copy, Clone, Debug, PartialEq, Eq, Structural)]
pub enum ResourceBarrierType {
    Transition(ResourceTransitionBarrier),
    Aliasing(ResourceAliasingBarrier),
    Uav(ResourceUavBarrier),
}

/// A resource barrier.
#[derive(Copy, Clone, Debug, PartialEq, Eq, Structural)]
pub struct ResourceBarrier {
    pub flags: ResourceBarrierFlags,
    pub barrier_type: ResourceBarrierType,
}

/// The native number of a transition barrier.
pub const RESOURCE_BARRIER_TYPE_TRANSITION: u32 = 0;

/// The native number of an aliasing barrier.
pub const RESOURCE_BARRIER_TYPE_ALIASING: u32 = 1;

/// The native number of an unordered access barrier.
pub const RESOURCE_BARRIER_TYPE_UAV: u32 = 2;

/// A barrier, field by field as the native layer reads it.
///
/// A transition fills `resource`, `subresource` and the two states; an
/// aliasing barrier fills `resource` with the resource before and
/// `resource_after` with the one after; an unordered access barrier fills
/// `resource`. What a barrier does not fill is zero.
#[derive(Copy, Clone, Debug, PartialEq, Eq, Structural)]
pub struct NativeBarrier {
    pub barrier_type: u32,
    pub flags: u32,
    pub resource: usize,
    pub resource_after: usize,
    pub subresource: u32,
    pub state_before: u32,
    pub state_after: u32,
}

impl ResourceBarrier {
    /// A whole barrier of the given kind.
    pub fn new(barrier: ResourceBarrierType) -> (r: ResourceBarrier)
        ensures
            r == (ResourceBarrier { flags: ResourceBarrierFlags::Whole, barrier_type: barrier }),
    {
        ResourceBarrier { flags: ResourceBarrierFlags::Whole, barrier_type: barrier }
    }

    /// The barrier as the native layer reads it.
    pub open spec fn spec_to_native(self) -> NativeBarrier {
        match self.barrier_type {
            ResourceBarrierType::Transition(t) => NativeBarrier {
                barrier_type: RESOURCE_BARRIER_TYPE_TRANSITION,
                flags: self.flags.spec_bits(),
                resource: t.resource(),
                resource_after: 0,
                subresource: t.subresource(),
                state_before: t.before().bits,
                state_after: t.after().bits,
            },
            ResourceBarrierType::Aliasing(a) => NativeBarrier {
                barrier_type: RESOURCE_BARRIER_TYPE_ALIASING,
                flags: self.flags.spec_bits(),
                resource: a.before(),
                resource_after: a.after(),
                subresource: 0,
                state_before: 0,
                state_after: 0,
            },
            ResourceBarrierType::Uav(u) => NativeBarrier {
                barrier_type: RESOURCE_BARRIER_TYPE_UAV,
                flags: self.flags.spec_bits(),
                resource: u.resource(),
                resource_after: 0,
                subresource: 0,
                state_before: 0,
                state_after: 0,
            },
        }
    }

    /// Lays the barrier out as the native layer reads it.
    pub fn to_native(self) -> (r: NativeBarrier)
        ensures
            r == self.spec_to_native(),
    {
        let flags = self.flags.bits();
        match self.barrier_type {
            ResourceBarrierType::Transition(t) => NativeBarrier {
                barrier_type: RESOURCE_BARRIER_TYPE_TRANSITION,
                flags,
                resource: t.resource,
                resource_after: 0,
                subresource: t.subresource,
                state_before: t.before.bits,
                state_after: t.after.bits,
            },
            ResourceBarrierType::Aliasing(a) => NativeBarrier {
                barrier_type: RESOURCE_BARRIER_TYPE_ALIASING,
                flags,
                resource: a.before,
                resource_after: a.after,
                subresource: 0,
                state_before: 0,
                state_after: 0,
            },
            ResourceBarrierType::Uav(u) => NativeBarrier {
                barrier_type: RESOURCE_BARRIER_TYPE_UAV,
                flags,
                resource: u.resource,
                resource_after: 0,
                subresource: 0,
                state_before: 0,
                state_after: 0,
            },
        }
    }
}

/// The barriers of a sequence, each as the native layer reads it.
pub open spec fn to_native_all(barriers: Seq<ResourceBarrier>) -> Seq<NativeBarrier> {
    Seq::new(barriers.len(), |i: int| barriers[i].spec_to_native())
}

/// A `SmallVec` of barriers, which keeps up to eight of them in place.
#[derive(Debug)]
#[verifier::external_body]
pub struct BarrierList {
    inner: SmallVec<[NativeBarrier; 8]>,
}

/// The barriers that a list holds, first pushed first.
pub uninterp spec fn barrier_list_items(list: BarrierList) -> Seq<NativeBarrier>;

/// `SmallVec::new`: a vector that holds nothing.
#[verifier::external_body]
fn barrier_list_new() -> (r: BarrierList)
    ensures
        barrier_list_items(r) == Seq::<NativeBarrier>::empty(),
{
    BarrierList { inner: SmallVec::new() }
}

/// `SmallVec::push`: the item is appended behind those that the vector
/// holds, which stay as they are. The vector grows by powers of two and
/// gives up where the byte count of the new capacity overflows; with fewer
/// than `MAX_LIST_LEN` items it does not.
#[verifier::external_body]
fn barrier_list_push(list: &mut BarrierList, item: NativeBarrier)
    requires
        barrier_list_items(*old(list)).len() < MAX_LIST_LEN,
    ensures
        barrier_list_items(*final(list)) == barrier_list_items(*old(list)).push(item),
{
    list.inner.push(item)
}

/// `SmallVec::as_slice`: the items held, in their order, as one slice.
#[verifier::external_body]
fn barrier_list_as_slice(list: &BarrierList) -> (r: &[NativeBarrier])
    ensures
        r@ == barrier_list_items(*list),
{
    list.inner.as_slice()
}

impl BarrierList {
    /// The barriers of the list, first pushed first.
    pub closed spec fn view(&self) -> Seq<NativeBarrier> {
        barrier_list_items(*self)
    }

    /// An empty list.
    pub fn new() -> (r: BarrierList)
        ensures
            r@ == Seq::<NativeBarrier>::empty(),
    {
        barrier_list_new()
    }

    /// The number of barriers in the list.
    pub fn len(&self) -> (r: usize)
        ensures
            r == self@.len(),
    {
        barrier_list_as_slice(self).len()
    }

    /// Appends an item to the list.
    pub fn push(&mut self, item: NativeBarrier)
        requires
            old(self)@.len() < MAX_LIST_LEN,
        ensures
            final(self)@ == old(self)@.push(item),
    {
        barrier_list_push(self, item)
    }

    /// Appends an item to the list, unless the list is full; hands the item
    /// back where it is.
    pub fn try_push(&mut self, item: NativeBarrier) -> (r: Option<NativeBarrier>)
        ensures
            old(self)@.len() < MAX_LIST_LEN ==> r is None && final(self)@ == old(self)@.push(
                item,
            ),
            old(self)@.len() >= MAX_LIST_LEN ==> r == Some(item) && final(self)@ == old(self)@,
    {
        if self.len() < MAX_LIST_LEN {
            self.push(item);
            None
        } else {
            Some(item)
        }
    }

    /// The barriers as one slice, in their order.
    pub fn as_slice(&self) -> (r: &[NativeBarrier])
        ensures
            r@ == self@,
    {
        barrier_list_as_slice(self)
    }
}

impl Default for BarrierList {
    /// An empty list.
    fn default() -> (r: BarrierList)
        ensures
            r@ == Seq::<NativeBarrier>::empty(),
    {
        BarrierList::new()
    }
}

/// A batch of barriers in the making.
///
/// Barriers are only ever appended. The batch is handed to the native layer
/// whole, in the order in which the barriers were pushed.
#[derive(Debug)]
pub struct ResourceBarrierBuilder {
    barriers: BarrierList,
}

impl ResourceBarrierBuilder {
    /// The barriers of the batch, as the native layer reads them, first
    /// pushed first.
    pub closed spec fn view(&self) -> Seq<NativeBarrier> {
        self.barriers@
    }

    /// An empty batch.
    pub fn new() -> (r: ResourceBarrierBuilder)
        ensures
            r@ == Seq::<NativeBarrier>::empty(),
    {
        ResourceBarrierBuilder { barriers: BarrierList::new() }
    }

    /// The number of barriers in the batch.
    pub fn len(&self) -> (r: usize)
        ensures
            r == self@.len(),
    {
        self.barriers.len()
    }

    /// Appends a barrier to the batch.
    pub fn push(&mut self, barrier: ResourceBarrier)
        requires
            old(self)@.len() < MAX_LIST_LEN,
        ensures
            final(self)@ == old(self)@.push(barrier.spec_to_native()),
    {
        self.barriers.push(barrier.to_native())
    }

    /// Appends a barrier to the batch, unless the batch is full; says
    /// whether it did.
    pub fn try_push(&mut self, barrier: ResourceBarrier) -> (r: bool)
        ensures
            r == (old(self)@.len() < MAX_LIST_LEN),
            r ==> final(self)@ == old(self)@.push(barrier.spec_to_native()),
            !r ==> final(self)@ == old(self)@,
    {
        if self.len() < MAX_LIST_LEN {
            self.push(barrier);
            true
        } else {
            false
        }
    }

    /// Appends barriers to the batch, in their order.
    pub fn extend(&mut self, barriers: &[ResourceBarrier])
        requires
            old(self)@.len() + barriers@.len() <= MAX_LIST_LEN,
        ensures
            final(self)@ == old(self)@ + to_native_all(barriers@),
    {
        let mut i: usize = 0;
        while i < barriers.len()
            invariant
                i <= barriers@.len(),
                old(self)@.len() + barriers@.len() <= MAX_LIST_LEN,
                self@ == old(self)@ + to_native_all(barriers@.subrange(0, i as int)),
            decreases barriers@.len() - i,
        {
            let ghost before = self@;
            self.push(barriers[i]);
            proof {
                let done = barriers@.subrange(0, i as int);
                let more = barriers@.subrange(0, i + 1);
                assert(to_native_all(more) =~= to_native_all(done).push(
                    barriers@[i as int].spec_to_native(),
                ));
                assert(self@ =~= old(self)@ + to_native_all(more));
            }
            i = i + 1;
        }
        proof {
            assert(barriers@.subrange(0, i as int) =~= barriers@);
        }
    }

    /// The batch as one slice, for handing to the native layer.
    pub fn as_ffi_slice(&self) -> (r: &[NativeBarrier])
        ensures
            r@ == self@,
    {
        self.barriers.as_slice()
    }
}

impl Default for ResourceBarrierBuilder {
    /// An empty batch.
    fn default() -> (r: ResourceBarrierBuilder)
        ensures
            r@ == Seq::<NativeBarrier>::empty(),
    {
        ResourceBarrierBuilder::new()
    }
}

/// Barriers that are pushed one after another onto an empty batch are the
/// batch: as many as were pushed, in the order of the pushes.
pub proof fn lemma_pushes_are_kept_in_order(barriers: Seq<ResourceBarrier>, batches: Seq<Seq<NativeBarrier>>)
    requires
        batches.len() == barriers.len() + 1,
        batches[0] == Seq::<NativeBarrier>::empty(),
        forall|i: int|
            0 <= i < barriers.len() ==> #[trigger] batches[i + 1] == batches[i].push(
                barriers[i].spec_to_native(),
            ),
    ensures
        batches[barriers.len() as int].len() == barriers.len(),
        batches[barriers.len() as int] == to_native_all(barriers),
        forall|i: int|
            0 <= i < barriers.len() ==> batches[barriers.len() as int][i]
                == barriers[i].spec_to_native(),
{
    let n = barriers.len() as int;
    assert forall|k: int| 0 <= k <= n implies #[trigger] batches[k] == to_native_all(
        barriers.subrange(0, k),
    ) by {
        lemma_prefix_batches(barriers, batches, k);
    }
    assert(barriers.subrange(0, n) =~= barriers);
}

proof fn lemma_prefix_batches(barriers: Seq<ResourceBarrier>, batches: Seq<Seq<NativeBarrier>>, k: int)
    requires
        batches.len() == barriers.len() + 1,
        batches[0] == Seq::<NativeBarrier>::empty(),
        forall|i: int|
            0 <= i < barriers.len() ==> #[trigger] batches[i + 1] == batches[i].push(
                barriers[i].spec_to_native(),
            ),
        0 <= k <= barriers.len(),
    ensures
        batches[k] == to_native_all(barriers.subrange(0, k)),
    decreases k,
{
    if k == 0 {
        assert(to_native_all(barriers.subrange(0, 0)) =~= Seq::<NativeBarrier>::empty());
    } else {
        lemma_prefix_batches(barriers, batches, k - 1);
        assert(batches[(k - 1) + 1] == batches[k - 1].push(barriers[k - 1].spec_to_native()));
        assert(to_native_all(barriers.subrange(0, k)) =~= to_native_all(
            barriers.subrange(0, k - 1),
        ).push(barriers[k - 1].spec_to_native()));
    }
}

} // verus!
