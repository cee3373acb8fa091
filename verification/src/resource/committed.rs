//! Committed resources: resources with a heap of their own.

use vstd::prelude::*;
use crate::comptr::{ComPtr, ResourceObject};
use crate::error::{CreationError, WinError};
use crate::resource::description::ResourceDesc;
use crate::resource::heap::description::{HeapFlags, HeapProperties, HeapType};
use crate::resource::raw::RawResource;
use crate::resource::state::ResourceStates;

verus! {

/// The state in which a resource on a heap of the given class starts.
///
/// A resource on an upload heap starts in the generic read state and one on
/// a readback heap as a copy destination, whatever the caller asks for: the
/// native layer accepts nothing else there. On every other heap the resource
/// starts in the state that was asked for.
pub open spec fn effective_initial_state(
    heap_type: HeapType,
    requested: ResourceStates,
) -> ResourceStates {
    match heap_type {
        HeapType::Upload => ResourceStates { bits: ResourceStates::GENERIC_READ },
        HeapType::Readback => ResourceStates { bits: ResourceStates::COPY_DEST },
        _ => requested,
    }
}

/// The state in which a resource on a heap of the given class starts.
pub fn initial_state_on(heap_type: HeapType, requested: ResourceStates) -> (r: ResourceStates)
    ensures
        r == effective_initial_state(heap_type, requested),
{
    match heap_type {
        HeapType::Upload => ResourceStates::generic_read(),
        HeapType::Readback => ResourceStates::copy_dest(),
        _ => requested,
    }
}

/// What a committed resource is made from.
#[derive(Copy, Clone, Debug, PartialEq, Eq, Structural)]
pub struct CommittedResourceInfo {
    /// The properties of the heap that is made for the resource.
    pub heap_properties: HeapProperties,
    /// The options of that heap.
    pub heap_flags: HeapFlags,
    /// The shape of the resource.
    pub desc: ResourceDesc,
    /// The state in which the resource starts.
    pub initial_state: ResourceStates,
}

impl CommittedResourceInfo {
    /// Whether the initial state is one that the class of the heap allows.
    pub open spec fn state_allowed(&self) -> bool {
        self.initial_state == effective_initial_state(
            self.heap_properties.heap_type,
            self.initial_state,
        )
    }
}

/// A committed resource that is yet to be created: the arguments of the one
/// native call that creates the heap and the resource together.
#[derive(Copy, Clone, Debug)]
pub struct CommittedResourceRequest {
    info: CommittedResourceInfo,
}

impl CommittedResourceRequest {
    /// The arguments of the native call.
    pub closed spec fn view(&self) -> CommittedResourceInfo {
        self.info
    }

    #[verifier::type_invariant]
    spec fn inv(&self) -> bool {
        self.info.state_allowed()
    }

    /// The arguments of the native call. The initial state among them is
    /// one that the class of the heap allows.
    pub fn info(&self) -> (r: CommittedResourceInfo)
        ensures
            r == self@,
            r.state_allowed(),
    {
        proof {
            use_type_invariant(self);
        }
        self.info
    }

    /// Ends the creation with what the native layer answered.
    pub fn complete(self, outcome: Result<ComPtr<ResourceObject>, WinError>) -> (r: Result<CommittedResource, CreationError>)
        ensures
            match outcome {
                Ok(ptr) => r is Ok && r->Ok_0.raw().ptr() == ptr && r->Ok_0.info() == self@,
                Err(e) => r == Err::<CommittedResource, CreationError>(CreationError::Native(e)),
            },
    {
        proof {
            use_type_invariant(&self);
        }
        match outcome {
            Ok(ptr) => Ok(CommittedResource { raw: RawResource::from_comptr(ptr), info: self.info }),
            Err(e) => Err(CreationError::Native(e)),
        }
    }
}

/// A resource together with the heap that was made for it alone.
#[derive(Debug)]
pub struct CommittedResource {
    raw: RawResource,
    info: CommittedResourceInfo,
}

impl CommittedResource {
    /// The resource itself.
    pub closed spec fn raw(&self) -> RawResource {
        self.raw
    }

    /// What the resource was made from.
    pub closed spec fn info(&self) -> CommittedResourceInfo {
        self.info
    }

    #[verifier::type_invariant]
    spec fn inv(&self) -> bool {
        self.info.state_allowed()
    }

    /// Begins the creation of a resource on a heap of its own. The resource
    /// starts in `initial_state`, unless the heap is an upload or a readback
    /// heap: there the state is fixed and `initial_state` is not heard.
    pub fn create(
        heap_properties: &HeapProperties,
        heap_flags: HeapFlags,
        desc: &ResourceDesc,
        initial_state: ResourceStates,
    ) -> (r: CommittedResourceRequest)
        ensures
            r@ == (CommittedResourceInfo {
                heap_properties: *heap_properties,
                heap_flags,
                desc: *desc,
                initial_state: effective_initial_state(heap_properties.heap_type, initial_state),
            }),
    {
        let state = initial_state_on(heap_properties.heap_type, initial_state);
        CommittedResourceRequest {
            info: CommittedResourceInfo {
                heap_properties: *heap_properties,
                heap_flags,
                desc: *desc,
                initial_state: state,
            },
        }
    }

    /// Takes a native resource as a committed resource made from `info`, if
    /// its initial state is one that the class of its heap allows.
    pub fn from_raw(raw: RawResource, info: CommittedResourceInfo) -> (r: Option<CommittedResource>)
        ensures
            info.state_allowed() ==> r is Some && r->Some_0.raw() == raw && r->Some_0.info()
                == info,
            !info.state_allowed() ==> r is None,
    {
        let state = initial_state_on(info.heap_properties.heap_type, info.initial_state);
        if state.bits == info.initial_state.bits {
            Some(CommittedResource { raw, info })
        } else {
            None
        }
    }

    /// The resource itself.
    pub fn as_raw(&self) -> (r: &RawResource)
        ensures
            *r == self.raw(),
    {
        &self.raw
    }

    /// What the resource was made from.
    pub fn get_info(&self) -> (r: CommittedResourceInfo)
        ensures
            r == self.info(),
            r.state_allowed(),
    {
        proof {
            use_type_invariant(self);
        }
        self.info
    }

    /// The state in which the resource started.
    pub fn initial_state(&self) -> (r: ResourceStates)
        ensures
            r == self.info().initial_state,
            self.info().heap_properties.heap_type == HeapType::Upload ==> r.bits
                == ResourceStates::GENERIC_READ,
            self.info().heap_properties.heap_type == HeapType::Readback ==> r.bits
                == ResourceStates::COPY_DEST,
    {
        proof {
            use_type_invariant(self);
        }
        self.info.initial_state
    }
}

} // verus!
