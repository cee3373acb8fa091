//! Heaps: contiguous regions of memory that resources are placed into.

use vstd::prelude::*;
use crate::comptr::{ComPtr, HeapObject};
use crate::error::{AllocationError, WinError};
use crate::resource::heap::description::{
    HeapAlignment,
    HeapDesc,
    HeapFlags,
    HeapProperties,
    HeapType,
    MemoryPoolPreference,
    PageProperty,
};

pub mod description;
pub mod raw;
pub mod traits;

verus! {

/// A heap that the native layer has allocated.
///
/// The heap keeps the description under which it was made, so that its size
/// and its alignment are at hand without asking the driver again.
#[derive(Debug)]
pub struct Heap {
    ptr: ComPtr<HeapObject>,
    desc: HeapDesc,
}

impl Heap {
    /// The native heap.
    pub closed spec fn ptr(&self) -> ComPtr<HeapObject> {
        self.ptr
    }

    /// The description under which the heap was made.
    pub closed spec fn desc(&self) -> HeapDesc {
        self.desc
    }

    /// The size of the heap in bytes.
    pub open spec fn spec_size(&self) -> u64 {
        self.desc().size
    }

    /// Binds a native heap to the description that the driver gives of it.
    pub fn from_comptr(ptr: ComPtr<HeapObject>, desc: HeapDesc) -> (r: Heap)
        ensures
            r.ptr() == ptr,
            r.desc() == desc,
    {
        Heap { ptr, desc }
    }

    /// The native heap.
    pub fn as_comptr(&self) -> (r: &ComPtr<HeapObject>)
        ensures
            *r == self.ptr(),
    {
        &self.ptr
    }

    /// The description under which the heap was made.
    pub fn get_desc(&self) -> (r: HeapDesc)
        ensures
            r == self.desc(),
    {
        self.desc
    }

    /// The size of the heap in bytes.
    pub fn size(&self) -> (r: u64)
        ensures
            r == self.desc().size,
    {
        self.desc.size
    }

    /// The alignment of the heap.
    pub fn alignment(&self) -> (r: HeapAlignment)
        ensures
            r == self.desc().alignment,
    {
        self.desc.alignment
    }

    /// Begins the creation of a heap of `size` bytes with the default
    /// alignment. The size must be a multiple of that alignment; where it is
    /// not, the request fails here and the native layer is never asked.
    pub fn create(properties: HeapProperties, size: u64, flags: HeapFlags) -> (r: Result<HeapRequest, AllocationError>)
        ensures
            default_aligned(size, properties, flags).valid() ==> r is Ok && r->Ok_0@
                == default_aligned(size, properties, flags),
            !default_aligned(size, properties, flags).valid() ==> r == Err::<HeapRequest, AllocationError>(
                AllocationError::InvalidSize,
            ),
    {
        HeapRequest::new(HeapDesc::new(size, properties, flags))
    }
}

impl Clone for Heap {
    /// Another owner of the same heap.
    fn clone(&self) -> (r: Heap)
        ensures
            r == *self,
    {
        Heap { ptr: self.ptr.clone(), desc: self.desc }
    }
}

/// A heap that is yet to be allocated: the description to hand to the native
/// layer. Its size is a multiple of its alignment.
#[derive(Clone, Copy, Debug)]
pub struct HeapRequest {
    desc: HeapDesc,
}

impl HeapRequest {
    /// The description to hand to the native layer.
    pub closed spec fn view(&self) -> HeapDesc {
        self.desc
    }

    #[verifier::type_invariant]
    spec fn inv(&self) -> bool {
        self.desc.valid()
    }

    /// Requests a heap of the given description, if its size is a multiple
    /// of its alignment.
    pub fn new(desc: HeapDesc) -> (r: Result<HeapRequest, AllocationError>)
        ensures
            desc.valid() ==> r is Ok && r->Ok_0@ == desc,
            !desc.valid() ==> r == Err::<HeapRequest, AllocationError>(
                AllocationError::InvalidSize,
            ),
    {
        match desc.validate() {
            Ok(()) => Ok(HeapRequest { desc }),
            Err(e) => Err(e),
        }
    }

    /// The description to hand to the native layer.
    pub fn desc(&self) -> (r: HeapDesc)
        ensures
            r == self@,
            r.valid(),
    {
        proof {
            use_type_invariant(self);
        }
        self.desc
    }

    /// Ends the creation with what the native layer answered: the heap, of
    /// exactly the description that was requested, or the failure.
    pub fn complete(self, outcome: Result<ComPtr<HeapObject>, WinError>) -> (r: Result<Heap, AllocationError>)
        ensures
            match outcome {
                Ok(ptr) => r is Ok && r->Ok_0.ptr() == ptr && r->Ok_0.desc() == self@,
                Err(e) => r == Err::<Heap, AllocationError>(AllocationError::Native(e)),
            },
    {
        match outcome {
            Ok(ptr) => Ok(Heap::from_comptr(ptr, self.desc)),
            Err(e) => Err(AllocationError::Native(e)),
        }
    }
}

/// The description of a heap of `size` bytes with the default alignment.
pub open spec fn default_aligned(size: u64, properties: HeapProperties, flags: HeapFlags) -> HeapDesc {
    HeapDesc { size, properties, alignment: HeapAlignment::Default, flags }
}

/// The description of a heap of the given class with every other property
/// left at its default.
pub open spec fn plain_heap_desc(heap_type: HeapType, size: u64) -> HeapDesc {
    HeapDesc {
        size,
        properties: HeapProperties {
            heap_type,
            page: PageProperty::Unknown,
            pool_preference: MemoryPoolPreference::Unknown,
            creation_node_mask: 0,
            visible_node_mask: 0,
        },
        alignment: HeapAlignment::Default,
        flags: HeapFlags { bits: 0 },
    }
}

/// A heap in GPU memory with every property at its default.
#[derive(Debug)]
pub struct DefaultHeap {
    raw: Heap,
}

impl Clone for DefaultHeap {
    /// Another owner of the same heap.
    fn clone(&self) -> (r: DefaultHeap)
        ensures
            r@ == self@,
    {
        proof {
            use_type_invariant(self);
        }
        DefaultHeap { raw: self.raw.clone() }
    }
}

impl DefaultHeap {
    /// The heap itself.
    pub closed spec fn view(&self) -> Heap {
        self.raw
    }

    #[verifier::type_invariant]
    spec fn inv(&self) -> bool {
        self.raw.desc().properties.heap_type == HeapType::Default
    }

    /// Begins the creation of a default heap of `size` bytes.
    pub fn new(size: u64) -> (r: Result<HeapRequest, AllocationError>)
        ensures
            plain_heap_desc(HeapType::Default, size).valid() ==> r is Ok && r->Ok_0@
                == plain_heap_desc(HeapType::Default, size),
            !plain_heap_desc(HeapType::Default, size).valid() ==> r == Err::<HeapRequest, AllocationError>(AllocationError::InvalidSize),
    {
        Heap::create(HeapProperties::new(HeapType::Default), size, HeapFlags { bits: 0 })
    }

    /// The heap itself, which is of the class that the type names.
    pub fn get(&self) -> (r: &Heap)
        ensures
            *r == self@,
            r.desc().properties.heap_type == HeapType::Default,
    {
        proof {
            use_type_invariant(self);
        }
        &self.raw
    }

    /// Takes a heap as a default heap, if it is one.
    pub fn from_raw(raw: Heap) -> (r: Option<DefaultHeap>)
        ensures
            raw.desc().properties.heap_type == HeapType::Default ==> r is Some && r->Some_0@
                == raw,
            raw.desc().properties.heap_type != HeapType::Default ==> r is None,
    {
        if raw.get_desc().properties.heap_type == HeapType::Default {
            Some(DefaultHeap { raw })
        } else {
            None
        }
    }
}

/// An upload heap with every property at its default.
#[derive(Debug)]
pub struct UploadHeap {
    raw: Heap,
}

impl Clone for UploadHeap {
    /// Another owner of the same heap.
    fn clone(&self) -> (r: UploadHeap)
        ensures
            r@ == self@,
    {
        proof {
            use_type_invariant(self);
        }
        UploadHeap { raw: self.raw.clone() }
    }
}

impl UploadHeap {
    /// The heap itself.
    pub closed spec fn view(&self) -> Heap {
        self.raw
    }

    #[verifier::type_invariant]
    spec fn inv(&self) -> bool {
        self.raw.desc().properties.heap_type == HeapType::Upload
    }

    /// Begins the creation of an upload heap of `size` bytes.
    pub fn new(size: u64) -> (r: Result<HeapRequest, AllocationError>)
        ensures
            plain_heap_desc(HeapType::Upload, size).valid() ==> r is Ok && r->Ok_0@
                == plain_heap_desc(HeapType::Upload, size),
            !plain_heap_desc(HeapType::Upload, size).valid() ==> r == Err::<HeapRequest, AllocationError>(AllocationError::InvalidSize),
    {
        Heap::create(HeapProperties::new(HeapType::Upload), size, HeapFlags { bits: 0 })
    }

    /// The heap itself, which is of the class that the type names.
    pub fn get(&self) -> (r: &Heap)
        ensures
            *r == self@,
            r.desc().properties.heap_type == HeapType::Upload,
    {
        proof {
            use_type_invariant(self);
        }
        &self.raw
    }

    /// Takes a heap as an upload heap, if it is one.
    pub fn from_raw(raw: Heap) -> (r: Option<UploadHeap>)
        ensures
            raw.desc().properties.heap_type == HeapType::Upload ==> r is Some && r->Some_0@
                == raw,
            raw.desc().properties.heap_type != HeapType::Upload ==> r is None,
    {
        if raw.get_desc().properties.heap_type == HeapType::Upload {
            Some(UploadHeap { raw })
        } else {
            None
        }
    }
}

/// A readback heap with every property at its default.
#[derive(Debug)]
pub struct ReadbackHeap {
    raw: Heap,
}

impl Clone for ReadbackHeap {
    /// Another owner of the same heap.
    fn clone(&self) -> (r: ReadbackHeap)
        ensures
            r@ == self@,
    {
        proof {
            use_type_invariant(self);
        }
        ReadbackHeap { raw: self.raw.clone() }
    }
}

impl ReadbackHeap {
    /// The heap itself.
    pub closed spec fn view(&self) -> Heap {
        self.raw
    }

    #[verifier::type_invariant]
    spec fn inv(&self) -> bool {
        self.raw.desc().properties.heap_type == HeapType::Readback
    }

    /// Begins the creation of a readback heap of `size` bytes.
    pub fn new(size: u64) -> (r: Result<HeapRequest, AllocationError>)
        ensures
            plain_heap_desc(HeapType::Readback, size).valid() ==> r is Ok && r->Ok_0@
                == plain_heap_desc(HeapType::Readback, size),
            !plain_heap_desc(HeapType::Readback, size).valid() ==> r == Err::<HeapRequest, AllocationError>(AllocationError::InvalidSize),
    {
        Heap::create(HeapProperties::new(HeapType::Readback), size, HeapFlags { bits: 0 })
    }

    /// The heap itself, which is of the class that the type names.
    pub fn get(&self) -> (r: &Heap)
        ensures
            *r == self@,
            r.desc().properties.heap_type == HeapType::Readback,
    {
        proof {
            use_type_invariant(self);
        }
        &self.raw
    }

    /// Takes a heap as a readback heap, if it is one.
    pub fn from_raw(raw: Heap) -> (r: Option<ReadbackHeap>)
        ensures
            raw.desc().properties.heap_type == HeapType::Readback ==> r is Some && r->Some_0@
                == raw,
            raw.desc().properties.heap_type != HeapType::Readback ==> r is None,
    {
        if raw.get_desc().properties.heap_type == HeapType::Readback {
            Some(ReadbackHeap { raw })
        } else {
            None
        }
    }
}

/// A heap in GPU memory that takes multisampled textures: it is aligned to
/// four mebibytes.
#[derive(Debug)]
pub struct MsaaHeap {
    raw: Heap,
}

impl Clone for MsaaHeap {
    /// Another owner of the same heap.
    fn clone(&self) -> (r: MsaaHeap)
        ensures
            r@ == self@,
    {
        proof {
            use_type_invariant(self);
        }
        MsaaHeap { raw: self.raw.clone() }
    }
}

/// The description of a default heap of `size` bytes that takes multisampled
/// textures.
pub open spec fn msaa_heap_desc(size: u64) -> HeapDesc {
    HeapDesc {
        size,
        properties: HeapProperties {
            heap_type: HeapType::Default,
            page: PageProperty::Unknown,
            pool_preference: MemoryPoolPreference::Unknown,
            creation_node_mask: 0,
            visible_node_mask: 0,
        },
        alignment: HeapAlignment::DefaultMsaaResourcePlacement,
        flags: HeapFlags { bits: 0 },
    }
}

impl MsaaHeap {
    /// The heap itself.
    pub closed spec fn view(&self) -> Heap {
        self.raw
    }

    #[verifier::type_invariant]
    spec fn inv(&self) -> bool {
        &&& self.raw.desc().properties.heap_type == HeapType::Default
        &&& self.raw.desc().spec_accepts_msaa()
    }

    /// Begins the creation of a heap of `size` bytes for multisampled
    /// textures. The size must be a multiple of four mebibytes.
    pub fn new(size: u64) -> (r: Result<HeapRequest, AllocationError>)
        ensures
            msaa_heap_desc(size).valid() ==> r is Ok && r->Ok_0@ == msaa_heap_desc(size),
            !msaa_heap_desc(size).valid() ==> r == Err::<HeapRequest, AllocationError>(AllocationError::InvalidSize),
    {
        HeapRequest::new(
            HeapDesc {
                size,
                properties: HeapProperties::new(HeapType::Default),
                alignment: HeapAlignment::DefaultMsaaResourcePlacement,
                flags: HeapFlags { bits: 0 },
            },
        )
    }

    /// The heap itself, which is a default heap aligned to four mebibytes.
    pub fn get(&self) -> (r: &Heap)
        ensures
            *r == self@,
            r.desc().properties.heap_type == HeapType::Default,
            r.desc().spec_accepts_msaa(),
    {
        proof {
            use_type_invariant(self);
        }
        &self.raw
    }

    /// Takes a heap as a heap for multisampled textures, if it is a default
    /// heap aligned to four mebibytes.
    pub fn from_raw(raw: Heap) -> (r: Option<MsaaHeap>)
        ensures
            raw.desc().properties.heap_type == HeapType::Default && raw.desc().spec_accepts_msaa()
                ==> r is Some && r->Some_0@ == raw,
            !(raw.desc().properties.heap_type == HeapType::Default
                && raw.desc().spec_accepts_msaa()) ==> r is None,
    {
        let desc = raw.get_desc();
        if desc.properties.heap_type == HeapType::Default && desc.accepts_msaa() {
            Some(MsaaHeap { raw })
        } else {
            None
        }
    }
}

/// Two heaps that name one native heap and have one description are equal.
pub proof fn lemma_heap_is_its_parts(a: Heap, b: Heap)
    requires
        a.ptr().addr() == b.ptr().addr(),
        a.desc() == b.desc(),
    ensures
        a == b,
{
    crate::comptr::lemma_comptr_is_its_address(a.ptr, b.ptr);
}

/// A heap that was requested with a size and an alignment reports exactly
/// that size and that alignment once the native layer has allocated it.
pub proof fn lemma_heap_round_trip(
    size: u64,
    properties: HeapProperties,
    alignment: HeapAlignment,
    flags: HeapFlags,
    request: HeapRequest,
    heap: Heap,
)
    requires
        size as int % alignment.spec_byte_value() as int == 0,
        request@ == (HeapDesc { size, properties, alignment, flags }),
        heap.desc() == request@,
    ensures
        (HeapDesc { size, properties, alignment, flags }).valid(),
        heap.spec_size() == size,
        heap.desc().alignment == alignment,
{
}

} // verus!
