//! What is known of a heap from its type.

use vstd::prelude::*;
use crate::resource::heap::description::{HeapAlignment, HeapType};
use crate::resource::heap::raw::RawHeap;
use crate::resource::heap::{DefaultHeap, MsaaHeap, ReadbackHeap, UploadHeap};

verus! {

/// A heap of some class.
pub trait Heap {
    /// The heap itself.
    spec fn raw(&self) -> RawHeap;

    /// The class that every heap of this type has.
    spec fn class() -> HeapType;

    /// The heap itself.
    fn as_raw(&self) -> (r: &RawHeap)
        ensures
            *r == self.raw(),
            r.desc().properties.heap_type == Self::class(),
    ;

    /// The size of the heap in bytes.
    fn size(&self) -> (r: u64)
        ensures
            r == self.raw().desc().size,
    {
        self.as_raw().size()
    }

    /// The alignment of the heap.
    fn alignment(&self) -> (r: HeapAlignment)
        ensures
            r == self.raw().desc().alignment,
    {
        self.as_raw().alignment()
    }
}

/// A heap that takes buffers.
pub trait AcceptBuffer: Heap {

}

/// A heap that may be displayed.
pub trait AllowDisplay: Heap {

}

/// A heap that takes multisampled textures. Such a heap is aligned to four
/// mebibytes.
pub trait AcceptMsTexture: Heap {
    /// The heap itself, which is aligned to four mebibytes.
    fn as_msaa_raw(&self) -> (r: &RawHeap)
        ensures
            *r == self.raw(),
            r.desc().spec_accepts_msaa(),
    ;
}

/// A heap that the CPU writes.
pub trait Upload: Heap {

}

/// A heap that the CPU reads.
pub trait Readback: Heap {

}

/// A heap that only the GPU reaches.
pub trait GpuOnly: Heap {

}

/// A heap that takes render target and depth stencil textures.
pub trait AllowRtDs: Heap {

}

/// A heap that takes textures that are neither.
pub trait AllowNonRtDs: Heap {

}

impl Heap for DefaultHeap {
    open spec fn raw(&self) -> RawHeap {
        self@
    }

    open spec fn class() -> HeapType {
        HeapType::Default
    }

    fn as_raw(&self) -> (r: &RawHeap) {
        let r = self.get();
        assert(Self::class() == HeapType::Default);
        r
    }
}

impl AcceptBuffer for DefaultHeap {

}

impl GpuOnly for DefaultHeap {

}

impl AllowRtDs for DefaultHeap {

}

impl AllowNonRtDs for DefaultHeap {

}

impl Heap for UploadHeap {
    open spec fn raw(&self) -> RawHeap {
        self@
    }

    open spec fn class() -> HeapType {
        HeapType::Upload
    }

    fn as_raw(&self) -> (r: &RawHeap) {
        let r = self.get();
        assert(Self::class() == HeapType::Upload);
        r
    }
}

impl AcceptBuffer for UploadHeap {

}

impl Upload for UploadHeap {

}

impl AllowRtDs for UploadHeap {

}

impl AllowNonRtDs for UploadHeap {

}

impl Heap for ReadbackHeap {
    open spec fn raw(&self) -> RawHeap {
        self@
    }

    open spec fn class() -> HeapType {
        HeapType::Readback
    }

    fn as_raw(&self) -> (r: &RawHeap) {
        let r = self.get();
        assert(Self::class() == HeapType::Readback);
        r
    }
}

impl AcceptBuffer for ReadbackHeap {

}

impl Readback for ReadbackHeap {

}

impl AllowRtDs for ReadbackHeap {

}

impl AllowNonRtDs for ReadbackHeap {

}

impl Heap for MsaaHeap {
    open spec fn raw(&self) -> RawHeap {
        self@
    }

    open spec fn class() -> HeapType {
        HeapType::Default
    }

    fn as_raw(&self) -> (r: &RawHeap) {
        let r = self.get();
        assert(Self::class() == HeapType::Default);
        r
    }
}

impl AcceptMsTexture for MsaaHeap {
    fn as_msaa_raw(&self) -> (r: &RawHeap) {
        self.get()
    }
}

impl GpuOnly for MsaaHeap {

}

impl AllowRtDs for MsaaHeap {

}

} // verus!
