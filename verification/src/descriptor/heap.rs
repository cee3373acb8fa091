//! Descriptor heaps: arrays of descriptors of one kind.

use vstd::prelude::*;
use crate::comptr::ComPtr;

verus! {

/// The kind of descriptors that a heap holds.
#[derive(Clone, Copy, Debug, PartialEq, Eq, Hash, Structural)]
pub enum DescriptorHeapType {
    /// Constant buffer, shader resource and unordered access views.
    CbvSrvUav,
    /// Samplers.
    Sampler,
    /// Render target views.
    Rtv,
    /// Depth stencil views.
    Dsv,
}

impl DescriptorHeapType {
    /// The native number of the value.
    pub open spec fn spec_bits(self) -> u32 {
        match self {
            DescriptorHeapType::CbvSrvUav => 0,
            DescriptorHeapType::Sampler => 1,
            DescriptorHeapType::Rtv => 2,
            DescriptorHeapType::Dsv => 3,
        }
    }

    /// The native number of the value.
    pub fn bits(self) -> (r: u32)
        ensures
            r == self.spec_bits(),
    {
        match self {
            DescriptorHeapType::CbvSrvUav => 0,
            DescriptorHeapType::Sampler => 1,
            DescriptorHeapType::Rtv => 2,
            DescriptorHeapType::Dsv => 3,
        }
    }

    /// The value with the native number `bits`, if there is one.
    pub fn from_bits(bits: u32) -> (r: Option<DescriptorHeapType>)
        ensures
            match r {
                Some(v) => v.spec_bits() == bits,
                None => forall|v: DescriptorHeapType| v.spec_bits() != bits,
            },
    {
        if bits == 0 {
            Some(DescriptorHeapType::CbvSrvUav)
        } else if bits == 1 {
            Some(DescriptorHeapType::Sampler)
        } else if bits == 2 {
            Some(DescriptorHeapType::Rtv)
        } else if bits == 3 {
            Some(DescriptorHeapType::Dsv)
        } else {
            None
        }
    }
}

/// The native flag of a heap that shaders do not see.
pub const DESCRIPTOR_HEAP_FLAG_NONE: u32 = 0;

/// The native flag of a heap that shaders see.
pub const DESCRIPTOR_HEAP_FLAG_SHADER_VISIBLE: u32 = 0x1;

/// Marks a handle to a descriptor heap.
#[derive(Debug, Clone, Copy, PartialEq, Eq)]
pub struct DescriptorHeapObject;

/// The description of a descriptor heap as the native layer reads it.
#[derive(Copy, Clone, Debug, PartialEq, Eq, Structural)]
pub struct DescriptorHeapDesc {
    pub heap_type: DescriptorHeapType,
    pub num_descriptors: u32,
    pub flags: u32,
    pub node_mask: u32,
}

/// Builds descriptions of descriptor heaps.
#[derive(Copy, Clone, Debug, PartialEq, Eq, Structural)]
pub struct DescriptorHeapBuilder {
    pub num_descriptors: u32,
    pub node_mask: u32,
}

impl DescriptorHeapBuilder {
    /// A builder of heaps of `num_descriptors` descriptors on the first node.
    pub fn new(num_descriptors: u32) -> (r: DescriptorHeapBuilder)
        ensures
            r == (DescriptorHeapBuilder { num_descriptors, node_mask: 0 }),
    {
        DescriptorHeapBuilder { num_descriptors, node_mask: 0 }
    }

    /// The description of a heap of the given kind and visibility.
    pub open spec fn spec_desc(&self, heap_type: DescriptorHeapType, flags: u32) -> DescriptorHeapDesc {
        DescriptorHeapDesc {
            heap_type,
            num_descriptors: self.num_descriptors,
            flags,
            node_mask: self.node_mask,
        }
    }

    /// The description of a heap of constant buffer, shader resource and unordered access
    /// views that shaders see.
    pub fn build_csu_heap_shader_visible(&self) -> (r: DescriptorHeapDesc)
        ensures
            r == self.spec_desc(DescriptorHeapType::CbvSrvUav, DESCRIPTOR_HEAP_FLAG_SHADER_VISIBLE),
    {
        DescriptorHeapDesc {
            heap_type: DescriptorHeapType::CbvSrvUav,
            num_descriptors: self.num_descriptors,
            flags: DESCRIPTOR_HEAP_FLAG_SHADER_VISIBLE,
            node_mask: self.node_mask,
        }
    }

    /// The description of a heap of constant buffer, shader resource and unordered access
    /// views that shaders do not see.
    pub fn build_csu_heap(&self) -> (r: DescriptorHeapDesc)
        ensures
            r == self.spec_desc(DescriptorHeapType::CbvSrvUav, DESCRIPTOR_HEAP_FLAG_NONE),
    {
        DescriptorHeapDesc {
            heap_type: DescriptorHeapType::CbvSrvUav,
            num_descriptors: self.num_descriptors,
            flags: DESCRIPTOR_HEAP_FLAG_NONE,
            node_mask: self.node_mask,
        }
    }

    /// The description of a heap of render target views, which shaders never see.
    pub fn build_rtv_heap(&self) -> (r: DescriptorHeapDesc)
        ensures
            r == self.spec_desc(DescriptorHeapType::Rtv, DESCRIPTOR_HEAP_FLAG_NONE),
    {
        DescriptorHeapDesc {
            heap_type: DescriptorHeapType::Rtv,
            num_descriptors: self.num_descriptors,
            flags: DESCRIPTOR_HEAP_FLAG_NONE,
            node_mask: self.node_mask,
        }
    }

    /// The description of a heap of depth stencil views, which shaders never see.
    pub fn build_dsv_heap(&self) -> (r: DescriptorHeapDesc)
        ensures
            r == self.spec_desc(DescriptorHeapType::Dsv, DESCRIPTOR_HEAP_FLAG_NONE),
    {
        DescriptorHeapDesc {
            heap_type: DescriptorHeapType::Dsv,
            num_descriptors: self.num_descriptors,
            flags: DESCRIPTOR_HEAP_FLAG_NONE,
            node_mask: self.node_mask,
        }
    }

    /// The description of a heap of samplers that shaders see.
    pub fn build_sampler_heap_shader_visible(&self) -> (r: DescriptorHeapDesc)
        ensures
            r == self.spec_desc(DescriptorHeapType::Sampler, DESCRIPTOR_HEAP_FLAG_SHADER_VISIBLE),
    {
        DescriptorHeapDesc {
            heap_type: DescriptorHeapType::Sampler,
            num_descriptors: self.num_descriptors,
            flags: DESCRIPTOR_HEAP_FLAG_SHADER_VISIBLE,
            node_mask: self.node_mask,
        }
    }

    /// The description of a heap of samplers that shaders do not see.
    pub fn build_sampler_heap(&self) -> (r: DescriptorHeapDesc)
        ensures
            r == self.spec_desc(DescriptorHeapType::Sampler, DESCRIPTOR_HEAP_FLAG_NONE),
    {
        DescriptorHeapDesc {
            heap_type: DescriptorHeapType::Sampler,
            num_descriptors: self.num_descriptors,
            flags: DESCRIPTOR_HEAP_FLAG_NONE,
            node_mask: self.node_mask,
        }
    }

}

/// What is known of a descriptor heap once the native layer has made it.
#[derive(Copy, Clone, Debug, PartialEq, Eq, Structural)]
pub struct DescriptorHeapInfo {
    /// The number of descriptors.
    pub num_descriptors: u32,
    /// The distance in bytes from one descriptor to the next.
    pub handle_increment_size: u32,
    /// The CPU address of the first descriptor.
    pub cpu_start: usize,
    /// The GPU address of the first descriptor.
    pub gpu_start: u64,
}

impl DescriptorHeapInfo {
    /// Whether the descriptors lie within the address spaces of the CPU and
    /// of the GPU.
    pub open spec fn in_range(&self) -> bool {
        &&& self.cpu_start + self.num_descriptors * self.handle_increment_size <= usize::MAX
        &&& self.gpu_start + self.num_descriptors * self.handle_increment_size <= u64::MAX
    }

    /// The CPU address of the descriptor at `offset`.
    pub open spec fn spec_cpu_address(&self, offset: u32) -> int {
        self.cpu_start + offset * self.handle_increment_size
    }

    /// The GPU address of the descriptor at `offset`.
    pub open spec fn spec_gpu_address(&self, offset: u32) -> int {
        self.gpu_start + offset * self.handle_increment_size
    }

    /// Whether the descriptors lie within the address spaces of the CPU and
    /// of the GPU.
    pub fn is_in_range(&self) -> (r: bool)
        ensures
            r == self.in_range(),
    {
        let bytes: u64 = byte_distance(self.num_descriptors, self.handle_increment_size);
        let cpu_fits = bytes <= usize::MAX as u64 && self.cpu_start as u64 <= usize::MAX as u64 - bytes;
        let gpu_fits = self.gpu_start <= u64::MAX - bytes;
        cpu_fits && gpu_fits
    }

    /// The CPU address of the descriptor at `offset`.
    pub fn cpu_address(&self, offset: u32) -> (r: usize)
        requires
            self.in_range(),
            offset < self.num_descriptors,
        ensures
            r == self.spec_cpu_address(offset),
    {
        proof {
            lemma_offset_within(offset, self.num_descriptors, self.handle_increment_size);
        }
        let bytes: u64 = byte_distance(offset, self.handle_increment_size);
        self.cpu_start + bytes as usize
    }

    /// The GPU address of the descriptor at `offset`.
    pub fn gpu_address(&self, offset: u32) -> (r: u64)
        requires
            self.in_range(),
            offset < self.num_descriptors,
        ensures
            r == self.spec_gpu_address(offset),
    {
        proof {
            lemma_offset_within(offset, self.num_descriptors, self.handle_increment_size);
        }
        self.gpu_start + byte_distance(offset, self.handle_increment_size)
    }
}

/// The product of two 32-bit numbers fits in 64 bits.
pub proof fn lemma_product_fits(count: u32, increment: u32)
    by (nonlinear_arith)
    ensures
        0 <= count * increment <= u64::MAX,
{
}

/// The distance in bytes from the first descriptor to the one `count`
/// descriptors further on.
pub fn byte_distance(count: u32, increment: u32) -> (r: u64)
    ensures
        r == count * increment,
{
    proof {
        lemma_product_fits(count, increment);
    }
    count as u64 * increment as u64
}

/// A descriptor that lies within a heap lies no further from its start than
/// the heap is long.
pub proof fn lemma_offset_within(offset: u32, len: u32, increment: u32)
    by (nonlinear_arith)
    requires
        offset < len,
    ensures
        0 <= offset * increment <= len * increment,
        offset * increment <= u64::MAX,
{
}

/// A descriptor heap.
pub trait DescriptorHeap {
    /// A CPU handle to a descriptor of the heap.
    type CpuHandle;

    /// A GPU handle to a descriptor of the heap.
    type GpuHandle;

    /// What is known of the heap.
    spec fn info(&self) -> DescriptorHeapInfo;

    /// The kind of descriptors that every heap of this type holds.
    spec fn heap_type() -> DescriptorHeapType;

    /// The address in a CPU handle.
    spec fn cpu_ptr(handle: Self::CpuHandle) -> usize;

    /// The address in a GPU handle.
    spec fn gpu_ptr(handle: Self::GpuHandle) -> u64;

    /// The native heap.
    spec fn native(&self) -> ComPtr<DescriptorHeapObject>;

    /// The native heap.
    fn as_raw_ptr(&self) -> (r: &ComPtr<DescriptorHeapObject>)
        ensures
            *r == self.native(),
    ;

    /// The kind of descriptors that the heap holds.
    fn get_type(&self) -> (r: DescriptorHeapType)
        ensures
            r == Self::heap_type(),
    ;

    /// What is known of the heap. The descriptors lie within the address
    /// spaces.
    fn get_info(&self) -> (r: DescriptorHeapInfo)
        ensures
            r == self.info(),
            r.in_range(),
    ;

    /// The CPU handle to the descriptor at `offset`, which must lie within
    /// the heap.
    fn get_cpu_handle(&self, offset: u32) -> (r: Self::CpuHandle)
        requires
            offset < self.info().num_descriptors,
        ensures
            Self::cpu_ptr(r) == self.info().spec_cpu_address(offset),
    ;

    /// The GPU handle to the descriptor at `offset`, which must lie within
    /// the heap.
    fn get_gpu_handle(&self, offset: u32) -> (r: Self::GpuHandle)
        requires
            offset < self.info().num_descriptors,
        ensures
            Self::gpu_ptr(r) == self.info().spec_gpu_address(offset),
    ;

    /// The number of descriptors.
    fn len(&self) -> (r: u32)
        ensures
            r == self.info().num_descriptors,
    {
        self.get_info().num_descriptors
    }

    /// The distance in bytes from one descriptor to the next.
    fn get_handle_increment_size(&self) -> (r: u32)
        ensures
            r == self.info().handle_increment_size,
    {
        self.get_info().handle_increment_size
    }
}

/// Whether `num` descriptors from `offset` on lie within a heap of `len`
/// descriptors, the first of them included.
pub open spec fn range_within(offset: u32, num: u32, len: u32) -> bool {
    offset < len && offset + num <= len
}

/// Whether `num` descriptors from `offset` on lie within a heap of `len`
/// descriptors.
pub fn is_range_within(offset: u32, num: u32, len: u32) -> (r: bool)
    ensures
        r == range_within(offset, num, len),
{
    offset < len && num <= len - offset
}

/// A copy of descriptors from one heap to another, as the native layer takes
/// it.
#[derive(Copy, Clone, Debug, PartialEq, Eq, Structural)]
pub struct DescriptorCopy {
    /// The number of descriptors to copy.
    pub num_descriptors: u32,
    /// The CPU address of the first descriptor to write.
    pub dst_start: usize,
    /// The CPU address of the first descriptor to read.
    pub src_start: usize,
    /// The kind of the descriptors.
    pub heap_type: DescriptorHeapType,
}

/// A heap whose descriptors can be copied to a heap of type `T`.
pub trait DescriptorHeapCopy<T: DescriptorHeap>: DescriptorHeap {
    /// The copy of `num_descriptors` descriptors from `src_offset` of this
    /// heap to `dst_offset` of `dst`. Both ranges must lie within their
    /// heaps.
    fn copy_descriptors_to(
        &self,
        dst: &T,
        src_offset: u32,
        dst_offset: u32,
        num_descriptors: u32,
    ) -> (r: DescriptorCopy)
        requires
            range_within(src_offset, num_descriptors, self.info().num_descriptors),
            range_within(dst_offset, num_descriptors, dst.info().num_descriptors),
        ensures
            r.num_descriptors == num_descriptors,
            r.dst_start == dst.info().spec_cpu_address(dst_offset),
            r.src_start == self.info().spec_cpu_address(src_offset),
            r.heap_type == Self::heap_type(),
    ;
}

/// A CPU handle to a constant buffer, shader resource or unordered access view.
#[derive(Copy, Clone, Debug, PartialEq, Eq, Structural)]
pub struct CpuCsuHandle {
    pub ptr: usize,
}

/// A GPU handle to a constant buffer, shader resource or unordered access view.
#[derive(Copy, Clone, Debug, PartialEq, Eq, Structural)]
pub struct GpuCsuHandle {
    pub ptr: u64,
}

/// A CPU handle to a render target view.
#[derive(Copy, Clone, Debug, PartialEq, Eq, Structural)]
pub struct CpuRtvHandle {
    pub ptr: usize,
}

/// A GPU handle to a render target view.
#[derive(Copy, Clone, Debug, PartialEq, Eq, Structural)]
pub struct GpuRtvHandle {
    pub ptr: u64,
}

/// A CPU handle to a depth stencil view.
#[derive(Copy, Clone, Debug, PartialEq, Eq, Structural)]
pub struct CpuDsvHandle {
    pub ptr: usize,
}

/// A GPU handle to a depth stencil view.
#[derive(Copy, Clone, Debug, PartialEq, Eq, Structural)]
pub struct GpuDsvHandle {
    pub ptr: u64,
}

/// A CPU handle to a sampler.
#[derive(Copy, Clone, Debug, PartialEq, Eq, Structural)]
pub struct CpuSamplerHandle {
    pub ptr: usize,
}

/// A GPU handle to a sampler.
#[derive(Copy, Clone, Debug, PartialEq, Eq, Structural)]
pub struct GpuSamplerHandle {
    pub ptr: u64,
}

/// A heap of constant buffer, shader resource and unordered access views
/// that shaders do not see.
#[derive(Debug)]
pub struct CsuHeapNsv {
    ptr: ComPtr<DescriptorHeapObject>,
    info: DescriptorHeapInfo,
}

impl CsuHeapNsv {
    /// What is known of the heap.
    pub closed spec fn view(&self) -> DescriptorHeapInfo {
        self.info
    }

    /// The native heap.
    pub closed spec fn ptr(&self) -> ComPtr<DescriptorHeapObject> {
        self.ptr
    }

    #[verifier::type_invariant]
    spec fn inv(&self) -> bool {
        self.info.in_range()
    }

    /// Takes a native heap with what is known of it, if its descriptors lie
    /// within the address spaces.
    pub fn from_native(ptr: ComPtr<DescriptorHeapObject>, info: DescriptorHeapInfo) -> (r: Option<CsuHeapNsv>)
        ensures
            info.in_range() ==> r is Some && r->Some_0@ == info && r->Some_0.ptr() == ptr,
            !info.in_range() ==> r is None,
    {
        if info.is_in_range() {
            Some(CsuHeapNsv { ptr, info })
        } else {
            None
        }
    }
}

impl DescriptorHeap for CsuHeapNsv {
    type CpuHandle = CpuCsuHandle;

    type GpuHandle = GpuCsuHandle;

    open spec fn info(&self) -> DescriptorHeapInfo {
        self@
    }

    open spec fn native(&self) -> ComPtr<DescriptorHeapObject> {
        self.ptr()
    }

    open spec fn heap_type() -> DescriptorHeapType {
        DescriptorHeapType::CbvSrvUav
    }

    open spec fn cpu_ptr(handle: CpuCsuHandle) -> usize {
        handle.ptr
    }

    open spec fn gpu_ptr(handle: GpuCsuHandle) -> u64 {
        handle.ptr
    }

    fn as_raw_ptr(&self) -> (r: &ComPtr<DescriptorHeapObject>) {
        &self.ptr
    }

    fn get_type(&self) -> (r: DescriptorHeapType) {
        assert(Self::heap_type() == DescriptorHeapType::CbvSrvUav);
        DescriptorHeapType::CbvSrvUav
    }

    fn get_info(&self) -> (r: DescriptorHeapInfo) {
        proof {
            use_type_invariant(self);
        }
        self.info
    }

    fn get_cpu_handle(&self, offset: u32) -> (r: CpuCsuHandle) {
        let info = self.get_info();
        CpuCsuHandle { ptr: info.cpu_address(offset) }
    }

    fn get_gpu_handle(&self, offset: u32) -> (r: GpuCsuHandle) {
        let info = self.get_info();
        GpuCsuHandle { ptr: info.gpu_address(offset) }
    }
}

/// A heap of constant buffer, shader resource and unordered access views
/// that shaders see.
#[derive(Debug)]
pub struct CsuHeapSv {
    ptr: ComPtr<DescriptorHeapObject>,
    info: DescriptorHeapInfo,
}

impl CsuHeapSv {
    /// What is known of the heap.
    pub closed spec fn view(&self) -> DescriptorHeapInfo {
        self.info
    }

    /// The native heap.
    pub closed spec fn ptr(&self) -> ComPtr<DescriptorHeapObject> {
        self.ptr
    }

    #[verifier::type_invariant]
    spec fn inv(&self) -> bool {
        self.info.in_range()
    }

    /// Takes a native heap with what is known of it, if its descriptors lie
    /// within the address spaces.
    pub fn from_native(ptr: ComPtr<DescriptorHeapObject>, info: DescriptorHeapInfo) -> (r: Option<CsuHeapSv>)
        ensures
            info.in_range() ==> r is Some && r->Some_0@ == info && r->Some_0.ptr() == ptr,
            !info.in_range() ==> r is None,
    {
        if info.is_in_range() {
            Some(CsuHeapSv { ptr, info })
        } else {
            None
        }
    }
}

impl DescriptorHeap for CsuHeapSv {
    type CpuHandle = CpuCsuHandle;

    type GpuHandle = GpuCsuHandle;

    open spec fn info(&self) -> DescriptorHeapInfo {
        self@
    }

    open spec fn native(&self) -> ComPtr<DescriptorHeapObject> {
        self.ptr()
    }

    open spec fn heap_type() -> DescriptorHeapType {
        DescriptorHeapType::CbvSrvUav
    }

    open spec fn cpu_ptr(handle: CpuCsuHandle) -> usize {
        handle.ptr
    }

    open spec fn gpu_ptr(handle: GpuCsuHandle) -> u64 {
        handle.ptr
    }

    fn as_raw_ptr(&self) -> (r: &ComPtr<DescriptorHeapObject>) {
        &self.ptr
    }

    fn get_type(&self) -> (r: DescriptorHeapType) {
        assert(Self::heap_type() == DescriptorHeapType::CbvSrvUav);
        DescriptorHeapType::CbvSrvUav
    }

    fn get_info(&self) -> (r: DescriptorHeapInfo) {
        proof {
            use_type_invariant(self);
        }
        self.info
    }

    fn get_cpu_handle(&self, offset: u32) -> (r: CpuCsuHandle) {
        let info = self.get_info();
        CpuCsuHandle { ptr: info.cpu_address(offset) }
    }

    fn get_gpu_handle(&self, offset: u32) -> (r: GpuCsuHandle) {
        let info = self.get_info();
        GpuCsuHandle { ptr: info.gpu_address(offset) }
    }
}

/// A heap of render target views.
#[derive(Debug)]
pub struct RtvHeap {
    ptr: ComPtr<DescriptorHeapObject>,
    info: DescriptorHeapInfo,
}

impl RtvHeap {
    /// What is known of the heap.
    pub closed spec fn view(&self) -> DescriptorHeapInfo {
        self.info
    }

    /// The native heap.
    pub closed spec fn ptr(&self) -> ComPtr<DescriptorHeapObject> {
        self.ptr
    }

    #[verifier::type_invariant]
    spec fn inv(&self) -> bool {
        self.info.in_range()
    }

    /// Takes a native heap with what is known of it, if its descriptors lie
    /// within the address spaces.
    pub fn from_native(ptr: ComPtr<DescriptorHeapObject>, info: DescriptorHeapInfo) -> (r: Option<RtvHeap>)
        ensures
            info.in_range() ==> r is Some && r->Some_0@ == info && r->Some_0.ptr() == ptr,
            !info.in_range() ==> r is None,
    {
        if info.is_in_range() {
            Some(RtvHeap { ptr, info })
        } else {
            None
        }
    }
}

impl DescriptorHeap for RtvHeap {
    type CpuHandle = CpuRtvHandle;

    type GpuHandle = GpuRtvHandle;

    open spec fn info(&self) -> DescriptorHeapInfo {
        self@
    }

    open spec fn native(&self) -> ComPtr<DescriptorHeapObject> {
        self.ptr()
    }

    open spec fn heap_type() -> DescriptorHeapType {
        DescriptorHeapType::Rtv
    }

    open spec fn cpu_ptr(handle: CpuRtvHandle) -> usize {
        handle.ptr
    }

    open spec fn gpu_ptr(handle: GpuRtvHandle) -> u64 {
        handle.ptr
    }

    fn as_raw_ptr(&self) -> (r: &ComPtr<DescriptorHeapObject>) {
        &self.ptr
    }

    fn get_type(&self) -> (r: DescriptorHeapType) {
        assert(Self::heap_type() == DescriptorHeapType::Rtv);
        DescriptorHeapType::Rtv
    }

    fn get_info(&self) -> (r: DescriptorHeapInfo) {
        proof {
            use_type_invariant(self);
        }
        self.info
    }

    fn get_cpu_handle(&self, offset: u32) -> (r: CpuRtvHandle) {
        let info = self.get_info();
        CpuRtvHandle { ptr: info.cpu_address(offset) }
    }

    fn get_gpu_handle(&self, offset: u32) -> (r: GpuRtvHandle) {
        let info = self.get_info();
        GpuRtvHandle { ptr: info.gpu_address(offset) }
    }
}

/// A heap of depth stencil views.
#[derive(Debug)]
pub struct DsvHeap {
    ptr: ComPtr<DescriptorHeapObject>,
    info: DescriptorHeapInfo,
}

impl DsvHeap {
    /// What is known of the heap.
    pub closed spec fn view(&self) -> DescriptorHeapInfo {
        self.info
    }

    /// The native heap.
    pub closed spec fn ptr(&self) -> ComPtr<DescriptorHeapObject> {
        self.ptr
    }

    #[verifier::type_invariant]
    spec fn inv(&self) -> bool {
        self.info.in_range()
    }

    /// Takes a native heap with what is known of it, if its descriptors lie
    /// within the address spaces.
    pub fn from_native(ptr: ComPtr<DescriptorHeapObject>, info: DescriptorHeapInfo) -> (r: Option<DsvHeap>)
        ensures
            info.in_range() ==> r is Some && r->Some_0@ == info && r->Some_0.ptr() == ptr,
            !info.in_range() ==> r is None,
    {
        if info.is_in_range() {
            Some(DsvHeap { ptr, info })
        } else {
            None
        }
    }
}

impl DescriptorHeap for DsvHeap {
    type CpuHandle = CpuDsvHandle;

    type GpuHandle = GpuDsvHandle;

    open spec fn info(&self) -> DescriptorHeapInfo {
        self@
    }

    open spec fn native(&self) -> ComPtr<DescriptorHeapObject> {
        self.ptr()
    }

    open spec fn heap_type() -> DescriptorHeapType {
        DescriptorHeapType::Dsv
    }

    open spec fn cpu_ptr(handle: CpuDsvHandle) -> usize {
        handle.ptr
    }

    open spec fn gpu_ptr(handle: GpuDsvHandle) -> u64 {
        handle.ptr
    }

    fn as_raw_ptr(&self) -> (r: &ComPtr<DescriptorHeapObject>) {
        &self.ptr
    }

    fn get_type(&self) -> (r: DescriptorHeapType) {
        assert(Self::heap_type() == DescriptorHeapType::Dsv);
        DescriptorHeapType::Dsv
    }

    fn get_info(&self) -> (r: DescriptorHeapInfo) {
        proof {
            use_type_invariant(self);
        }
        self.info
    }

    fn get_cpu_handle(&self, offset: u32) -> (r: CpuDsvHandle) {
        let info = self.get_info();
        CpuDsvHandle { ptr: info.cpu_address(offset) }
    }

    fn get_gpu_handle(&self, offset: u32) -> (r: GpuDsvHandle) {
        let info = self.get_info();
        GpuDsvHandle { ptr: info.gpu_address(offset) }
    }
}

/// A heap of samplers that shaders do not see.
#[derive(Debug)]
pub struct SamplerHeapNsv {
    ptr: ComPtr<DescriptorHeapObject>,
    info: DescriptorHeapInfo,
}

impl SamplerHeapNsv {
    /// What is known of the heap.
    pub closed spec fn view(&self) -> DescriptorHeapInfo {
        self.info
    }

    /// The native heap.
    pub closed spec fn ptr(&self) -> ComPtr<DescriptorHeapObject> {
        self.ptr
    }

    #[verifier::type_invariant]
    spec fn inv(&self) -> bool {
        self.info.in_range()
    }

    /// Takes a native heap with what is known of it, if its descriptors lie
    /// within the address spaces.
    pub fn from_native(ptr: ComPtr<DescriptorHeapObject>, info: DescriptorHeapInfo) -> (r: Option<SamplerHeapNsv>)
        ensures
            info.in_range() ==> r is Some && r->Some_0@ == info && r->Some_0.ptr() == ptr,
            !info.in_range() ==> r is None,
    {
        if info.is_in_range() {
            Some(SamplerHeapNsv { ptr, info })
        } else {
            None
        }
    }
}

impl DescriptorHeap for SamplerHeapNsv {
    type CpuHandle = CpuSamplerHandle;

    type GpuHandle = GpuSamplerHandle;

    open spec fn info(&self) -> DescriptorHeapInfo {
        self@
    }

    open spec fn native(&self) -> ComPtr<DescriptorHeapObject> {
        self.ptr()
    }

    open spec fn heap_type() -> DescriptorHeapType {
        DescriptorHeapType::Sampler
    }

    open spec fn cpu_ptr(handle: CpuSamplerHandle) -> usize {
        handle.ptr
    }

    open spec fn gpu_ptr(handle: GpuSamplerHandle) -> u64 {
        handle.ptr
    }

    fn as_raw_ptr(&self) -> (r: &ComPtr<DescriptorHeapObject>) {
        &self.ptr
    }

    fn get_type(&self) -> (r: DescriptorHeapType) {
        assert(Self::heap_type() == DescriptorHeapType::Sampler);
        DescriptorHeapType::Sampler
    }

    fn get_info(&self) -> (r: DescriptorHeapInfo) {
        proof {
            use_type_invariant(self);
        }
        self.info
    }

    fn get_cpu_handle(&self, offset: u32) -> (r: CpuSamplerHandle) {
        let info = self.get_info();
        CpuSamplerHandle { ptr: info.cpu_address(offset) }
    }

    fn get_gpu_handle(&self, offset: u32) -> (r: GpuSamplerHandle) {
        let info = self.get_info();
        GpuSamplerHandle { ptr: info.gpu_address(offset) }
    }
}

/// A heap of samplers that shaders see.
#[derive(Debug)]
pub struct SamplerHeapSv {
    ptr: ComPtr<DescriptorHeapObject>,
    info: DescriptorHeapInfo,
}

impl SamplerHeapSv {
    /// What is known of the heap.
    pub closed spec fn view(&self) -> DescriptorHeapInfo {
        self.info
    }

    /// The native heap.
    pub closed spec fn ptr(&self) -> ComPtr<DescriptorHeapObject> {
        self.ptr
    }

    #[verifier::type_invariant]
    spec fn inv(&self) -> bool {
        self.info.in_range()
    }

    /// Takes a native heap with what is known of it, if its descriptors lie
    /// within the address spaces.
    pub fn from_native(ptr: ComPtr<DescriptorHeapObject>, info: DescriptorHeapInfo) -> (r: Option<SamplerHeapSv>)
        ensures
            info.in_range() ==> r is Some && r->Some_0@ == info && r->Some_0.ptr() == ptr,
            !info.in_range() ==> r is None,
    {
        if info.is_in_range() {
            Some(SamplerHeapSv { ptr, info })
        } else {
            None
        }
    }
}

impl DescriptorHeap for SamplerHeapSv {
    type CpuHandle = CpuSamplerHandle;

    type GpuHandle = GpuSamplerHandle;

    open spec fn info(&self) -> DescriptorHeapInfo {
        self@
    }

    open spec fn native(&self) -> ComPtr<DescriptorHeapObject> {
        self.ptr()
    }

    open spec fn heap_type() -> DescriptorHeapType {
        DescriptorHeapType::Sampler
    }

    open spec fn cpu_ptr(handle: CpuSamplerHandle) -> usize {
        handle.ptr
    }

    open spec fn gpu_ptr(handle: GpuSamplerHandle) -> u64 {
        handle.ptr
    }

    fn as_raw_ptr(&self) -> (r: &ComPtr<DescriptorHeapObject>) {
        &self.ptr
    }

    fn get_type(&self) -> (r: DescriptorHeapType) {
        assert(Self::heap_type() == DescriptorHeapType::Sampler);
        DescriptorHeapType::Sampler
    }

    fn get_info(&self) -> (r: DescriptorHeapInfo) {
        proof {
            use_type_invariant(self);
        }
        self.info
    }

    fn get_cpu_handle(&self, offset: u32) -> (r: CpuSamplerHandle) {
        let info = self.get_info();
        CpuSamplerHandle { ptr: info.cpu_address(offset) }
    }

    fn get_gpu_handle(&self, offset: u32) -> (r: GpuSamplerHandle) {
        let info = self.get_info();
        GpuSamplerHandle { ptr: info.gpu_address(offset) }
    }
}

impl DescriptorHeapCopy<CsuHeapSv> for CsuHeapNsv {
    fn copy_descriptors_to(
        &self,
        dst: &CsuHeapSv,
        src_offset: u32,
        dst_offset: u32,
        num_descriptors: u32,
    ) -> (r: DescriptorCopy) {
        let heap_type = self.get_type();
        DescriptorCopy {
            num_descriptors,
            dst_start: dst.get_cpu_handle(dst_offset).ptr,
            src_start: self.get_cpu_handle(src_offset).ptr,
            heap_type,
        }
    }
}

impl DescriptorHeapCopy<CsuHeapNsv> for CsuHeapNsv {
    fn copy_descriptors_to(
        &self,
        dst: &CsuHeapNsv,
        src_offset: u32,
        dst_offset: u32,
        num_descriptors: u32,
    ) -> (r: DescriptorCopy) {
        let heap_type = self.get_type();
        DescriptorCopy {
            num_descriptors,
            dst_start: dst.get_cpu_handle(dst_offset).ptr,
            src_start: self.get_cpu_handle(src_offset).ptr,
            heap_type,
        }
    }
}

impl DescriptorHeapCopy<SamplerHeapSv> for SamplerHeapNsv {
    fn copy_descriptors_to(
        &self,
        dst: &SamplerHeapSv,
        src_offset: u32,
        dst_offset: u32,
        num_descriptors: u32,
    ) -> (r: DescriptorCopy) {
        let heap_type = self.get_type();
        DescriptorCopy {
            num_descriptors,
            dst_start: dst.get_cpu_handle(dst_offset).ptr,
            src_start: self.get_cpu_handle(src_offset).ptr,
            heap_type,
        }
    }
}

impl DescriptorHeapCopy<SamplerHeapNsv> for SamplerHeapNsv {
    fn copy_descriptors_to(
        &self,
        dst: &SamplerHeapNsv,
        src_offset: u32,
        dst_offset: u32,
        num_descriptors: u32,
    ) -> (r: DescriptorCopy) {
        let heap_type = self.get_type();
        DescriptorCopy {
            num_descriptors,
            dst_start: dst.get_cpu_handle(dst_offset).ptr,
            src_start: self.get_cpu_handle(src_offset).ptr,
            heap_type,
        }
    }
}

impl DescriptorHeapCopy<RtvHeap> for RtvHeap {
    fn copy_descriptors_to(
        &self,
        dst: &RtvHeap,
        src_offset: u32,
        dst_offset: u32,
        num_descriptors: u32,
    ) -> (r: DescriptorCopy) {
        let heap_type = self.get_type();
        DescriptorCopy {
            num_descriptors,
            dst_start: dst.get_cpu_handle(dst_offset).ptr,
            src_start: self.get_cpu_handle(src_offset).ptr,
            heap_type,
        }
    }
}

impl DescriptorHeapCopy<DsvHeap> for DsvHeap {
    fn copy_descriptors_to(
        &self,
        dst: &DsvHeap,
        src_offset: u32,
        dst_offset: u32,
        num_descriptors: u32,
    ) -> (r: DescriptorCopy) {
        let heap_type = self.get_type();
        DescriptorCopy {
            num_descriptors,
            dst_start: dst.get_cpu_handle(dst_offset).ptr,
            src_start: self.get_cpu_handle(src_offset).ptr,
            heap_type,
        }
    }
}

} // verus!
