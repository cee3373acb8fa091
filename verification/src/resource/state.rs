//! Resource states.

use vstd::prelude::*;

verus! {

/// The ways in which a subresource is used at one point of the command
/// timeline. Several read states may be combined; the bits say which.
#[derive(Clone, Copy, Debug, PartialEq, Eq, Hash, Structural)]
pub struct ResourceStates {
    pub bits: u32,
}

impl ResourceStates {
    /// The state for handing a resource between queues and for CPU access.
    pub const COMMON: u32 = 0;

    /// Read as a vertex buffer or a constant buffer.
    pub const VERTEX_AND_CONSTANT_BUFFER: u32 = 0x1;

    /// Read as an index buffer.
    pub const INDEX_BUFFER: u32 = 0x2;

    /// Written as a render target.
    pub const RENDER_TARGET: u32 = 0x4;

    /// Read and written through an unordered access view.
    pub const UNORDERED_ACCESS: u32 = 0x8;

    /// Written as a depth buffer.
    pub const DEPTH_WRITE: u32 = 0x10;

    /// Read as a depth buffer.
    pub const DEPTH_READ: u32 = 0x20;

    /// Read by a shader of any stage but the pixel shader.
    pub const NON_PIXEL_SHADER_RESOURCE: u32 = 0x40;

    /// Read by a pixel shader.
    pub const PIXEL_SHADER_RESOURCE: u32 = 0x80;

    /// Written by stream output.
    pub const STREAM_OUT: u32 = 0x100;

    /// Read as an indirect argument.
    pub const INDIRECT_ARGUMENT: u32 = 0x200;

    /// The destination of a copy.
    pub const COPY_DEST: u32 = 0x400;

    /// The source of a copy.
    pub const COPY_SOURCE: u32 = 0x800;

    /// The destination of a resolve.
    pub const RESOLVE_DEST: u32 = 0x1000;

    /// The source of a resolve.
    pub const RESOLVE_SOURCE: u32 = 0x2000;

    /// Every read state at once, which are the vertex and constant buffer,
    /// the index buffer, both shader resources, the indirect argument and
    /// the copy source: the state in which resources on an upload heap start
    /// and stay.
    pub const GENERIC_READ: u32 = 0xac3;

    /// Another name for `COMMON`.
    pub const PRESENT: u32 = 0;

    /// Another name for `INDIRECT_ARGUMENT`.
    pub const PREDICATION: u32 = 0x200;

    /// Every bit that names a state.
    pub const ALL: u32 = 0x3fff;

    /// Whether every state of `other` is among the states of `self`.
    pub open spec fn spec_contains(self, other: ResourceStates) -> bool {
        self.bits & other.bits == other.bits
    }

    /// Whether a state is among both.
    pub open spec fn spec_intersects(self, other: ResourceStates) -> bool {
        self.bits & other.bits != 0
    }

    /// Whether only bits that name a state are set.
    pub open spec fn is_known(self) -> bool {
        self.bits & !ResourceStates::ALL == 0
    }

    /// The common state.
    pub fn common() -> (r: ResourceStates)
        ensures
            r.bits == ResourceStates::COMMON,
    {
        ResourceStates { bits: ResourceStates::COMMON }
    }

    /// The state of every resource on an upload heap.
    pub fn generic_read() -> (r: ResourceStates)
        ensures
            r.bits == ResourceStates::GENERIC_READ,
    {
        ResourceStates { bits: ResourceStates::GENERIC_READ }
    }

    /// The state of every resource on a readback heap.
    pub fn copy_dest() -> (r: ResourceStates)
        ensures
            r.bits == ResourceStates::COPY_DEST,
    {
        ResourceStates { bits: ResourceStates::COPY_DEST }
    }

    /// The state in which a depth buffer is written.
    pub fn depth_write() -> (r: ResourceStates)
        ensures
            r.bits == ResourceStates::DEPTH_WRITE,
    {
        ResourceStates { bits: ResourceStates::DEPTH_WRITE }
    }

    /// All states at once.
    pub fn all() -> (r: ResourceStates)
        ensures
            r.bits == ResourceStates::ALL,
    {
        ResourceStates { bits: ResourceStates::ALL }
    }

    /// The bits.
    pub fn bits(&self) -> (r: u32)
        ensures
            r == self.bits,
    {
        self.bits
    }

    /// The states that `bits` names, or nothing where a bit names no state.
    pub fn from_bits(bits: u32) -> (r: Option<ResourceStates>)
        ensures
            r == (if (ResourceStates { bits }).is_known() {
                Some(ResourceStates { bits })
            } else {
                None
            }),
    {
        if bits & !ResourceStates::ALL == 0 {
            Some(ResourceStates { bits })
        } else {
            None
        }
    }

    /// The states that `bits` names, without the bits that name none.
    pub fn from_bits_truncate(bits: u32) -> (r: ResourceStates)
        ensures
            r.bits == bits & ResourceStates::ALL,
    {
        ResourceStates { bits: bits & ResourceStates::ALL }
    }

    /// Whether this is the common state.
    pub fn is_empty(&self) -> (r: bool)
        ensures
            r == (self.bits == 0),
    {
        self.bits == 0
    }

    /// Whether every state of `other` is among the states of `self`.
    pub fn contains(&self, other: ResourceStates) -> (r: bool)
        ensures
            r == self.spec_contains(other),
    {
        self.bits & other.bits == other.bits
    }

    /// Whether a state is among both.
    pub fn intersects(&self, other: ResourceStates) -> (r: bool)
        ensures
            r == self.spec_intersects(other),
    {
        self.bits & other.bits != 0
    }

    /// The states of either.
    pub fn union(self, other: ResourceStates) -> (r: ResourceStates)
        ensures
            r.bits == self.bits | other.bits,
    {
        ResourceStates { bits: self.bits | other.bits }
    }

    /// The states of both.
    pub fn intersection(self, other: ResourceStates) -> (r: ResourceStates)
        ensures
            r.bits == self.bits & other.bits,
    {
        ResourceStates { bits: self.bits & other.bits }
    }

    /// The states of `self` that are not states of `other`.
    pub fn difference(self, other: ResourceStates) -> (r: ResourceStates)
        ensures
            r.bits == self.bits & !other.bits,
    {
        ResourceStates { bits: self.bits & !other.bits }
    }
}

impl Default for ResourceStates {
    /// The generic read state.
    fn default() -> (r: ResourceStates)
        ensures
            r.bits == ResourceStates::GENERIC_READ,
    {
        ResourceStates { bits: ResourceStates::GENERIC_READ }
    }
}

} // verus!
