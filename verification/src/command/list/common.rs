//! What all command lists have in common.

use vstd::prelude::*;
use crate::command::CommandListType;
use crate::comptr::ComPtr;
use crate::format::Rect;

verus! {

/// Marks a handle to a command list.
#[derive(Debug, Clone, Copy, PartialEq, Eq)]
pub struct CommandListObject;

/// Marks a handle to a command allocator.
#[derive(Debug, Clone, Copy, PartialEq, Eq)]
pub struct CommandAllocatorObject;

/// Marks a handle to a pipeline state.
#[derive(Debug, Clone, Copy, PartialEq, Eq)]
pub struct PipelineStateObject;

/// A pipeline state.
pub trait PipelineState {
    /// The native pipeline state.
    spec fn ptr(&self) -> ComPtr<PipelineStateObject>;

    /// The native pipeline state.
    fn as_raw_ptr(&self) -> (r: &ComPtr<PipelineStateObject>)
        ensures
            *r == self.ptr(),
    ;
}

/// The state of a graphics pipeline.
#[derive(Debug)]
pub struct GraphicsPipelineState {
    pub ptr: ComPtr<PipelineStateObject>,
}

/// The state of a compute pipeline.
#[derive(Debug)]
pub struct ComputePipelineState {
    pub ptr: ComPtr<PipelineStateObject>,
}

impl PipelineState for GraphicsPipelineState {
    open spec fn ptr(&self) -> ComPtr<PipelineStateObject> {
        self.ptr
    }

    fn as_raw_ptr(&self) -> (r: &ComPtr<PipelineStateObject>) {
        &self.ptr
    }
}

impl PipelineState for ComputePipelineState {
    open spec fn ptr(&self) -> ComPtr<PipelineStateObject> {
        self.ptr
    }

    fn as_raw_ptr(&self) -> (r: &ComPtr<PipelineStateObject>) {
        &self.ptr
    }
}

/// The address that the native layer takes for a pipeline state that may be
/// absent: zero where there is none.
pub open spec fn state_address<P: PipelineState>(state: Option<&P>) -> usize {
    match state {
        Some(s) => s.ptr().addr(),
        None => 0,
    }
}

/// The address that the native layer takes for a pipeline state that may be
/// absent.
pub fn state_address_of<P: PipelineState>(state: Option<&P>) -> (r: usize)
    ensures
        r == state_address(state),
{
    match state {
        Some(s) => s.as_raw_ptr().as_mut_ptr(),
        None => 0,
    }
}

/// The arguments of the native call that resets a command list.
#[derive(Copy, Clone, Debug, PartialEq, Eq, Structural)]
pub struct ResetArgs {
    /// The address of the command list.
    pub list: usize,
    /// The address of the allocator that backs the recording.
    pub alloc: usize,
    /// The address of the pipeline state to begin with, or zero.
    pub initial_state: usize,
}

/// The number of rectangles that the native layer is told of: none where
/// there is no slice, and otherwise the low 32 bits of the length.
pub open spec fn rect_count(rects: Option<&[Rect]>) -> u32 {
    match rects {
        Some(r) => (r@.len() as usize & 0xffff_ffff) as u32,
        None => 0,
    }
}

/// The number of rectangles that the native layer is told of.
pub fn rect_count_of(rects: Option<&[Rect]>) -> (r: u32)
    ensures
        r == rect_count(rects),
{
    match rects {
        Some(r) => {
            let n = r.len();
            assert(n & 0xffff_ffff <= 0xffff_ffff) by (bit_vector);
            (n & 0xffff_ffff) as u32
        },
        None => 0,
    }
}

/// A command list.
pub trait CommandList {
    /// The native command list.
    spec fn ptr(&self) -> ComPtr<CommandListObject>;

    /// The kind that every list of this type has.
    spec fn list_type() -> CommandListType;

    /// The native command list.
    fn as_raw_ptr(&self) -> (r: &ComPtr<CommandListObject>)
        ensures
            *r == self.ptr(),
    ;

    /// The kind of the list.
    fn get_type(&self) -> (r: CommandListType)
        ensures
            r == Self::list_type(),
    ;
}

/// A command list to which descriptor heaps are bound.
pub trait CommandListWithHeap: CommandList {

}

} // verus!
