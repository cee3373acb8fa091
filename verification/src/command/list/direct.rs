//! Direct command lists.

use vstd::prelude::*;
use crate::command::list::common::{
    state_address,
    state_address_of,
    CommandAllocatorObject,
    CommandList,
    CommandListObject,
    CommandListWithHeap,
    ComputePipelineState,
    GraphicsPipelineState,
    PipelineState,
    ResetArgs,
};
use crate::command::CommandListType;
use crate::comptr::ComPtr;
use crate::descriptor::heap::{DescriptorHeap, CsuHeapSv, SamplerHeapSv};
use crate::error::WinError;

verus! {

/// An allocator that backs the recording of direct command lists.
#[derive(Debug)]
pub struct DirectCommandAllocator {
    pub ptr: ComPtr<CommandAllocatorObject>,
}

/// A direct command list that is closed: it can be run, or recorded anew.
#[derive(Debug)]
pub struct DirectCommandList {
    pub ptr: ComPtr<CommandListObject>,
}

/// A direct command list that is being recorded.
#[derive(Debug)]
pub struct DirectCommandListRecording<'a, P> {
    pub ptr: ComPtr<CommandListObject>,
    /// The allocator that backs the recording.
    pub alloc: &'a DirectCommandAllocator,
    /// The pipeline state with which the recording began.
    pub initial_state: Option<&'a P>,
}

impl DirectCommandList {
    /// The arguments of the native call that starts a recording.
    pub fn reset_args<P: PipelineState>(
        &self,
        alloc: &DirectCommandAllocator,
        initial_state: Option<&P>,
    ) -> (r: ResetArgs)
        ensures
            r == (ResetArgs {
                list: self.ptr.addr(),
                alloc: alloc.ptr.addr(),
                initial_state: state_address(initial_state),
            }),
    {
        ResetArgs {
            list: self.ptr.as_mut_ptr(),
            alloc: alloc.ptr.as_mut_ptr(),
            initial_state: state_address_of(initial_state),
        }
    }

    /// Starts the recording of graphics commands, given the answer `hr` of
    /// the native reset: the recording where it succeeded, and otherwise
    /// the error and the list, which stays closed.
    pub fn start_graphics<'b>(
        self,
        alloc: &'b DirectCommandAllocator,
        initial_state: Option<&'b GraphicsPipelineState>,
        hr: i32,
    ) -> (r: Result<DirectCommandListRecording<'b, GraphicsPipelineState>, (WinError, DirectCommandList)>)
        ensures
            crate::error::succeeded(hr) ==> r is Ok && r->Ok_0.ptr == self.ptr && r->Ok_0.alloc
                == alloc && r->Ok_0.initial_state == initial_state,
            !crate::error::succeeded(hr) ==> r is Err && r->Err_0 == (WinError { hr }, self),
    {
        if hr >= 0 {
            Ok(DirectCommandListRecording { ptr: self.ptr, alloc, initial_state })
        } else {
            Err((WinError { hr }, self))
        }
    }

    /// Starts the recording of compute commands, given the answer `hr` of
    /// the native reset.
    pub fn start_compute<'b>(
        self,
        alloc: &'b DirectCommandAllocator,
        initial_state: Option<&'b ComputePipelineState>,
        hr: i32,
    ) -> (r: Result<DirectCommandListRecording<'b, ComputePipelineState>, (WinError, DirectCommandList)>)
        ensures
            crate::error::succeeded(hr) ==> r is Ok && r->Ok_0.ptr == self.ptr && r->Ok_0.alloc
                == alloc && r->Ok_0.initial_state == initial_state,
            !crate::error::succeeded(hr) ==> r is Err && r->Err_0 == (WinError { hr }, self),
    {
        if hr >= 0 {
            Ok(DirectCommandListRecording { ptr: self.ptr, alloc, initial_state })
        } else {
            Err((WinError { hr }, self))
        }
    }
}

impl<'a, P: PipelineState> DirectCommandListRecording<'a, P> {
    /// The address of the pipeline state that a reset of the state goes
    /// back to: that with which the recording began, or zero.
    pub fn clear_state(&self) -> (r: usize)
        ensures
            r == state_address(self.initial_state),
    {
        state_address_of(self.initial_state)
    }

    /// The descriptor heaps to bind, as the native layer takes them: the
    /// address of the sampler heap, then that of the heap of views, each
    /// zero where there is none.
    pub fn set_descriptor_heaps(
        &self,
        cbv_srv_uav_heap: Option<&CsuHeapSv>,
        sampler_heap: Option<&SamplerHeapSv>,
    ) -> (r: [usize; 2])
        ensures
            r@ == seq![heap_address(sampler_heap), heap_address(cbv_srv_uav_heap)],
    {
        let r = [heap_address_of(sampler_heap), heap_address_of(cbv_srv_uav_heap)];
        assert(r@ =~= seq![heap_address(sampler_heap), heap_address(cbv_srv_uav_heap)]);
        r
    }

    /// The arguments of the native call that starts the recording anew.
    pub fn reset_args<T: PipelineState>(
        &self,
        alloc: &DirectCommandAllocator,
        initial_state: Option<&T>,
    ) -> (r: ResetArgs)
        ensures
            r == (ResetArgs {
                list: self.ptr.addr(),
                alloc: alloc.ptr.addr(),
                initial_state: state_address(initial_state),
            }),
    {
        ResetArgs {
            list: self.ptr.as_mut_ptr(),
            alloc: alloc.ptr.as_mut_ptr(),
            initial_state: state_address_of(initial_state),
        }
    }

    /// Starts the recording anew, given the answer `hr` of the native
    /// reset: the new recording where it succeeded, and otherwise the error
    /// and the recording as it was.
    pub fn reset<'b, T: PipelineState>(
        self,
        alloc: &'b DirectCommandAllocator,
        initial_state: Option<&'b T>,
        hr: i32,
    ) -> (r: Result<DirectCommandListRecording<'b, T>, (WinError, DirectCommandListRecording<'a, P>)>)
        ensures
            crate::error::succeeded(hr) ==> r is Ok && r->Ok_0.ptr == self.ptr && r->Ok_0.alloc
                == alloc && r->Ok_0.initial_state == initial_state,
            !crate::error::succeeded(hr) ==> r is Err && r->Err_0 == (WinError { hr }, self),
    {
        if hr >= 0 {
            Ok(DirectCommandListRecording { ptr: self.ptr, alloc, initial_state })
        } else {
            Err((WinError { hr }, self))
        }
    }

    /// Ends the recording, given the answer `hr` of the native close: the
    /// closed list where it succeeded, and otherwise the error.
    pub fn close(self, hr: i32) -> (r: Result<DirectCommandList, WinError>)
        ensures
            crate::error::succeeded(hr) ==> r is Ok && r->Ok_0.ptr == self.ptr,
            !crate::error::succeeded(hr) ==> r == Err::<DirectCommandList, WinError>(
                WinError { hr },
            ),
    {
        if hr >= 0 {
            Ok(DirectCommandList { ptr: self.ptr })
        } else {
            Err(WinError { hr })
        }
    }
}

/// The address that the native layer takes for a descriptor heap that may
/// be absent: zero where there is none.
pub open spec fn heap_address<H: DescriptorHeap>(heap: Option<&H>) -> usize {
    match heap {
        Some(h) => h.native().addr(),
        None => 0,
    }
}

/// The address that the native layer takes for a descriptor heap that may
/// be absent.
pub fn heap_address_of<H: DescriptorHeap>(heap: Option<&H>) -> (r: usize)
    ensures
        r == heap_address(heap),
{
    match heap {
        Some(h) => h.as_raw_ptr().as_mut_ptr(),
        None => 0,
    }
}

impl CommandList for DirectCommandList {
    open spec fn ptr(&self) -> ComPtr<CommandListObject> {
        self.ptr
    }

    open spec fn list_type() -> CommandListType {
        CommandListType::Direct
    }

    fn as_raw_ptr(&self) -> (r: &ComPtr<CommandListObject>) {
        &self.ptr
    }

    fn get_type(&self) -> (r: CommandListType) {
        assert(Self::list_type() == CommandListType::Direct);
        CommandListType::Direct
    }
}

impl<'a, P> CommandList for DirectCommandListRecording<'a, P> {
    open spec fn ptr(&self) -> ComPtr<CommandListObject> {
        self.ptr
    }

    open spec fn list_type() -> CommandListType {
        CommandListType::Direct
    }

    fn as_raw_ptr(&self) -> (r: &ComPtr<CommandListObject>) {
        &self.ptr
    }

    fn get_type(&self) -> (r: CommandListType) {
        assert(Self::list_type() == CommandListType::Direct);
        CommandListType::Direct
    }
}

impl<'a, P> CommandListWithHeap for DirectCommandListRecording<'a, P> {

}

} // verus!
