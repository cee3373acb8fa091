//! Bundles: command lists that direct command lists run.

use vstd::prelude::*;
use crate::command::list::common::{
    state_address,
    state_address_of,
    CommandAllocatorObject,
    CommandList,
    CommandListObject,
    CommandListWithHeap,
    GraphicsPipelineState,
    ResetArgs,
};
use crate::command::CommandListType;
use crate::comptr::ComPtr;
use crate::descriptor::heap::{DescriptorHeap, CsuHeapSv, DsvHeap, RtvHeap, SamplerHeapSv};
use crate::error::WinError;
use crate::command::list::direct::{heap_address, heap_address_of};

verus! {

/// An allocator that backs the recording of bundles.
#[derive(Debug)]
pub struct BundleCommandAllocator {
    pub ptr: ComPtr<CommandAllocatorObject>,
}

/// A bundle that is closed: it can be run, or recorded anew.
#[derive(Debug)]
pub struct Bundle {
    pub ptr: ComPtr<CommandListObject>,
}

/// A bundle that is being recorded and has no descriptor heaps yet.
#[derive(Debug)]
pub struct BundleRecording<'a> {
    pub ptr: ComPtr<CommandListObject>,
    /// The allocator that backs the recording.
    pub alloc: &'a BundleCommandAllocator,
}

/// A bundle that is being recorded, with its descriptor heaps bound.
#[derive(Debug)]
pub struct BundleRecordingWithHeap<'a> {
    pub ptr: ComPtr<CommandListObject>,
    /// The allocator that backs the recording.
    pub alloc: &'a BundleCommandAllocator,
}

/// The arguments of the native call that starts the recording of the bundle
/// at `list`.
pub fn bundle_reset_args(
    list: &ComPtr<CommandListObject>,
    alloc: &BundleCommandAllocator,
    initial_state: Option<&GraphicsPipelineState>,
) -> (r: ResetArgs)
    ensures
        r == (ResetArgs {
            list: list.addr(),
            alloc: alloc.ptr.addr(),
            initial_state: state_address(initial_state),
        }),
{
    ResetArgs {
        list: list.as_mut_ptr(),
        alloc: alloc.ptr.as_mut_ptr(),
        initial_state: state_address_of(initial_state),
    }
}

impl Bundle {
    /// Starts the recording, given the answer `hr` of the native reset: the
    /// recording where it succeeded, and otherwise the error and the
    /// bundle, which stays closed.
    pub fn start<'b>(self, alloc: &'b BundleCommandAllocator, hr: i32) -> (r: Result<BundleRecording<'b>, (WinError, Bundle)>)
        ensures
            crate::error::succeeded(hr) ==> r is Ok && r->Ok_0.ptr == self.ptr && r->Ok_0.alloc
                == alloc,
            !crate::error::succeeded(hr) ==> r is Err && r->Err_0 == (WinError { hr }, self),
    {
        if hr >= 0 {
            Ok(BundleRecording { ptr: self.ptr, alloc })
        } else {
            Err((WinError { hr }, self))
        }
    }
}

impl<'a> BundleRecording<'a> {
    /// Binds descriptor heaps. Besides the recording, the heaps come back
    /// as the native layer takes them: the addresses of the heap of views,
    /// of render target views, of depth stencil views and of samplers, each
    /// zero where there is none.
    pub fn set_descriptor_heaps(
        self,
        cbv_srv_uav_heap: Option<&CsuHeapSv>,
        rtv_heap: Option<&RtvHeap>,
        dsv_heap: Option<&DsvHeap>,
        sampler_heap: Option<&SamplerHeapSv>,
    ) -> (r: (BundleRecordingWithHeap<'a>, [usize; 4]))
        ensures
            r.0.ptr == self.ptr,
            r.0.alloc == self.alloc,
            r.1@ == seq![
                heap_address(cbv_srv_uav_heap),
                heap_address(rtv_heap),
                heap_address(dsv_heap),
                heap_address(sampler_heap),
            ],
    {
        let heaps = [
            heap_address_of(cbv_srv_uav_heap),
            heap_address_of(rtv_heap),
            heap_address_of(dsv_heap),
            heap_address_of(sampler_heap),
        ];
        assert(heaps@ =~= seq![
            heap_address(cbv_srv_uav_heap),
            heap_address(rtv_heap),
            heap_address(dsv_heap),
            heap_address(sampler_heap),
        ]);
        (BundleRecordingWithHeap { ptr: self.ptr, alloc: self.alloc }, heaps)
    }

    /// Starts the recording anew, given the answer `hr` of the native
    /// reset.
    pub fn reset<'b>(self, alloc: &'b BundleCommandAllocator, hr: i32) -> (r: Result<BundleRecording<'b>, (WinError, BundleRecording<'a>)>)
        ensures
            crate::error::succeeded(hr) ==> r is Ok && r->Ok_0.ptr == self.ptr && r->Ok_0.alloc
                == alloc,
            !crate::error::succeeded(hr) ==> r is Err && r->Err_0 == (WinError { hr }, self),
    {
        if hr >= 0 {
            Ok(BundleRecording { ptr: self.ptr, alloc })
        } else {
            Err((WinError { hr }, self))
        }
    }

    /// Ends the recording, given the answer `hr` of the native close.
    pub fn close(self, hr: i32) -> (r: Result<Bundle, WinError>)
        ensures
            crate::error::succeeded(hr) ==> r is Ok && r->Ok_0.ptr == self.ptr,
            !crate::error::succeeded(hr) ==> r == Err::<Bundle, WinError>(WinError { hr }),
    {
        if hr >= 0 {
            Ok(Bundle { ptr: self.ptr })
        } else {
            Err(WinError { hr })
        }
    }
}

impl<'a> BundleRecordingWithHeap<'a> {
    /// Starts the recording anew, given the answer `hr` of the native
    /// reset. The new recording has no descriptor heaps.
    pub fn reset<'b>(self, alloc: &'b BundleCommandAllocator, hr: i32) -> (r: Result<BundleRecording<'b>, (WinError, BundleRecordingWithHeap<'a>)>)
        ensures
            crate::error::succeeded(hr) ==> r is Ok && r->Ok_0.ptr == self.ptr && r->Ok_0.alloc
                == alloc,
            !crate::error::succeeded(hr) ==> r is Err && r->Err_0 == (WinError { hr }, self),
    {
        if hr >= 0 {
            Ok(BundleRecording { ptr: self.ptr, alloc })
        } else {
            Err((WinError { hr }, self))
        }
    }

    /// Ends the recording, given the answer `hr` of the native close.
    pub fn close(self, hr: i32) -> (r: Result<Bundle, WinError>)
        ensures
            crate::error::succeeded(hr) ==> r is Ok && r->Ok_0.ptr == self.ptr,
            !crate::error::succeeded(hr) ==> r == Err::<Bundle, WinError>(WinError { hr }),
    {
        if hr >= 0 {
            Ok(Bundle { ptr: self.ptr })
        } else {
            Err(WinError { hr })
        }
    }
}

impl CommandList for Bundle {
    open spec fn ptr(&self) -> ComPtr<CommandListObject> {
        self.ptr
    }

    open spec fn list_type() -> CommandListType {
        CommandListType::Bundle
    }

    fn as_raw_ptr(&self) -> (r: &ComPtr<CommandListObject>) {
        &self.ptr
    }

    fn get_type(&self) -> (r: CommandListType) {
        assert(Self::list_type() == CommandListType::Bundle);
        CommandListType::Bundle
    }
}

impl<'a> CommandList for BundleRecording<'a> {
    open spec fn ptr(&self) -> ComPtr<CommandListObject> {
        self.ptr
    }

    open spec fn list_type() -> CommandListType {
        CommandListType::Bundle
    }

    fn as_raw_ptr(&self) -> (r: &ComPtr<CommandListObject>) {
        &self.ptr
    }

    fn get_type(&self) -> (r: CommandListType) {
        assert(Self::list_type() == CommandListType::Bundle);
        CommandListType::Bundle
    }
}

impl<'a> CommandList for BundleRecordingWithHeap<'a> {
    open spec fn ptr(&self) -> ComPtr<CommandListObject> {
        self.ptr
    }

    open spec fn list_type() -> CommandListType {
        CommandListType::Bundle
    }

    fn as_raw_ptr(&self) -> (r: &ComPtr<CommandListObject>) {
        &self.ptr
    }

    fn get_type(&self) -> (r: CommandListType) {
        assert(Self::list_type() == CommandListType::Bundle);
        CommandListType::Bundle
    }
}

impl<'a> CommandListWithHeap for BundleRecordingWithHeap<'a> {

}

} // verus!
