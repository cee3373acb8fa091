//! Stream output.

use vstd::prelude::*;
use smallvec::SmallVec;
use crate::list::MAX_LIST_LEN;
use crate::pipeline::rootsig::{count_of, count_word};
use crate::resource::raw::GpuVAddress;

verus! {

/// A view of a buffer that stream output writes.
#[derive(Copy, Clone, Debug, PartialEq, Eq, Structural)]
pub struct StreamOutputBufferView {
    pub loc: GpuVAddress,
    pub size: u64,
    pub filled_size: u64,
}

impl StreamOutputBufferView {
    /// The view of `size` bytes of the buffer that lies at `loc`, of which
    /// `filled_size` are filled.
    pub fn new(loc: GpuVAddress, size: u64, filled_size: u64) -> (r: StreamOutputBufferView)
        ensures
            r == (StreamOutputBufferView { loc, size, filled_size }),
    {
        StreamOutputBufferView { loc, size, filled_size }
    }
}

impl Default for StreamOutputBufferView {
    /// The view of nothing.
    fn default() -> (r: StreamOutputBufferView)
        ensures
            r == (StreamOutputBufferView { loc: GpuVAddress { ptr: 0 }, size: 0, filled_size: 0 }),
    {
        StreamOutputBufferView { loc: GpuVAddress { ptr: 0 }, size: 0, filled_size: 0 }
    }
}

/// What is written to one slot of stream output.
#[derive(Copy, Clone, Debug, PartialEq, Eq)]
pub struct DeclarationEntry {
    /// The index of the stream.
    pub stream: u32,
    /// The semantic name of the element.
    pub semantic_name: &'static str,
    /// The index of the element.
    pub semantic_index: u32,
    /// The first component to write, from 0 to 3.
    pub start_component: u8,
    /// The number of components to write, from 1 to 4.
    pub component_count: u8,
    /// The output slot, from 0 to 3.
    pub output_slot: u8,
}

impl DeclarationEntry {
    /// Whether the components and the slot lie in their ranges, and the
    /// components that are written are among the four of an element.
    pub open spec fn valid(&self) -> bool {
        &&& self.start_component <= 3
        &&& 1 <= self.component_count <= 4
        &&& self.start_component + self.component_count <= 4
        &&& self.output_slot <= 3
    }

    /// Whether the components and the slot lie in their ranges.
    pub fn is_valid(&self) -> (r: bool)
        ensures
            r == self.valid(),
    {
        self.start_component <= 3 && 1 <= self.component_count && self.component_count <= 4
            && self.start_component + self.component_count <= 4 && self.output_slot <= 3
    }
}

/// A `SmallVec` of declaration entries, which keeps up to eight of them in place.
#[derive(Debug)]
#[verifier::external_body]
pub struct DeclarationEntryList {
    inner: SmallVec<[DeclarationEntry; 8]>,
}

/// The declaration entries that a list holds, first pushed first.
pub uninterp spec fn declaration_entry_list_items(list: DeclarationEntryList) -> Seq<DeclarationEntry>;

/// `SmallVec::new`: a vector that holds nothing.
#[verifier::external_body]
fn declaration_entry_list_new() -> (r: DeclarationEntryList)
    ensures
        declaration_entry_list_items(r) == Seq::<DeclarationEntry>::empty(),
{
    DeclarationEntryList { inner: SmallVec::new() }
}

/// `SmallVec::push`: the item is appended behind those that the vector
/// holds, which stay as they are. The vector grows by powers of two and
/// gives up where the byte count of the new capacity overflows; with fewer
/// than `MAX_LIST_LEN` items it does not.
#[verifier::external_body]
fn declaration_entry_list_push(list: &mut DeclarationEntryList, item: DeclarationEntry)
    requires
        declaration_entry_list_items(*old(list)).len() < MAX_LIST_LEN,
    ensures
        declaration_entry_list_items(*final(list)) == declaration_entry_list_items(*old(list)).push(item),
{
    list.inner.push(item)
}

/// `SmallVec::as_slice`: the items held, in their order, as one slice.
#[verifier::external_body]
fn declaration_entry_list_as_slice(list: &DeclarationEntryList) -> (r: &[DeclarationEntry])
    ensures
        r@ == declaration_entry_list_items(*list),
{
    list.inner.as_slice()
}

impl DeclarationEntryList {
    /// The declaration entries of the list, first pushed first.
    pub closed spec fn view(&self) -> Seq<DeclarationEntry> {
        declaration_entry_list_items(*self)
    }

    /// An empty list.
    pub fn new() -> (r: DeclarationEntryList)
        ensures
            r@ == Seq::<DeclarationEntry>::empty(),
    {
        declaration_entry_list_new()
    }

    /// The number of declaration entries in the list.
    pub fn len(&self) -> (r: usize)
        ensures
            r == self@.len(),
    {
        declaration_entry_list_as_slice(self).len()
    }

    /// Appends an item to the list.
    pub fn push(&mut self, item: DeclarationEntry)
        requires
            old(self)@.len() < MAX_LIST_LEN,
        ensures
            final(self)@ == old(self)@.push(item),
    {
        declaration_entry_list_push(self, item)
    }

    /// Appends an item to the list, unless the list is full; hands the item
    /// back where it is.
    pub fn try_push(&mut self, item: DeclarationEntry) -> (r: Option<DeclarationEntry>)
        ensures
            old(self)@.len() < MAX_LIST_LEN ==> r is None && final(self)@ == old(self)@.push(
                item,
            ),
            old(self)@.len() >= MAX_LIST_LEN ==> r == Some(item) && final(self)@ == old(self)@,
    {
        if self.len() < MAX_LIST_LEN {
            self.push(item);
            None
        } else {
            Some(item)
        }
    }

    /// The declaration entries as one slice, in their order.
    pub fn as_slice(&self) -> (r: &[DeclarationEntry])
        ensures
            r@ == self@,
    {
        declaration_entry_list_as_slice(self)
    }
}

impl Default for DeclarationEntryList {
    /// An empty list.
    fn default() -> (r: DeclarationEntryList)
        ensures
            r@ == Seq::<DeclarationEntry>::empty(),
    {
        DeclarationEntryList::new()
    }
}

/// A `SmallVec` of buffer strides, which keeps up to eight of them in place.
#[derive(Debug)]
#[verifier::external_body]
pub struct StrideList {
    inner: SmallVec<[u32; 8]>,
}

/// The buffer strides that a list holds, first pushed first.
pub uninterp spec fn stride_list_items(list: StrideList) -> Seq<u32>;

/// `SmallVec::new`: a vector that holds nothing.
#[verifier::external_body]
fn stride_list_new() -> (r: StrideList)
    ensures
        stride_list_items(r) == Seq::<u32>::empty(),
{
    StrideList { inner: SmallVec::new() }
}

/// `SmallVec::push`: the item is appended behind those that the vector
/// holds, which stay as they are. The vector grows by powers of two and
/// gives up where the byte count of the new capacity overflows; with fewer
/// than `MAX_LIST_LEN` items it does not.
#[verifier::external_body]
fn stride_list_push(list: &mut StrideList, item: u32)
    requires
        stride_list_items(*old(list)).len() < MAX_LIST_LEN,
    ensures
        stride_list_items(*final(list)) == stride_list_items(*old(list)).push(item),
{
    list.inner.push(item)
}

/// `SmallVec::as_slice`: the items held, in their order, as one slice.
#[verifier::external_body]
fn stride_list_as_slice(list: &StrideList) -> (r: &[u32])
    ensures
        r@ == stride_list_items(*list),
{
    list.inner.as_slice()
}

impl StrideList {
    /// The buffer strides of the list, first pushed first.
    pub closed spec fn view(&self) -> Seq<u32> {
        stride_list_items(*self)
    }

    /// An empty list.
    pub fn new() -> (r: StrideList)
        ensures
            r@ == Seq::<u32>::empty(),
    {
        stride_list_new()
    }

    /// The number of buffer strides in the list.
    pub fn len(&self) -> (r: usize)
        ensures
            r == self@.len(),
    {
        stride_list_as_slice(self).len()
    }

    /// Appends an item to the list.
    pub fn push(&mut self, item: u32)
        requires
            old(self)@.len() < MAX_LIST_LEN,
        ensures
            final(self)@ == old(self)@.push(item),
    {
        stride_list_push(self, item)
    }

    /// Appends an item to the list, unless the list is full; hands the item
    /// back where it is.
    pub fn try_push(&mut self, item: u32) -> (r: Option<u32>)
        ensures
            old(self)@.len() < MAX_LIST_LEN ==> r is None && final(self)@ == old(self)@.push(
                item,
            ),
            old(self)@.len() >= MAX_LIST_LEN ==> r == Some(item) && final(self)@ == old(self)@,
    {
        if self.len() < MAX_LIST_LEN {
            self.push(item);
            None
        } else {
            Some(item)
        }
    }

    /// The buffer strides as one slice, in their order.
    pub fn as_slice(&self) -> (r: &[u32])
        ensures
            r@ == self@,
    {
        stride_list_as_slice(self)
    }
}

impl Default for StrideList {
    /// An empty list.
    fn default() -> (r: StrideList)
        ensures
            r@ == Seq::<u32>::empty(),
    {
        StrideList::new()
    }
}

/// The head of a stream output description as the native layer reads it;
/// the entries and the strides go with it as slices.
#[derive(Copy, Clone, Debug, PartialEq, Eq, Structural)]
pub struct NativeStreamOutputDesc {
    pub num_entries: u32,
    pub num_strides: u32,
    pub rasterized_stream: u32,
}

/// Builds stream output descriptions.
#[derive(Debug)]
pub struct DescBuilder {
    pub entries: DeclarationEntryList,
    /// The strides of the buffers.
    pub strides: StrideList,
    /// The index of the stream that goes on to the rasterizer.
    pub rasterized_stream: u32,
}

impl DescBuilder {
    /// A builder without entries and strides.
    pub fn new(rasterized_stream: u32) -> (r: DescBuilder)
        ensures
            r.entries@ == Seq::<DeclarationEntry>::empty(),
            r.strides@ == Seq::<u32>::empty(),
            r.rasterized_stream == rasterized_stream,
    {
        DescBuilder { entries: DeclarationEntryList::new(), strides: StrideList::new(), rasterized_stream }
    }

    /// The head of the description.
    pub fn build(&self) -> (r: NativeStreamOutputDesc)
        ensures
            r == (NativeStreamOutputDesc {
                num_entries: count_word(self.entries@.len()),
                num_strides: count_word(self.strides@.len()),
                rasterized_stream: self.rasterized_stream,
            }),
    {
        NativeStreamOutputDesc {
            num_entries: count_of(self.entries.len()),
            num_strides: count_of(self.strides.len()),
            rasterized_stream: self.rasterized_stream,
        }
    }
}

impl Default for DescBuilder {
    /// A builder without entries and strides, whose first stream goes on
    /// to the rasterizer.
    fn default() -> (r: DescBuilder)
        ensures
            r.entries@ == Seq::<DeclarationEntry>::empty(),
            r.strides@ == Seq::<u32>::empty(),
            r.rasterized_stream == 0,
    {
        DescBuilder::new(0)
    }
}

} // verus!
