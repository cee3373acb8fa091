//! The input assembler: views of index and vertex buffers, and topologies.

use vstd::prelude::*;
use smallvec::SmallVec;
use crate::format::DxgiFormat;
use crate::list::MAX_LIST_LEN;
use crate::resource::raw::GpuVAddress;

verus! {

/// A view of an index buffer.
#[derive(Copy, Clone, Debug, PartialEq, Eq, Structural)]
pub struct IndexBufferView {
    pub location: GpuVAddress,
    pub size: u32,
    pub format: DxgiFormat,
}

/// A view of a vertex buffer.
#[derive(Copy, Clone, Debug, PartialEq, Eq, Structural)]
pub struct VertexBufferView {
    pub location: GpuVAddress,
    pub size: u32,
    pub stride: u32,
}

/// The offset that places an input element right behind the one before it.
pub const APPEND_ALIGNED_ELEMENT: u32 = 0xffff_ffff;

/// Whether input data is read per vertex or per instance.
#[derive(Clone, Copy, Debug, PartialEq, Eq, Hash, Structural)]
pub enum InputClassification {
    /// Per vertex.
    PerVertex,
    /// Per instance.
    PerInstance,
}

impl InputClassification {
    /// The native number of the value.
    pub open spec fn spec_bits(self) -> u32 {
        match self {
            InputClassification::PerVertex => 0,
            InputClassification::PerInstance => 1,
        }
    }

    /// The native number of the value.
    pub fn bits(self) -> (r: u32)
        ensures
            r == self.spec_bits(),
    {
        match self {
            InputClassification::PerVertex => 0,
            InputClassification::PerInstance => 1,
        }
    }

    /// The value with the native number `bits`, if there is one.
    pub fn from_bits(bits: u32) -> (r: Option<InputClassification>)
        ensures
            match r {
                Some(v) => v.spec_bits() == bits,
                None => forall|v: InputClassification| v.spec_bits() != bits,
            },
    {
        if bits == 0 {
            Some(InputClassification::PerVertex)
        } else if bits == 1 {
            Some(InputClassification::PerInstance)
        } else {
            None
        }
    }
}

/// The index that cuts a strip.
#[derive(Clone, Copy, Debug, PartialEq, Eq, Hash, Structural)]
pub enum StripCutValue {
    /// No index cuts a strip.
    Disabled,
    /// The greatest 16-bit index.
    Ffff,
    /// The greatest 32-bit index.
    Ffffffff,
}

impl StripCutValue {
    /// The native number of the value.
    pub open spec fn spec_bits(self) -> u32 {
        match self {
            StripCutValue::Disabled => 0,
            StripCutValue::Ffff => 1,
            StripCutValue::Ffffffff => 2,
        }
    }

    /// The native number of the value.
    pub fn bits(self) -> (r: u32)
        ensures
            r == self.spec_bits(),
    {
        match self {
            StripCutValue::Disabled => 0,
            StripCutValue::Ffff => 1,
            StripCutValue::Ffffffff => 2,
        }
    }

    /// The value with the native number `bits`, if there is one.
    pub fn from_bits(bits: u32) -> (r: Option<StripCutValue>)
        ensures
            match r {
                Some(v) => v.spec_bits() == bits,
                None => forall|v: StripCutValue| v.spec_bits() != bits,
            },
    {
        if bits == 0 {
            Some(StripCutValue::Disabled)
        } else if bits == 1 {
            Some(StripCutValue::Ffff)
        } else if bits == 2 {
            Some(StripCutValue::Ffffffff)
        } else {
            None
        }
    }
}

impl Default for StripCutValue {
    /// No index cuts a strip.
    fn default() -> (r: StripCutValue)
        ensures
            r == StripCutValue::Disabled,
    {
        StripCutValue::Disabled
    }
}

/// The kind of primitives that a pipeline draws.
#[derive(Clone, Copy, Debug, PartialEq, Eq, Hash, Structural)]
pub enum PrimitiveTopologyType {
    /// Not stated.
    Undefined,
    /// Points.
    Point,
    /// Lines.
    Line,
    /// Triangles.
    Triangle,
    /// Patches.
    Patch,
}

impl PrimitiveTopologyType {
    /// The native number of the value.
    pub open spec fn spec_bits(self) -> u32 {
        match self {
            PrimitiveTopologyType::Undefined => 0,
            PrimitiveTopologyType::Point => 1,
            PrimitiveTopologyType::Line => 2,
            PrimitiveTopologyType::Triangle => 3,
            PrimitiveTopologyType::Patch => 4,
        }
    }

    /// The native number of the value.
    pub fn bits(self) -> (r: u32)
        ensures
            r == self.spec_bits(),
    {
        match self {
            PrimitiveTopologyType::Undefined => 0,
            PrimitiveTopologyType::Point => 1,
            PrimitiveTopologyType::Line => 2,
            PrimitiveTopologyType::Triangle => 3,
            PrimitiveTopologyType::Patch => 4,
        }
    }

    /// The value with the native number `bits`, if there is one.
    pub fn from_bits(bits: u32) -> (r: Option<PrimitiveTopologyType>)
        ensures
            match r {
                Some(v) => v.spec_bits() == bits,
                None => forall|v: PrimitiveTopologyType| v.spec_bits() != bits,
            },
    {
        if bits == 0 {
            Some(PrimitiveTopologyType::Undefined)
        } else if bits == 1 {
            Some(PrimitiveTopologyType::Point)
        } else if bits == 2 {
            Some(PrimitiveTopologyType::Line)
        } else if bits == 3 {
            Some(PrimitiveTopologyType::Triangle)
        } else if bits == 4 {
            Some(PrimitiveTopologyType::Patch)
        } else {
            None
        }
    }
}

/// How vertices are put together into primitives, by its native number.
///
/// The numbers 33 to 64 stand for patch lists of one to 32 control points.
#[derive(Copy, Clone, Debug, PartialEq, Eq, Hash, Structural)]
pub struct PrimitiveTopology {
    pub bits: u32,
}

impl PrimitiveTopology {
    pub const UNDEFINED: u32 = 0;

    pub const POINTLIST: u32 = 1;

    pub const LINELIST: u32 = 2;

    pub const LINESTRIP: u32 = 3;

    pub const TRIANGLELIST: u32 = 4;

    pub const TRIANGLESTRIP: u32 = 5;

    pub const LINELIST_ADJ: u32 = 10;

    pub const LINESTRIP_ADJ: u32 = 11;

    pub const TRIANGLELIST_ADJ: u32 = 12;

    pub const TRIANGLESTRIP_ADJ: u32 = 13;

    /// The number of the patch list of one control point; that of `n`
    /// control points is greater by `n - 1`.
    pub const CONTROL_POINT_PATCHLIST_1: u32 = 33;

    /// The number of the patch list of 32 control points.
    pub const CONTROL_POINT_PATCHLIST_32: u32 = 64;

    /// Whether the number names a topology.
    pub open spec fn is_known(self) -> bool {
        self.bits <= 5 || 10 <= self.bits <= 13 || 33 <= self.bits <= 64
    }

    /// The number of control points of a patch list; zero for every other
    /// topology.
    pub open spec fn spec_control_points(self) -> u32 {
        if 33 <= self.bits <= 64 {
            (self.bits - 32) as u32
        } else {
            0
        }
    }

    /// The patch list of `points` control points, of which there are from
    /// one to 32.
    pub fn control_point_patchlist(points: u32) -> (r: Option<PrimitiveTopology>)
        ensures
            1 <= points <= 32 ==> r == Some(PrimitiveTopology { bits: (points + 32) as u32 }),
            !(1 <= points <= 32) ==> r is None,
    {
        if 1 <= points && points <= 32 {
            Some(PrimitiveTopology { bits: points + 32 })
        } else {
            None
        }
    }

    /// The number of control points of a patch list; zero for every other
    /// topology.
    pub fn control_points(&self) -> (r: u32)
        ensures
            r == self.spec_control_points(),
    {
        if 33 <= self.bits && self.bits <= 64 {
            self.bits - 32
        } else {
            0
        }
    }

    /// The topology with the native number `bits`, if there is one.
    pub fn from_bits(bits: u32) -> (r: Option<PrimitiveTopology>)
        ensures
            r == (if (PrimitiveTopology { bits }).is_known() {
                Some(PrimitiveTopology { bits })
            } else {
                None
            }),
    {
        if bits <= 5 || (10 <= bits && bits <= 13) || (33 <= bits && bits <= 64) {
            Some(PrimitiveTopology { bits })
        } else {
            None
        }
    }
}

impl Default for PrimitiveTopology {
    /// Lists of triangles.
    fn default() -> (r: PrimitiveTopology)
        ensures
            r.bits == PrimitiveTopology::TRIANGLELIST,
    {
        PrimitiveTopology { bits: PrimitiveTopology::TRIANGLELIST }
    }
}

/// One element of the input of the vertex shader.
#[derive(Copy, Clone, Debug, PartialEq, Eq)]
pub struct InputElementDesc {
    /// The semantic name of the element.
    pub semantic_name: &'static str,
    pub semantic_index: u32,
    pub format: DxgiFormat,
    pub input_slot: u32,
    pub aligned_byte_offset: u32,
    pub input_slot_class: InputClassification,
    pub instance_data_step_rate: u32,
}

impl InputElementDesc {
    /// The element of the given name and format in the first slot, read
    /// per vertex, right behind the element before it.
    pub fn new(semantic_name: &'static str, format: DxgiFormat) -> (r: InputElementDesc)
        ensures
            r == (InputElementDesc {
                semantic_name,
                semantic_index: 0,
                format,
                input_slot: 0,
                aligned_byte_offset: APPEND_ALIGNED_ELEMENT,
                input_slot_class: InputClassification::PerVertex,
                instance_data_step_rate: 0,
            }),
    {
        InputElementDesc {
            semantic_name,
            semantic_index: 0,
            format,
            input_slot: 0,
            aligned_byte_offset: APPEND_ALIGNED_ELEMENT,
            input_slot_class: InputClassification::PerVertex,
            instance_data_step_rate: 0,
        }
    }
}

/// A `SmallVec` of input elements, which keeps up to eight of them in place.
#[derive(Debug)]
#[verifier::external_body]
pub struct InputElementList {
    inner: SmallVec<[InputElementDesc; 8]>,
}

/// The input elements that a list holds, first pushed first.
pub uninterp spec fn input_element_list_items(list: InputElementList) -> Seq<InputElementDesc>;

/// `SmallVec::new`: a vector that holds nothing.
#[verifier::external_body]
fn input_element_list_new() -> (r: InputElementList)
    ensures
        input_element_list_items(r) == Seq::<InputElementDesc>::empty(),
{
    InputElementList { inner: SmallVec::new() }
}

/// `SmallVec::push`: the item is appended behind those that the vector
/// holds, which stay as they are. The vector grows by powers of two and
/// gives up where the byte count of the new capacity overflows; with fewer
/// than `MAX_LIST_LEN` items it does not.
#[verifier::external_body]
fn input_element_list_push(list: &mut InputElementList, item: InputElementDesc)
    requires
        input_element_list_items(*old(list)).len() < MAX_LIST_LEN,
    ensures
        input_element_list_items(*final(list)) == input_element_list_items(*old(list)).push(item),
{
    list.inner.push(item)
}

/// `SmallVec::as_slice`: the items held, in their order, as one slice.
#[verifier::external_body]
fn input_element_list_as_slice(list: &InputElementList) -> (r: &[InputElementDesc])
    ensures
        r@ == input_element_list_items(*list),
{
    list.inner.as_slice()
}

impl InputElementList {
    /// The input elements of the list, first pushed first.
    pub closed spec fn view(&self) -> Seq<InputElementDesc> {
        input_element_list_items(*self)
    }

    /// An empty list.
    pub fn new() -> (r: InputElementList)
        ensures
            r@ == Seq::<InputElementDesc>::empty(),
    {
        input_element_list_new()
    }

    /// The number of input elements in the list.
    pub fn len(&self) -> (r: usize)
        ensures
            r == self@.len(),
    {
        input_element_list_as_slice(self).len()
    }

    /// Appends an item to the list.
    pub fn push(&mut self, item: InputElementDesc)
        requires
            old(self)@.len() < MAX_LIST_LEN,
        ensures
            final(self)@ == old(self)@.push(item),
    {
        input_element_list_push(self, item)
    }

    /// Appends an item to the list, unless the list is full; hands the item
    /// back where it is.
    pub fn try_push(&mut self, item: InputElementDesc) -> (r: Option<InputElementDesc>)
        ensures
            old(self)@.len() < MAX_LIST_LEN ==> r is None && final(self)@ == old(self)@.push(
                item,
            ),
            old(self)@.len() >= MAX_LIST_LEN ==> r == Some(item) && final(self)@ == old(self)@,
    {
        if self.len() < MAX_LIST_LEN {
            self.push(item);
            None
        } else {
            Some(item)
        }
    }

    /// The input elements as one slice, in their order.
    pub fn as_slice(&self) -> (r: &[InputElementDesc])
        ensures
            r@ == self@,
    {
        input_element_list_as_slice(self)
    }
}

impl Default for InputElementList {
    /// An empty list.
    fn default() -> (r: InputElementList)
        ensures
            r@ == Seq::<InputElementDesc>::empty(),
    {
        InputElementList::new()
    }
}

/// Builds input layouts.
#[derive(Debug)]
pub struct InputLayoutBuilder {
    pub elements: InputElementList,
}

impl InputLayoutBuilder {
    /// A builder without elements.
    pub fn new() -> (r: InputLayoutBuilder)
        ensures
            r.elements@ == Seq::<InputElementDesc>::empty(),
    {
        InputLayoutBuilder { elements: InputElementList::new() }
    }
}

impl Default for InputLayoutBuilder {
    /// A builder without elements.
    fn default() -> (r: InputLayoutBuilder)
        ensures
            r.elements@ == Seq::<InputElementDesc>::empty(),
    {
        InputLayoutBuilder::new()
    }
}

/// A vertex.
pub trait Vertex: Sized {
    /// The distance in bytes from one vertex to the next: the low 32 bits
    /// of the size of the type.
    fn get_stride(&self) -> (r: u32)
        ensures
            r == (core::mem::size_of::<Self>() as u32),
    {
        stride_of::<Self>()
    }

    /// The input layout of the vertex.
    fn get_input_layout(&self) -> InputLayoutBuilder;
}

/// The stride of vertices of type `V`: the low 32 bits of its size.
pub fn stride_of<V>() -> (r: u32)
    ensures
        r == (core::mem::size_of::<V>() as u32),
{
    #[verifier::truncate]
    (core::mem::size_of::<V>() as u32)
}

} // verus!
