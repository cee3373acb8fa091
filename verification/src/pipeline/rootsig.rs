//! Root signatures: what is bound to a pipeline.

use vstd::prelude::*;
use smallvec::SmallVec;
use crate::list::MAX_LIST_LEN;
use crate::pipeline::sampler::{StaticSamplerDesc, StaticSamplerList};

verus! {

/// The kind of the descriptors of a range.
#[derive(Clone, Copy, Debug, PartialEq, Eq, Hash, Structural)]
pub enum DescriptorRangeType {
    /// Shader resource views.
    Srv,
    /// Unordered access views.
    Uav,
    /// Constant buffer views.
    Cbv,
    /// Samplers.
    Sampler,
}

impl DescriptorRangeType {
    /// The native number of the value.
    pub open spec fn spec_bits(self) -> u32 {
        match self {
            DescriptorRangeType::Srv => 0,
            DescriptorRangeType::Uav => 1,
            DescriptorRangeType::Cbv => 2,
            DescriptorRangeType::Sampler => 3,
        }
    }

    /// The native number of the value.
    pub fn bits(self) -> (r: u32)
        ensures
            r == self.spec_bits(),
    {
        match self {
            DescriptorRangeType::Srv => 0,
            DescriptorRangeType::Uav => 1,
            DescriptorRangeType::Cbv => 2,
            DescriptorRangeType::Sampler => 3,
        }
    }

    /// The value with the native number `bits`, if there is one.
    pub fn from_bits(bits: u32) -> (r: Option<DescriptorRangeType>)
        ensures
            match r {
                Some(v) => v.spec_bits() == bits,
                None => forall|v: DescriptorRangeType| v.spec_bits() != bits,
            },
    {
        if bits == 0 {
            Some(DescriptorRangeType::Srv)
        } else if bits == 1 {
            Some(DescriptorRangeType::Uav)
        } else if bits == 2 {
            Some(DescriptorRangeType::Cbv)
        } else if bits == 3 {
            Some(DescriptorRangeType::Sampler)
        } else {
            None
        }
    }
}

/// The shaders that see a root parameter.
#[derive(Clone, Copy, Debug, PartialEq, Eq, Hash, Structural)]
pub enum ShaderVisibility {
    /// All of them.
    All,
    /// The vertex shader.
    Vertex,
    /// The hull shader.
    Hull,
    /// The domain shader.
    Domain,
    /// The geometry shader.
    Geometry,
    /// The pixel shader.
    Pixel,
}

impl ShaderVisibility {
    /// The native number of the value.
    pub open spec fn spec_bits(self) -> u32 {
        match self {
            ShaderVisibility::All => 0,
            ShaderVisibility::Vertex => 1,
            ShaderVisibility::Hull => 2,
            ShaderVisibility::Domain => 3,
            ShaderVisibility::Geometry => 4,
            ShaderVisibility::Pixel => 5,
        }
    }

    /// The native number of the value.
    pub fn bits(self) -> (r: u32)
        ensures
            r == self.spec_bits(),
    {
        match self {
            ShaderVisibility::All => 0,
            ShaderVisibility::Vertex => 1,
            ShaderVisibility::Hull => 2,
            ShaderVisibility::Domain => 3,
            ShaderVisibility::Geometry => 4,
            ShaderVisibility::Pixel => 5,
        }
    }

    /// The value with the native number `bits`, if there is one.
    pub fn from_bits(bits: u32) -> (r: Option<ShaderVisibility>)
        ensures
            match r {
                Some(v) => v.spec_bits() == bits,
                None => forall|v: ShaderVisibility| v.spec_bits() != bits,
            },
    {
        if bits == 0 {
            Some(ShaderVisibility::All)
        } else if bits == 1 {
            Some(ShaderVisibility::Vertex)
        } else if bits == 2 {
            Some(ShaderVisibility::Hull)
        } else if bits == 3 {
            Some(ShaderVisibility::Domain)
        } else if bits == 4 {
            Some(ShaderVisibility::Geometry)
        } else if bits == 5 {
            Some(ShaderVisibility::Pixel)
        } else {
            None
        }
    }
}

impl Default for ShaderVisibility {
    /// All shaders.
    fn default() -> (r: ShaderVisibility)
        ensures
            r == ShaderVisibility::All,
    {
        ShaderVisibility::All
    }
}

/// Options of a root signature.
#[derive(Clone, Copy, Debug, PartialEq, Eq, Hash, Structural)]
pub struct RootSigFlags {
    pub bits: u32,
}

impl RootSigFlags {
    /// No option.
    pub const NONE: u32 = 0;

    /// The input assembler is used.
    pub const ALLOW_INPUT_ASSEMBLER_INPUT_LAYOUT: u32 = 0x1;

    /// The vertex shader does not reach the root signature.
    pub const DENY_VERTEX_SHADER_ROOT_ACCESS: u32 = 0x2;

    /// The hull shader does not reach the root signature.
    pub const DENY_HULL_SHADER_ROOT_ACCESS: u32 = 0x4;

    /// The domain shader does not reach the root signature.
    pub const DENY_DOMAIN_SHADER_ROOT_ACCESS: u32 = 0x8;

    /// The geometry shader does not reach the root signature.
    pub const DENY_GEOMETRY_SHADER_ROOT_ACCESS: u32 = 0x10;

    /// The pixel shader does not reach the root signature.
    pub const DENY_PIXEL_SHADER_ROOT_ACCESS: u32 = 0x20;

    /// Stream output is used.
    pub const ALLOW_STREAM_OUTPUT: u32 = 0x40;

    /// Every bit that names a flag.
    pub const ALL: u32 = 0x7f;

    /// Whether every flag of `other` is among the flags of `self`.
    pub open spec fn spec_contains(self, other: RootSigFlags) -> bool {
        self.bits & other.bits == other.bits
    }

    /// Whether only bits that name a flag are set.
    pub open spec fn is_known(self) -> bool {
        self.bits & !RootSigFlags::ALL == 0
    }

    /// No flag.
    pub fn empty() -> (r: RootSigFlags)
        ensures
            r.bits == 0,
    {
        RootSigFlags { bits: 0 }
    }

    /// The bits.
    pub fn bits(&self) -> (r: u32)
        ensures
            r == self.bits,
    {
        self.bits
    }

    /// The flags that `bits` names, or nothing where a bit names no flag.
    pub fn from_bits(bits: u32) -> (r: Option<RootSigFlags>)
        ensures
            r == (if (RootSigFlags { bits }).is_known() {
                Some(RootSigFlags { bits })
            } else {
                None
            }),
    {
        if bits & !RootSigFlags::ALL == 0 {
            Some(RootSigFlags { bits })
        } else {
            None
        }
    }

    /// The flags that `bits` names, without the bits that name none.
    pub fn from_bits_truncate(bits: u32) -> (r: RootSigFlags)
        ensures
            r.bits == bits & RootSigFlags::ALL,
    {
        RootSigFlags { bits: bits & RootSigFlags::ALL }
    }

    /// Whether no flag is set.
    pub fn is_empty(&self) -> (r: bool)
        ensures
            r == (self.bits == 0),
    {
        self.bits == 0
    }

    /// Whether every flag of `other` is among the flags of `self`.
    pub fn contains(&self, other: RootSigFlags) -> (r: bool)
        ensures
            r == self.spec_contains(other),
    {
        self.bits & other.bits == other.bits
    }

    /// The flags of either.
    pub fn union(self, other: RootSigFlags) -> (r: RootSigFlags)
        ensures
            r.bits == self.bits | other.bits,
    {
        RootSigFlags { bits: self.bits | other.bits }
    }
}

impl Default for RootSigFlags {
    /// The input assembler is used.
    fn default() -> (r: RootSigFlags)
        ensures
            r.bits == 0x1,
    {
        RootSigFlags { bits: 0x1 }
    }
}

/// A range of descriptors of one kind within a descriptor table.
#[derive(Copy, Clone, Debug, PartialEq, Eq, Structural)]
pub struct DescriptorRange {
    pub range_type: DescriptorRangeType,
    pub num_descriptors: u32,
    pub base_shader_register: u32,
    pub register_space: u32,
    pub offset_from_table_start: u32,
}

/// A `SmallVec` of descriptor ranges, which keeps up to four of them in place.
#[derive(Debug)]
#[verifier::external_body]
pub struct DescriptorRangeList {
    inner: SmallVec<[DescriptorRange; 4]>,
}

/// The descriptor ranges that a list holds, first pushed first.
pub uninterp spec fn descriptor_range_list_items(list: DescriptorRangeList) -> Seq<DescriptorRange>;

/// `SmallVec::new`: a vector that holds nothing.
#[verifier::external_body]
fn descriptor_range_list_new() -> (r: DescriptorRangeList)
    ensures
        descriptor_range_list_items(r) == Seq::<DescriptorRange>::empty(),
{
    DescriptorRangeList { inner: SmallVec::new() }
}

/// `SmallVec::push`: the item is appended behind those that the vector
/// holds, which stay as they are. The vector grows by powers of two and
/// gives up where the byte count of the new capacity overflows; with fewer
/// than `MAX_LIST_LEN` items it does not.
#[verifier::external_body]
fn descriptor_range_list_push(list: &mut DescriptorRangeList, item: DescriptorRange)
    requires
        descriptor_range_list_items(*old(list)).len() < MAX_LIST_LEN,
    ensures
        descriptor_range_list_items(*final(list)) == descriptor_range_list_items(*old(list)).push(item),
{
    list.inner.push(item)
}

/// `SmallVec::as_slice`: the items held, in their order, as one slice.
#[verifier::external_body]
fn descriptor_range_list_as_slice(list: &DescriptorRangeList) -> (r: &[DescriptorRange])
    ensures
        r@ == descriptor_range_list_items(*list),
{
    list.inner.as_slice()
}

impl DescriptorRangeList {
    /// The descriptor ranges of the list, first pushed first.
    pub closed spec fn view(&self) -> Seq<DescriptorRange> {
        descriptor_range_list_items(*self)
    }

    /// An empty list.
    pub fn new() -> (r: DescriptorRangeList)
        ensures
            r@ == Seq::<DescriptorRange>::empty(),
    {
        descriptor_range_list_new()
    }

    /// The number of descriptor ranges in the list.
    pub fn len(&self) -> (r: usize)
        ensures
            r == self@.len(),
    {
        descriptor_range_list_as_slice(self).len()
    }

    /// Appends an item to the list.
    pub fn push(&mut self, item: DescriptorRange)
        requires
            old(self)@.len() < MAX_LIST_LEN,
        ensures
            final(self)@ == old(self)@.push(item),
    {
        descriptor_range_list_push(self, item)
    }

    /// Appends an item to the list, unless the list is full; hands the item
    /// back where it is.
    pub fn try_push(&mut self, item: DescriptorRange) -> (r: Option<DescriptorRange>)
        ensures
            old(self)@.len() < MAX_LIST_LEN ==> r is None && final(self)@ == old(self)@.push(
                item,
            ),
            old(self)@.len() >= MAX_LIST_LEN ==> r == Some(item) && final(self)@ == old(self)@,
    {
        if self.len() < MAX_LIST_LEN {
            self.push(item);
            None
        } else {
            Some(item)
        }
    }

    /// The descriptor ranges as one slice, in their order.
    pub fn as_slice(&self) -> (r: &[DescriptorRange])
        ensures
            r@ == self@,
    {
        descriptor_range_list_as_slice(self)
    }
}

impl Default for DescriptorRangeList {
    /// An empty list.
    fn default() -> (r: DescriptorRangeList)
        ensures
            r@ == Seq::<DescriptorRange>::empty(),
    {
        DescriptorRangeList::new()
    }
}

/// The registers of a root parameter that is no descriptor table, as the
/// native layer reads them.
#[derive(Copy, Clone, Debug, PartialEq, Eq, Structural)]
pub struct ParamTypeHelper {
    pub shader_register: u32,
    pub register_space: u32,
    pub num_32bit_values: u32,
    pub pad: u32,
}

impl ParamTypeHelper {
    /// The registers, with the padding at zero.
    pub fn new(shader_register: u32, register_space: u32, num_32bit_values: u32) -> (r: ParamTypeHelper)
        ensures
            r == (ParamTypeHelper { shader_register, register_space, num_32bit_values, pad: 0 }),
    {
        ParamTypeHelper { shader_register, register_space, num_32bit_values, pad: 0 }
    }
}

/// What a root parameter binds.
#[derive(Debug)]
pub enum RootParamType {
    /// Ranges of descriptors that lie one after another in a descriptor
    /// heap.
    DescriptorTable { descriptor_ranges: DescriptorRangeList },
    /// A constant buffer view that lies in the signature itself.
    Cbv { shader_register: u32, register_space: u32 },
    /// A shader resource view that lies in the signature itself.
    Srv { shader_register: u32, register_space: u32 },
    /// An unordered access view that lies in the signature itself.
    Uav { shader_register: u32, register_space: u32 },
    /// Constants that lie in the signature itself and that shaders see as
    /// one constant buffer.
    Constant { shader_register: u32, register_space: u32, num_32bit_values: u32 },
}

/// A root parameter.
#[derive(Debug)]
pub struct RootParam {
    /// The shaders that see the parameter.
    pub visibility: ShaderVisibility,
    pub param_type: RootParamType,
}

/// The native number of a root parameter that is a descriptor table.
pub const ROOT_PARAMETER_TYPE_DESCRIPTOR_TABLE: u32 = 0;

/// The native number of a root parameter that is a run of constants.
pub const ROOT_PARAMETER_TYPE_32BIT_CONSTANTS: u32 = 1;

/// The native number of a root parameter that is a constant buffer view.
pub const ROOT_PARAMETER_TYPE_CBV: u32 = 2;

/// The native number of a root parameter that is a shader resource view.
pub const ROOT_PARAMETER_TYPE_SRV: u32 = 3;

/// The native number of a root parameter that is an unordered access view.
pub const ROOT_PARAMETER_TYPE_UAV: u32 = 4;

/// A root parameter, field by field as the native layer reads it. A
/// descriptor table fills `num_descriptor_ranges`, and its ranges go with
/// it as a slice; every other parameter fills `registers`. What a parameter
/// does not fill is zero.
#[derive(Copy, Clone, Debug, PartialEq, Eq, Structural)]
pub struct NativeRootParameter {
    pub parameter_type: u32,
    pub num_descriptor_ranges: u32,
    pub registers: ParamTypeHelper,
    pub shader_visibility: u32,
}

/// The low 32 bits of a length.
pub open spec fn count_word(len: nat) -> u32 {
    (len as usize & 0xffff_ffff) as u32
}

/// The low 32 bits of a length.
pub fn count_of(len: usize) -> (r: u32)
    ensures
        r == count_word(len as nat),
{
    assert(len & 0xffff_ffff <= 0xffff_ffff) by (bit_vector);
    (len & 0xffff_ffff) as u32
}

impl RootParam {
    /// The parameter as the native layer reads it.
    pub open spec fn spec_to_native(&self) -> NativeRootParameter {
        let none = ParamTypeHelper { shader_register: 0, register_space: 0, num_32bit_values: 0, pad: 0 };
        match self.param_type {
            RootParamType::DescriptorTable { descriptor_ranges } => NativeRootParameter {
                parameter_type: ROOT_PARAMETER_TYPE_DESCRIPTOR_TABLE,
                num_descriptor_ranges: count_word(descriptor_ranges@.len()),
                registers: none,
                shader_visibility: self.visibility.spec_bits(),
            },
            RootParamType::Constant { shader_register, register_space, num_32bit_values } => NativeRootParameter {
                parameter_type: ROOT_PARAMETER_TYPE_32BIT_CONSTANTS,
                num_descriptor_ranges: 0,
                registers: ParamTypeHelper { shader_register, register_space, num_32bit_values, pad: 0 },
                shader_visibility: self.visibility.spec_bits(),
            },
            RootParamType::Cbv { shader_register, register_space } => NativeRootParameter {
                parameter_type: ROOT_PARAMETER_TYPE_CBV,
                num_descriptor_ranges: 0,
                registers: ParamTypeHelper { shader_register, register_space, num_32bit_values: 0, pad: 0 },
                shader_visibility: self.visibility.spec_bits(),
            },
            RootParamType::Srv { shader_register, register_space } => NativeRootParameter {
                parameter_type: ROOT_PARAMETER_TYPE_SRV,
                num_descriptor_ranges: 0,
                registers: ParamTypeHelper { shader_register, register_space, num_32bit_values: 0, pad: 0 },
                shader_visibility: self.visibility.spec_bits(),
            },
            RootParamType::Uav { shader_register, register_space } => NativeRootParameter {
                parameter_type: ROOT_PARAMETER_TYPE_UAV,
                num_descriptor_ranges: 0,
                registers: ParamTypeHelper { shader_register, register_space, num_32bit_values: 0, pad: 0 },
                shader_visibility: self.visibility.spec_bits(),
            },
        }
    }

    /// Lays the parameter out as the native layer reads it.
    pub fn to_native(&self) -> (r: NativeRootParameter)
        ensures
            r == self.spec_to_native(),
    {
        let shader_visibility = self.visibility.bits();
        match &self.param_type {
            RootParamType::DescriptorTable { descriptor_ranges } => NativeRootParameter {
                parameter_type: ROOT_PARAMETER_TYPE_DESCRIPTOR_TABLE,
                num_descriptor_ranges: count_of(descriptor_ranges.len()),
                registers: ParamTypeHelper::new(0, 0, 0),
                shader_visibility,
            },
            RootParamType::Constant { shader_register, register_space, num_32bit_values } => NativeRootParameter {
                parameter_type: ROOT_PARAMETER_TYPE_32BIT_CONSTANTS,
                num_descriptor_ranges: 0,
                registers: ParamTypeHelper::new(*shader_register, *register_space, *num_32bit_values),
                shader_visibility,
            },
            RootParamType::Cbv { shader_register, register_space } => NativeRootParameter {
                parameter_type: ROOT_PARAMETER_TYPE_CBV,
                num_descriptor_ranges: 0,
                registers: ParamTypeHelper::new(*shader_register, *register_space, 0),
                shader_visibility,
            },
            RootParamType::Srv { shader_register, register_space } => NativeRootParameter {
                parameter_type: ROOT_PARAMETER_TYPE_SRV,
                num_descriptor_ranges: 0,
                registers: ParamTypeHelper::new(*shader_register, *register_space, 0),
                shader_visibility,
            },
            RootParamType::Uav { shader_register, register_space } => NativeRootParameter {
                parameter_type: ROOT_PARAMETER_TYPE_UAV,
                num_descriptor_ranges: 0,
                registers: ParamTypeHelper::new(*shader_register, *register_space, 0),
                shader_visibility,
            },
        }
    }
}

/// A `SmallVec` of root parameters, which keeps up to eight of them in place.
#[derive(Debug)]
#[verifier::external_body]
pub struct RootParamList {
    inner: SmallVec<[RootParam; 8]>,
}

/// The root parameters that a list holds, first pushed first.
pub uninterp spec fn root_param_list_items(list: RootParamList) -> Seq<RootParam>;

/// `SmallVec::new`: a vector that holds nothing.
#[verifier::external_body]
fn root_param_list_new() -> (r: RootParamList)
    ensures
        root_param_list_items(r) == Seq::<RootParam>::empty(),
{
    RootParamList { inner: SmallVec::new() }
}

/// `SmallVec::push`: the item is appended behind those that the vector
/// holds, which stay as they are. The vector grows by powers of two and
/// gives up where the byte count of the new capacity overflows; with fewer
/// than `MAX_LIST_LEN` items it does not.
#[verifier::external_body]
fn root_param_list_push(list: &mut RootParamList, item: RootParam)
    requires
        root_param_list_items(*old(list)).len() < MAX_LIST_LEN,
    ensures
        root_param_list_items(*final(list)) == root_param_list_items(*old(list)).push(item),
{
    list.inner.push(item)
}

/// `SmallVec::as_slice`: the items held, in their order, as one slice.
#[verifier::external_body]
fn root_param_list_as_slice(list: &RootParamList) -> (r: &[RootParam])
    ensures
        r@ == root_param_list_items(*list),
{
    list.inner.as_slice()
}

impl RootParamList {
    /// The root parameters of the list, first pushed first.
    pub closed spec fn view(&self) -> Seq<RootParam> {
        root_param_list_items(*self)
    }

    /// An empty list.
    pub fn new() -> (r: RootParamList)
        ensures
            r@ == Seq::<RootParam>::empty(),
    {
        root_param_list_new()
    }

    /// The number of root parameters in the list.
    pub fn len(&self) -> (r: usize)
        ensures
            r == self@.len(),
    {
        root_param_list_as_slice(self).len()
    }

    /// Appends an item to the list.
    pub fn push(&mut self, item: RootParam)
        requires
            old(self)@.len() < MAX_LIST_LEN,
        ensures
            final(self)@ == old(self)@.push(item),
    {
        root_param_list_push(self, item)
    }

    /// Appends an item to the list, unless the list is full; hands the item
    /// back where it is.
    pub fn try_push(&mut self, item: RootParam) -> (r: Option<RootParam>)
        ensures
            old(self)@.len() < MAX_LIST_LEN ==> r is None && final(self)@ == old(self)@.push(
                item,
            ),
            old(self)@.len() >= MAX_LIST_LEN ==> r == Some(item) && final(self)@ == old(self)@,
    {
        if self.len() < MAX_LIST_LEN {
            self.push(item);
            None
        } else {
            Some(item)
        }
    }

    /// The root parameters as one slice, in their order.
    pub fn as_slice(&self) -> (r: &[RootParam])
        ensures
            r@ == self@,
    {
        root_param_list_as_slice(self)
    }
}

impl Default for RootParamList {
    /// An empty list.
    fn default() -> (r: RootParamList)
        ensures
            r@ == Seq::<RootParam>::empty(),
    {
        RootParamList::new()
    }
}

/// The native number of the version in which root signatures are
/// serialized.
pub const ROOT_SIGNATURE_VERSION_1: u32 = 1;

/// The head of a root signature as the native layer reads it; the
/// parameters and the samplers go with it as slices.
#[derive(Copy, Clone, Debug, PartialEq, Eq, Structural)]
pub struct NativeRootSignatureDesc {
    pub num_parameters: u32,
    pub num_static_samplers: u32,
    pub flags: u32,
}

/// The parameters of a sequence, each as the native layer reads it.
pub open spec fn root_params_to_native(params: Seq<RootParam>) -> Seq<NativeRootParameter> {
    Seq::new(params.len(), |i: int| params[i].spec_to_native())
}

/// Builds root signatures.
#[derive(Debug)]
pub struct RootSigBuilder {
    pub root_params: RootParamList,
    pub static_samplers: StaticSamplerList,
    pub flags: RootSigFlags,
}

impl RootSigBuilder {
    /// A builder without parameters and samplers, for signatures that use
    /// the input assembler.
    pub fn new() -> (r: RootSigBuilder)
        ensures
            r.root_params@ == Seq::<RootParam>::empty(),
            r.static_samplers@ == Seq::<StaticSamplerDesc>::empty(),
            r.flags.bits == RootSigFlags::ALLOW_INPUT_ASSEMBLER_INPUT_LAYOUT,
    {
        RootSigBuilder {
            root_params: RootParamList::new(),
            static_samplers: StaticSamplerList::new(),
            flags: RootSigFlags { bits: RootSigFlags::ALLOW_INPUT_ASSEMBLER_INPUT_LAYOUT },
        }
    }

    /// What is handed to the native layer to have the signature serialized:
    /// its head, and each parameter as the native layer reads it, in the
    /// order of the builder.
    pub fn serialize(&self) -> (r: (NativeRootSignatureDesc, Vec<NativeRootParameter>))
        ensures
            r.0 == (NativeRootSignatureDesc {
                num_parameters: count_word(self.root_params@.len()),
                num_static_samplers: count_word(self.static_samplers@.len()),
                flags: self.flags.bits,
            }),
            r.1@ == root_params_to_native(self.root_params@),
    {
        let params = self.root_params.as_slice();
        let mut natives: Vec<NativeRootParameter> = Vec::new();
        let mut i: usize = 0;
        while i < params.len()
            invariant
                i <= params@.len(),
                params@ == self.root_params@,
                natives@ == root_params_to_native(params@.subrange(0, i as int)),
            decreases params@.len() - i,
        {
            natives.push(params[i].to_native());
            proof {
                assert(natives@ =~= root_params_to_native(params@.subrange(0, i + 1)));
            }
            i = i + 1;
        }
        proof {
            assert(params@.subrange(0, i as int) =~= params@);
        }
        let desc = NativeRootSignatureDesc {
            num_parameters: count_of(natives.len()),
            num_static_samplers: count_of(self.static_samplers.len()),
            flags: self.flags.bits,
        };
        (desc, natives)
    }
}

impl Default for RootSigBuilder {
    /// A builder without parameters and samplers.
    fn default() -> (r: RootSigBuilder)
        ensures
            r.root_params@ == Seq::<RootParam>::empty(),
            r.static_samplers@ == Seq::<StaticSamplerDesc>::empty(),
            r.flags.bits == RootSigFlags::ALLOW_INPUT_ASSEMBLER_INPUT_LAYOUT,
    {
        RootSigBuilder::new()
    }
}

} // verus!
