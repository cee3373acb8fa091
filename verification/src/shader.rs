//! Shaders.

use vstd::prelude::*;
use smallvec::SmallVec;
use crate::comptr::ComPtr;
use crate::list::MAX_LIST_LEN;

pub mod reflection;

verus! {

/// Options of the shader compiler.
#[derive(Clone, Copy, Debug, PartialEq, Eq, Hash, Structural)]
pub struct ShaderCompileFlags {
    pub bits: u32,
}

impl ShaderCompileFlags {
    /// Debug information is added.
    pub const DEBUG: u32 = 0x1;

    /// The code is not validated.
    pub const SKIP_VALIDATION: u32 = 0x2;

    /// The code is not optimized.
    pub const SKIP_OPTIMIZATION: u32 = 0x4;

    /// Matrices are packed row by row.
    pub const PACK_MATRIX_ROW_MAJOR: u32 = 0x8;

    /// Matrices are packed column by column.
    pub const PACK_MATRIX_COLUMN_MAJOR: u32 = 0x10;

    /// Partial precision is used.
    pub const PARTIAL_PRECISION: u32 = 0x20;

    /// The vertex shader is compiled for software, without optimization.
    pub const FORCE_VS_SOFTWARE_NO_OPT: u32 = 0x40;

    /// The pixel shader is compiled for software, without optimization.
    pub const FORCE_PS_SOFTWARE_NO_OPT: u32 = 0x80;

    /// No preshader is made.
    pub const NO_PRESHADER: u32 = 0x100;

    /// Flow control is avoided.
    pub const AVOID_FLOW_CONTROL: u32 = 0x200;

    /// Flow control is preferred.
    pub const PREFER_FLOW_CONTROL: u32 = 0x400;

    /// Old syntax is refused.
    pub const ENABLE_STRICTNESS: u32 = 0x800;

    /// Old syntax is accepted.
    pub const ENABLE_BACKWARDS_COMPATIBILITY: u32 = 0x1000;

    /// Floating point follows IEEE strictly.
    pub const IEEE_STRICTNESS: u32 = 0x2000;

    /// The lowest level of optimization.
    pub const OPTIMIZATION_LEVEL0: u32 = 0x4000;

    /// The second level of optimization.
    pub const OPTIMIZATION_LEVEL1: u32 = 0;

    /// The third level of optimization.
    pub const OPTIMIZATION_LEVEL2: u32 = 0xc000;

    /// The highest level of optimization.
    pub const OPTIMIZATION_LEVEL3: u32 = 0x8000;

    /// Warnings count as errors.
    pub const WARNINGS_ARE_ERRORS: u32 = 0x4_0000;

    /// Resources may alias.
    pub const RESOURCES_MAY_ALIAS: u32 = 0x8_0000;

    /// Descriptor tables may be unbounded.
    pub const ENABLE_UNBOUNDED_DESCRIPTOR_TABLES: u32 = 0x10_0000;

    /// All resources are bound.
    pub const ALL_RESOURCES_BOUND: u32 = 0x20_0000;

    /// Every bit that names a flag.
    pub const ALL: u32 = 0x3c_ffff;

    /// Whether every flag of `other` is among the flags of `self`.
    pub open spec fn spec_contains(self, other: ShaderCompileFlags) -> bool {
        self.bits & other.bits == other.bits
    }

    /// Whether only bits that name a flag are set.
    pub open spec fn is_known(self) -> bool {
        self.bits & !ShaderCompileFlags::ALL == 0
    }

    /// No flag.
    pub fn empty() -> (r: ShaderCompileFlags)
        ensures
            r.bits == 0,
    {
        ShaderCompileFlags { bits: 0 }
    }

    /// The bits.
    pub fn bits(&self) -> (r: u32)
        ensures
            r == self.bits,
    {
        self.bits
    }

    /// The flags that `bits` names, or nothing where a bit names no flag.
    pub fn from_bits(bits: u32) -> (r: Option<ShaderCompileFlags>)
        ensures
            r == (if (ShaderCompileFlags { bits }).is_known() {
                Some(ShaderCompileFlags { bits })
            } else {
                None
            }),
    {
        if bits & !ShaderCompileFlags::ALL == 0 {
            Some(ShaderCompileFlags { bits })
        } else {
            None
        }
    }

    /// The flags that `bits` names, without the bits that name none.
    pub fn from_bits_truncate(bits: u32) -> (r: ShaderCompileFlags)
        ensures
            r.bits == bits & ShaderCompileFlags::ALL,
    {
        ShaderCompileFlags { bits: bits & ShaderCompileFlags::ALL }
    }

    /// Whether no flag is set.
    pub fn is_empty(&self) -> (r: bool)
        ensures
            r == (self.bits == 0),
    {
        self.bits == 0
    }

    /// Whether every flag of `other` is among the flags of `self`.
    pub fn contains(&self, other: ShaderCompileFlags) -> (r: bool)
        ensures
            r == self.spec_contains(other),
    {
        self.bits & other.bits == other.bits
    }

    /// The flags of either.
    pub fn union(self, other: ShaderCompileFlags) -> (r: ShaderCompileFlags)
        ensures
            r.bits == self.bits | other.bits,
    {
        ShaderCompileFlags { bits: self.bits | other.bits }
    }
}

impl Default for ShaderCompileFlags {
    /// The lowest level of optimization, with warnings as errors.
    fn default() -> (r: ShaderCompileFlags)
        ensures
            r.bits == 0x4_4000,
    {
        ShaderCompileFlags { bits: 0x4_4000 }
    }
}

/// The name of the compilation target of vertex shaders.
pub const VS_TARGET: &'static str = "vs_5_1";

/// The name of the compilation target of pixel shaders.
pub const PS_TARGET: &'static str = "ps_5_1";

/// The name of the compilation target of hull shaders.
pub const HS_TARGET: &'static str = "hs_5_1";

/// The name of the compilation target of compute shaders.
pub const CS_TARGET: &'static str = "cs_5_1";

/// The name of the compilation target of geometry shaders.
pub const GS_TARGET: &'static str = "gs_5_1";

/// The name of the compilation target of domain shaders.
pub const DS_TARGET: &'static str = "ds_5_1";

/// Marks a handle to a blob of bytes.
#[derive(Debug, Clone, Copy, PartialEq, Eq)]
pub struct BlobObject;

/// Compiled code of a shader.
pub trait ShaderBytecode {
    /// The blob that holds the code.
    spec fn blob(&self) -> ComPtr<BlobObject>;

    /// The blob that holds the code.
    fn as_blob(&self) -> (r: &ComPtr<BlobObject>)
        ensures
            *r == self.blob(),
    ;
}

/// Compiled code of a vertex shader.
#[derive(Debug)]
pub struct VsShaderBytecode {
    pub ptr: ComPtr<BlobObject>,
}

impl ShaderBytecode for VsShaderBytecode {
    open spec fn blob(&self) -> ComPtr<BlobObject> {
        self.ptr
    }

    fn as_blob(&self) -> (r: &ComPtr<BlobObject>) {
        &self.ptr
    }
}

/// Compiled code of a pixel shader.
#[derive(Debug)]
pub struct PsShaderBytecode {
    pub ptr: ComPtr<BlobObject>,
}

impl ShaderBytecode for PsShaderBytecode {
    open spec fn blob(&self) -> ComPtr<BlobObject> {
        self.ptr
    }

    fn as_blob(&self) -> (r: &ComPtr<BlobObject>) {
        &self.ptr
    }
}

/// Compiled code of a compute shader.
#[derive(Debug)]
pub struct CsShaderBytecode {
    pub ptr: ComPtr<BlobObject>,
}

impl ShaderBytecode for CsShaderBytecode {
    open spec fn blob(&self) -> ComPtr<BlobObject> {
        self.ptr
    }

    fn as_blob(&self) -> (r: &ComPtr<BlobObject>) {
        &self.ptr
    }
}

/// Compiled code of a hull shader.
#[derive(Debug)]
pub struct HsShaderBytecode {
    pub ptr: ComPtr<BlobObject>,
}

impl ShaderBytecode for HsShaderBytecode {
    open spec fn blob(&self) -> ComPtr<BlobObject> {
        self.ptr
    }

    fn as_blob(&self) -> (r: &ComPtr<BlobObject>) {
        &self.ptr
    }
}

/// Compiled code of a geometry shader.
#[derive(Debug)]
pub struct GsShaderBytecode {
    pub ptr: ComPtr<BlobObject>,
}

impl ShaderBytecode for GsShaderBytecode {
    open spec fn blob(&self) -> ComPtr<BlobObject> {
        self.ptr
    }

    fn as_blob(&self) -> (r: &ComPtr<BlobObject>) {
        &self.ptr
    }
}

/// Compiled code of a domain shader.
#[derive(Debug)]
pub struct DsShaderBytecode {
    pub ptr: ComPtr<BlobObject>,
}

impl ShaderBytecode for DsShaderBytecode {
    open spec fn blob(&self) -> ComPtr<BlobObject> {
        self.ptr
    }

    fn as_blob(&self) -> (r: &ComPtr<BlobObject>) {
        &self.ptr
    }
}

/// A macro that is defined for the compiler. The macro without a name ends
/// a list of macros.
#[derive(Copy, Clone, Debug, PartialEq, Eq)]
pub struct ShaderMacro {
    name: Option<&'static str>,
    definition: Option<&'static str>,
}

impl ShaderMacro {
    /// The name, if the macro has one.
    pub closed spec fn name(&self) -> Option<&'static str> {
        self.name
    }

    /// The definition, if the macro has one.
    pub closed spec fn definition(&self) -> Option<&'static str> {
        self.definition
    }

    /// Whether this is the macro that ends a list.
    pub open spec fn is_end(&self) -> bool {
        self.name() is None && self.definition() is None
    }

    /// The macro `name` with the given definition.
    pub fn new(name: &'static str, definition: &'static str) -> (r: ShaderMacro)
        ensures
            r.name() == Some(name),
            r.definition() == Some(definition),
    {
        ShaderMacro { name: Some(name), definition: Some(definition) }
    }

    /// The name, if the macro has one.
    pub fn get_name(&self) -> (r: Option<&'static str>)
        ensures
            r == self.name(),
    {
        self.name
    }

    /// The definition, if the macro has one.
    pub fn get_definition(&self) -> (r: Option<&'static str>)
        ensures
            r == self.definition(),
    {
        self.definition
    }
}

impl Default for ShaderMacro {
    /// The macro that ends a list.
    fn default() -> (r: ShaderMacro)
        ensures
            r.is_end(),
    {
        ShaderMacro { name: None, definition: None }
    }
}

/// A `SmallVec` of shader macros, which keeps up to eight of them in place.
#[derive(Debug)]
#[verifier::external_body]
pub struct ShaderMacroList {
    inner: SmallVec<[ShaderMacro; 8]>,
}

/// The shader macros that a list holds, first pushed first.
pub uninterp spec fn shader_macro_list_items(list: ShaderMacroList) -> Seq<ShaderMacro>;

/// `SmallVec::new`: a vector that holds nothing.
#[verifier::external_body]
fn shader_macro_list_new() -> (r: ShaderMacroList)
    ensures
        shader_macro_list_items(r) == Seq::<ShaderMacro>::empty(),
{
    ShaderMacroList { inner: SmallVec::new() }
}

/// `SmallVec::push`: the item is appended behind those that the vector
/// holds, which stay as they are. The vector grows by powers of two and
/// gives up where the byte count of the new capacity overflows; with fewer
/// than `MAX_LIST_LEN` items it does not.
#[verifier::external_body]
fn shader_macro_list_push(list: &mut ShaderMacroList, item: ShaderMacro)
    requires
        shader_macro_list_items(*old(list)).len() < MAX_LIST_LEN,
    ensures
        shader_macro_list_items(*final(list)) == shader_macro_list_items(*old(list)).push(item),
{
    list.inner.push(item)
}

/// `SmallVec::as_slice`: the items held, in their order, as one slice.
#[verifier::external_body]
fn shader_macro_list_as_slice(list: &ShaderMacroList) -> (r: &[ShaderMacro])
    ensures
        r@ == shader_macro_list_items(*list),
{
    list.inner.as_slice()
}

/// `SmallVec::pop`: the last item leaves the vector and is handed out;
/// an empty vector stays empty and hands out nothing.
#[verifier::external_body]
fn shader_macro_list_pop(list: &mut ShaderMacroList) -> (r: Option<ShaderMacro>)
    ensures
        shader_macro_list_items(*old(list)).len() == 0 ==> r is None && shader_macro_list_items(*final(list))
            == shader_macro_list_items(*old(list)),
        shader_macro_list_items(*old(list)).len() > 0 ==> r == Some(shader_macro_list_items(*old(list)).last())
            && shader_macro_list_items(*final(list)) == shader_macro_list_items(*old(list)).drop_last(),
{
    list.inner.pop()
}

impl ShaderMacroList {
    /// The shader macros of the list, first pushed first.
    pub closed spec fn view(&self) -> Seq<ShaderMacro> {
        shader_macro_list_items(*self)
    }

    /// An empty list.
    pub fn new() -> (r: ShaderMacroList)
        ensures
            r@ == Seq::<ShaderMacro>::empty(),
    {
        shader_macro_list_new()
    }

    /// The number of shader macros in the list.
    pub fn len(&self) -> (r: usize)
        ensures
            r == self@.len(),
    {
        shader_macro_list_as_slice(self).len()
    }

    /// Appends an item to the list.
    pub fn push(&mut self, item: ShaderMacro)
        requires
            old(self)@.len() < MAX_LIST_LEN,
        ensures
            final(self)@ == old(self)@.push(item),
    {
        shader_macro_list_push(self, item)
    }

    /// Appends an item to the list, unless the list is full; hands the item
    /// back where it is.
    pub fn try_push(&mut self, item: ShaderMacro) -> (r: Option<ShaderMacro>)
        ensures
            old(self)@.len() < MAX_LIST_LEN ==> r is None && final(self)@ == old(self)@.push(
                item,
            ),
            old(self)@.len() >= MAX_LIST_LEN ==> r == Some(item) && final(self)@ == old(self)@,
    {
        if self.len() < MAX_LIST_LEN {
            self.push(item);
            None
        } else {
            Some(item)
        }
    }

    /// The shader macros as one slice, in their order.
    pub fn as_slice(&self) -> (r: &[ShaderMacro])
        ensures
            r@ == self@,
    {
        shader_macro_list_as_slice(self)
    }

    /// Takes the last item off the list, if there is one.
    pub fn pop(&mut self) -> (r: Option<ShaderMacro>)
        ensures
            old(self)@.len() == 0 ==> r is None && final(self)@ == old(self)@,
            old(self)@.len() > 0 ==> r == Some(old(self)@.last()) && final(self)@
                == old(self)@.drop_last(),
    {
        shader_macro_list_pop(self)
    }
}

impl Default for ShaderMacroList {
    /// An empty list.
    fn default() -> (r: ShaderMacroList)
        ensures
            r@ == Seq::<ShaderMacro>::empty(),
    {
        ShaderMacroList::new()
    }
}

/// Builds shaders from source.
#[derive(Debug)]
pub struct ShaderBuilder<'a> {
    /// The source.
    pub src_data: &'a [u8],
    /// The macros that are defined for the compiler.
    pub shader_macros: ShaderMacroList,
    /// The name of the function at which the shader begins.
    pub entry_point: &'a str,
    /// The options of the compiler.
    pub flags: ShaderCompileFlags,
}

impl<'a> ShaderBuilder<'a> {
    /// A builder for the given source and entry point, without macros and
    /// with the default options.
    pub fn new(src_data: &'a [u8], entry_point: &'a str) -> (r: ShaderBuilder<'a>)
        ensures
            r.src_data == src_data,
            r.entry_point == entry_point,
            r.shader_macros@ == Seq::<ShaderMacro>::empty(),
            r.flags.bits == 0x4_4000,
    {
        ShaderBuilder {
            src_data,
            entry_point,
            shader_macros: ShaderMacroList::new(),
            flags: Default::default(),
        }
    }

    /// Ends the list of macros for the compiler, which reads it up to the
    /// macro without a name.
    pub fn begin_build(&mut self)
        requires
            old(self).shader_macros@.len() < MAX_LIST_LEN,
        ensures
            final(self).shader_macros@.len() == old(self).shader_macros@.len() + 1,
            final(self).shader_macros@.drop_last() == old(self).shader_macros@,
            final(self).shader_macros@.last().is_end(),
            final(self).src_data == old(self).src_data,
            final(self).entry_point == old(self).entry_point,
            final(self).flags == old(self).flags,
    {
        let end: ShaderMacro = Default::default();
        self.shader_macros.push(end);
        proof {
            assert(self.shader_macros@.drop_last() =~= old(self).shader_macros@);
        }
    }

    /// Takes the end off the list of macros again, once the compiler has
    /// run. After `begin_build` the list is as it was before.
    pub fn end_build(&mut self)
        ensures
            final(self).shader_macros@ == (if old(self).shader_macros@.len() > 0 {
                old(self).shader_macros@.drop_last()
            } else {
                old(self).shader_macros@
            }),
            final(self).src_data == old(self).src_data,
            final(self).entry_point == old(self).entry_point,
            final(self).flags == old(self).flags,
    {
        let _ = self.shader_macros.pop();
    }
}

} // verus!
