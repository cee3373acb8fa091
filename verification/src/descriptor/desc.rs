//! Descriptions of views.

use vstd::prelude::*;

pub mod cbv;
pub mod dsv;
pub mod rtv;
pub mod sampler;
pub mod srv;
pub mod uav;

verus! {

/// The low 32 bits of a 64-bit number.
pub open spec fn lo32(x: u64) -> u32 {
    (x & 0xffff_ffff) as u32
}

/// The high 32 bits of a 64-bit number.
pub open spec fn hi32(x: u64) -> u32 {
    (x >> 32) as u32
}

/// The word that holds a signed 32-bit number in two's complement.
pub open spec fn word_of_i32(x: i32) -> u32 {
    if x >= 0 {
        x as u32
    } else {
        (x + 0x1_0000_0000) as u32
    }
}

/// The low 32 bits of a 64-bit number.
pub fn low_word(x: u64) -> (r: u32)
    ensures
        r == lo32(x),
{
    assert(x & 0xffff_ffff <= 0xffff_ffff) by (bit_vector);
    (x & 0xffff_ffff) as u32
}

/// The high 32 bits of a 64-bit number.
pub fn high_word(x: u64) -> (r: u32)
    ensures
        r == hi32(x),
{
    assert(x >> 32 <= 0xffff_ffff) by (bit_vector);
    (x >> 32) as u32
}

/// The word that holds a signed 32-bit number in two's complement.
pub fn i32_word(x: i32) -> (r: u32)
    ensures
        r == word_of_i32(x),
{
    if x >= 0 {
        x as u32
    } else {
        let wide: i64 = x as i64 + 0x1_0000_0000;
        wide as u32
    }
}

/// Where a component that a shader reads comes from.
#[derive(Clone, Copy, Debug, PartialEq, Eq, Hash, Structural)]
pub enum ShaderComponentMapping {
    /// The first component in memory: red.
    FromMemoryComponent0,
    /// The second component in memory: green.
    FromMemoryComponent1,
    /// The third component in memory: blue.
    FromMemoryComponent2,
    /// The fourth component in memory: alpha.
    FromMemoryComponent3,
    /// Always zero.
    ForceValue0,
    /// Always one.
    ForceValue1,
}

impl ShaderComponentMapping {
    /// The native number of the value.
    pub open spec fn spec_bits(self) -> u32 {
        match self {
            ShaderComponentMapping::FromMemoryComponent0 => 0,
            ShaderComponentMapping::FromMemoryComponent1 => 1,
            ShaderComponentMapping::FromMemoryComponent2 => 2,
            ShaderComponentMapping::FromMemoryComponent3 => 3,
            ShaderComponentMapping::ForceValue0 => 4,
            ShaderComponentMapping::ForceValue1 => 5,
        }
    }

    /// The native number of the value.
    pub fn bits(self) -> (r: u32)
        ensures
            r == self.spec_bits(),
    {
        match self {
            ShaderComponentMapping::FromMemoryComponent0 => 0,
            ShaderComponentMapping::FromMemoryComponent1 => 1,
            ShaderComponentMapping::FromMemoryComponent2 => 2,
            ShaderComponentMapping::FromMemoryComponent3 => 3,
            ShaderComponentMapping::ForceValue0 => 4,
            ShaderComponentMapping::ForceValue1 => 5,
        }
    }

    /// The value with the native number `bits`, if there is one.
    pub fn from_bits(bits: u32) -> (r: Option<ShaderComponentMapping>)
        ensures
            match r {
                Some(v) => v.spec_bits() == bits,
                None => forall|v: ShaderComponentMapping| v.spec_bits() != bits,
            },
    {
        if bits == 0 {
            Some(ShaderComponentMapping::FromMemoryComponent0)
        } else if bits == 1 {
            Some(ShaderComponentMapping::FromMemoryComponent1)
        } else if bits == 2 {
            Some(ShaderComponentMapping::FromMemoryComponent2)
        } else if bits == 3 {
            Some(ShaderComponentMapping::FromMemoryComponent3)
        } else if bits == 4 {
            Some(ShaderComponentMapping::ForceValue0)
        } else if bits == 5 {
            Some(ShaderComponentMapping::ForceValue1)
        } else {
            None
        }
    }
}

/// The number of bits by which the selector of one component is shifted
/// against that of the component before it.
pub const SHADER_COMPONENT_MAPPING_SHIFT: u32 = 3;

/// The code of four selectors.
///
/// The sum of the first two selectors is shifted left three times in a row:
/// by three plus the third selector, by six plus the fourth, and by nine.
pub open spec fn component_mapping_code(r: u32, g: u32, b: u32, a: u32) -> u32 {
    ((((r + g) as u32) << ((3 + b) as u32)) << ((6 + a) as u32)) << 9u32
}

/// Where each of the four components that a shader reads comes from, in one
/// word.
#[derive(Copy, Clone, Debug, PartialEq, Eq, Structural)]
pub struct Shader4ComponentMapping {
    inner: u32,
}

impl Shader4ComponentMapping {
    /// The word.
    pub closed spec fn view(&self) -> u32 {
        self.inner
    }

    /// The mapping made of a selector for each of red, green, blue and
    /// alpha.
    pub fn new(
        r: ShaderComponentMapping,
        g: ShaderComponentMapping,
        b: ShaderComponentMapping,
        a: ShaderComponentMapping,
    ) -> (m: Shader4ComponentMapping)
        ensures
            m@ == component_mapping_code(
                r.spec_bits(),
                g.spec_bits(),
                b.spec_bits(),
                a.spec_bits(),
            ),
    {
        let sum: u32 = r.bits() + g.bits();
        let by_b: u32 = SHADER_COMPONENT_MAPPING_SHIFT + b.bits();
        let by_a: u32 = SHADER_COMPONENT_MAPPING_SHIFT * 2 + a.bits();
        let last: u32 = SHADER_COMPONENT_MAPPING_SHIFT * 3;
        Shader4ComponentMapping { inner: ((sum << by_b) << by_a) << last }
    }

    /// The word.
    pub fn into_bits(self) -> (r: u32)
        ensures
            r == self@,
    {
        self.inner
    }
}

impl Default for Shader4ComponentMapping {
    /// Each component from its own place in memory.
    fn default() -> (m: Shader4ComponentMapping)
        ensures
            m@ == component_mapping_code(0, 1, 2, 3),
    {
        Shader4ComponentMapping::new(
            ShaderComponentMapping::FromMemoryComponent0,
            ShaderComponentMapping::FromMemoryComponent1,
            ShaderComponentMapping::FromMemoryComponent2,
            ShaderComponentMapping::FromMemoryComponent3,
        )
    }
}

} // verus!
