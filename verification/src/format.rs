//! Formats and small geometric types.

use vstd::prelude::*;

verus! {

/// A data format, by its native number.
pub type DxgiFormat = u32;

pub const DXGI_FORMAT_UNKNOWN: u32 = 0;

pub const DXGI_FORMAT_R32G32B32A32_TYPELESS: u32 = 1;

pub const DXGI_FORMAT_R32G32B32A32_FLOAT: u32 = 2;

pub const DXGI_FORMAT_R32G32B32A32_UINT: u32 = 3;

pub const DXGI_FORMAT_R32G32B32A32_SINT: u32 = 4;

pub const DXGI_FORMAT_R32G32B32_TYPELESS: u32 = 5;

pub const DXGI_FORMAT_R32G32B32_FLOAT: u32 = 6;

pub const DXGI_FORMAT_R32G32B32_UINT: u32 = 7;

pub const DXGI_FORMAT_R32G32B32_SINT: u32 = 8;

pub const DXGI_FORMAT_R16G16B16A16_TYPELESS: u32 = 9;

pub const DXGI_FORMAT_R16G16B16A16_FLOAT: u32 = 10;

pub const DXGI_FORMAT_R16G16B16A16_UNORM: u32 = 11;

pub const DXGI_FORMAT_R16G16B16A16_UINT: u32 = 12;

pub const DXGI_FORMAT_R16G16B16A16_SNORM: u32 = 13;

pub const DXGI_FORMAT_R16G16B16A16_SINT: u32 = 14;

pub const DXGI_FORMAT_R32G32_TYPELESS: u32 = 15;

pub const DXGI_FORMAT_R32G32_FLOAT: u32 = 16;

pub const DXGI_FORMAT_R32G32_UINT: u32 = 17;

pub const DXGI_FORMAT_R32G32_SINT: u32 = 18;

pub const DXGI_FORMAT_R32G8X24_TYPELESS: u32 = 19;

pub const DXGI_FORMAT_D32_FLOAT_S8X24_UINT: u32 = 20;

pub const DXGI_FORMAT_R32_FLOAT_X8X24_TYPELESS: u32 = 21;

pub const DXGI_FORMAT_X32_TYPELESS_G8X24_UINT: u32 = 22;

pub const DXGI_FORMAT_R10G10B10A2_TYPELESS: u32 = 23;

pub const DXGI_FORMAT_R10G10B10A2_UNORM: u32 = 24;

pub const DXGI_FORMAT_R10G10B10A2_UINT: u32 = 25;

pub const DXGI_FORMAT_R11G11B10_FLOAT: u32 = 26;

pub const DXGI_FORMAT_R8G8B8A8_TYPELESS: u32 = 27;

pub const DXGI_FORMAT_R8G8B8A8_UNORM: u32 = 28;

pub const DXGI_FORMAT_R8G8B8A8_UNORM_SRGB: u32 = 29;

pub const DXGI_FORMAT_R8G8B8A8_UINT: u32 = 30;

pub const DXGI_FORMAT_R8G8B8A8_SNORM: u32 = 31;

pub const DXGI_FORMAT_R8G8B8A8_SINT: u32 = 32;

pub const DXGI_FORMAT_R16G16_TYPELESS: u32 = 33;

pub const DXGI_FORMAT_R16G16_FLOAT: u32 = 34;

pub const DXGI_FORMAT_R16G16_UNORM: u32 = 35;

pub const DXGI_FORMAT_R16G16_UINT: u32 = 36;

pub const DXGI_FORMAT_R16G16_SNORM: u32 = 37;

pub const DXGI_FORMAT_R16G16_SINT: u32 = 38;

pub const DXGI_FORMAT_R32_TYPELESS: u32 = 39;

pub const DXGI_FORMAT_D32_FLOAT: u32 = 40;

pub const DXGI_FORMAT_R32_FLOAT: u32 = 41;

pub const DXGI_FORMAT_R32_UINT: u32 = 42;

pub const DXGI_FORMAT_R32_SINT: u32 = 43;

pub const DXGI_FORMAT_R24G8_TYPELESS: u32 = 44;

pub const DXGI_FORMAT_D24_UNORM_S8_UINT: u32 = 45;

pub const DXGI_FORMAT_R24_UNORM_X8_TYPELESS: u32 = 46;

pub const DXGI_FORMAT_X24_TYPELESS_G8_UINT: u32 = 47;

pub const DXGI_FORMAT_R8G8_TYPELESS: u32 = 48;

pub const DXGI_FORMAT_R8G8_UNORM: u32 = 49;

pub const DXGI_FORMAT_R8G8_UINT: u32 = 50;

pub const DXGI_FORMAT_R8G8_SNORM: u32 = 51;

pub const DXGI_FORMAT_R8G8_SINT: u32 = 52;

pub const DXGI_FORMAT_R16_TYPELESS: u32 = 53;

pub const DXGI_FORMAT_R16_FLOAT: u32 = 54;

pub const DXGI_FORMAT_D16_UNORM: u32 = 55;

pub const DXGI_FORMAT_R16_UNORM: u32 = 56;

pub const DXGI_FORMAT_R16_UINT: u32 = 57;

pub const DXGI_FORMAT_R16_SNORM: u32 = 58;

pub const DXGI_FORMAT_R16_SINT: u32 = 59;

pub const DXGI_FORMAT_R8_TYPELESS: u32 = 60;

pub const DXGI_FORMAT_R8_UNORM: u32 = 61;

pub const DXGI_FORMAT_R8_UINT: u32 = 62;

pub const DXGI_FORMAT_R8_SNORM: u32 = 63;

pub const DXGI_FORMAT_R8_SINT: u32 = 64;

pub const DXGI_FORMAT_A8_UNORM: u32 = 65;

pub const DXGI_FORMAT_R1_UNORM: u32 = 66;

pub const DXGI_FORMAT_R9G9B9E5_SHAREDEXP: u32 = 67;

pub const DXGI_FORMAT_R8G8_B8G8_UNORM: u32 = 68;

pub const DXGI_FORMAT_G8R8_G8B8_UNORM: u32 = 69;

pub const DXGI_FORMAT_BC1_TYPELESS: u32 = 70;

pub const DXGI_FORMAT_BC1_UNORM: u32 = 71;

pub const DXGI_FORMAT_BC1_UNORM_SRGB: u32 = 72;

pub const DXGI_FORMAT_BC2_TYPELESS: u32 = 73;

pub const DXGI_FORMAT_BC2_UNORM: u32 = 74;

pub const DXGI_FORMAT_BC2_UNORM_SRGB: u32 = 75;

pub const DXGI_FORMAT_BC3_TYPELESS: u32 = 76;

pub const DXGI_FORMAT_BC3_UNORM: u32 = 77;

pub const DXGI_FORMAT_BC3_UNORM_SRGB: u32 = 78;

pub const DXGI_FORMAT_BC4_TYPELESS: u32 = 79;

pub const DXGI_FORMAT_BC4_UNORM: u32 = 80;

pub const DXGI_FORMAT_BC4_SNORM: u32 = 81;

pub const DXGI_FORMAT_BC5_TYPELESS: u32 = 82;

pub const DXGI_FORMAT_BC5_UNORM: u32 = 83;

pub const DXGI_FORMAT_BC5_SNORM: u32 = 84;

pub const DXGI_FORMAT_B5G6R5_UNORM: u32 = 85;

pub const DXGI_FORMAT_B5G5R5A1_UNORM: u32 = 86;

pub const DXGI_FORMAT_B8G8R8A8_UNORM: u32 = 87;

pub const DXGI_FORMAT_B8G8R8X8_UNORM: u32 = 88;

pub const DXGI_FORMAT_R10G10B10_XR_BIAS_A2_UNORM: u32 = 89;

pub const DXGI_FORMAT_B8G8R8A8_TYPELESS: u32 = 90;

pub const DXGI_FORMAT_B8G8R8A8_UNORM_SRGB: u32 = 91;

pub const DXGI_FORMAT_B8G8R8X8_TYPELESS: u32 = 92;

pub const DXGI_FORMAT_B8G8R8X8_UNORM_SRGB: u32 = 93;

pub const DXGI_FORMAT_BC6H_TYPELESS: u32 = 94;

pub const DXGI_FORMAT_BC6H_UF16: u32 = 95;

pub const DXGI_FORMAT_BC6H_SF16: u32 = 96;

pub const DXGI_FORMAT_BC7_TYPELESS: u32 = 97;

pub const DXGI_FORMAT_BC7_UNORM: u32 = 98;

pub const DXGI_FORMAT_BC7_UNORM_SRGB: u32 = 99;

pub const DXGI_FORMAT_AYUV: u32 = 100;

pub const DXGI_FORMAT_Y410: u32 = 101;

pub const DXGI_FORMAT_Y416: u32 = 102;

pub const DXGI_FORMAT_NV12: u32 = 103;

pub const DXGI_FORMAT_P010: u32 = 104;

pub const DXGI_FORMAT_P016: u32 = 105;

pub const DXGI_FORMAT_420_OPAQUE: u32 = 106;

pub const DXGI_FORMAT_YUY2: u32 = 107;

pub const DXGI_FORMAT_Y210: u32 = 108;

pub const DXGI_FORMAT_Y216: u32 = 109;

pub const DXGI_FORMAT_NV11: u32 = 110;

pub const DXGI_FORMAT_AI44: u32 = 111;

pub const DXGI_FORMAT_IA44: u32 = 112;

pub const DXGI_FORMAT_P8: u32 = 113;

pub const DXGI_FORMAT_A8P8: u32 = 114;

pub const DXGI_FORMAT_B4G4R4A4_UNORM: u32 = 115;

pub const DXGI_FORMAT_P208: u32 = 130;

pub const DXGI_FORMAT_V208: u32 = 131;

pub const DXGI_FORMAT_V408: u32 = 132;

/// A rectangle with integer corners.
#[derive(Copy, Clone, Debug, PartialEq, Eq, Structural)]
pub struct Rect {
    pub left: i32,
    pub top: i32,
    pub right: i32,
    pub bottom: i32,
}

/// A box in three dimensions.
#[derive(Copy, Clone, Debug, PartialEq, Eq, Structural)]
pub struct Box3u {
    pub left: u32,
    pub top: u32,
    pub front: u32,
    pub right: u32,
    pub bottom: u32,
    pub back: u32,
}

/// The native value that stands for `true`.
pub const TRUE: i32 = 1;

/// The native value that stands for `false`.
pub const FALSE: i32 = 0;

/// A boolean in its native form.
#[derive(Copy, Clone, PartialEq, Eq, Hash, Debug, Structural)]
pub struct Bool {
    inner: i32,
}

impl Bool {
    /// The native value.
    pub closed spec fn view(&self) -> i32 {
        self.inner
    }

    /// Wraps a native boolean, which must be `TRUE` or `FALSE`.
    pub fn from_win_bool(b: i32) -> (r: Bool)
        requires
            b == TRUE || b == FALSE,
        ensures
            r@ == b,
    {
        Bool { inner: b }
    }

    /// The native value.
    pub fn to_win_bool(self) -> (r: i32)
        ensures
            r == self@,
    {
        self.inner
    }

    /// Whether the value is `TRUE`.
    pub fn is_true(self) -> (r: bool)
        ensures
            r == (self@ == TRUE),
    {
        self.inner == TRUE
    }

    /// The native form of `v`.
    pub fn new(v: bool) -> (r: Bool)
        ensures
            r == Bool::of(v),
            r.is_true_spec() == v,
            r@ == (if v {
                TRUE
            } else {
                FALSE
            }),
    {
        if v {
            Bool { inner: TRUE }
        } else {
            Bool { inner: FALSE }
        }
    }

    /// The native form of `v`.
    pub closed spec fn of(v: bool) -> Bool {
        if v {
            Bool { inner: TRUE }
        } else {
            Bool { inner: FALSE }
        }
    }

    /// Whether the value is `TRUE`.
    pub open spec fn is_true_spec(&self) -> bool {
        self@ == TRUE
    }
}

impl From<bool> for Bool {
    fn from(v: bool) -> (r: Bool) {
        Bool::new(v)
    }
}

impl vstd::std_specs::convert::FromSpecImpl<bool> for Bool {
    open spec fn obeys_from_spec() -> bool {
        true
    }

    open spec fn from_spec(v: bool) -> Bool {
        Bool::of(v)
    }
}

/// The number of code units before the first zero unit, or the length of
/// `chars` where it holds none.
pub open spec fn wchar_len(chars: Seq<u16>) -> int
    decreases chars.len(),
{
    if chars.len() == 0 || chars[0] == 0 {
        0
    } else {
        1 + wchar_len(chars.subrange(1, chars.len() as int))
    }
}

/// `wchar_len` is the first index that holds a zero unit.
pub proof fn lemma_wchar_len(chars: Seq<u16>)
    ensures
        0 <= wchar_len(chars) <= chars.len(),
        forall|i: int| 0 <= i < wchar_len(chars) ==> chars[i] != 0,
        wchar_len(chars) < chars.len() ==> chars[wchar_len(chars)] == 0,
    decreases chars.len(),
{
    if chars.len() == 0 || chars[0] == 0 {
    } else {
        let rest = chars.subrange(1, chars.len() as int);
        lemma_wchar_len(rest);
        assert forall|i: int| 0 <= i < wchar_len(chars) implies chars[i] != 0 by {
            if i > 0 {
                assert(rest[i - 1] == chars[i]);
            }
        }
        if wchar_len(chars) < chars.len() {
            assert(rest[wchar_len(rest)] == chars[wchar_len(chars)]);
        }
    }
}

/// An index is `wchar_len` if a zero unit or the end stands there and no
/// zero unit stands before it.
pub proof fn lemma_wchar_len_unique(chars: Seq<u16>, n: int)
    requires
        0 <= n <= chars.len(),
        forall|i: int| 0 <= i < n ==> chars[i] != 0,
        n < chars.len() ==> chars[n] == 0,
    ensures
        wchar_len(chars) == n,
{
    lemma_wchar_len(chars);
    let m = wchar_len(chars);
    if m < n {
        assert(chars[m] != 0);
    } else if n < m {
        assert(chars[n] == 0);
    }
}

/// The text of a buffer of UTF-16 code units that may end in a zero unit:
/// the units before the first zero, or all of them where there is none.
pub fn from_wchar_slice(chars: &[u16]) -> (r: &[u16])
    ensures
        r@ == chars@.subrange(0, wchar_len(chars@)),
{
    let mut end: usize = 0;
    while end < chars.len() && chars[end] != 0
        invariant
            end <= chars@.len(),
            forall|i: int| 0 <= i < end ==> chars@[i] != 0,
        decreases chars@.len() - end,
    {
        end = end + 1;
    }
    proof {
        lemma_wchar_len_unique(chars@, end as int);
    }
    vstd::slice::slice_subrange(chars, 0, end)
}

} // verus!
