//! Resources as the native layer hands them out.

use vstd::prelude::*;
use crate::comptr::{ComPtr, ResourceObject};

verus! {

/// A resource that the native layer has created.
#[derive(Debug)]
pub struct RawResource {
    ptr: ComPtr<ResourceObject>,
}

impl RawResource {
    /// The native resource.
    pub closed spec fn ptr(&self) -> ComPtr<ResourceObject> {
        self.ptr
    }

    /// Takes a native resource.
    pub fn from_comptr(ptr: ComPtr<ResourceObject>) -> (r: RawResource)
        ensures
            r.ptr() == ptr,
    {
        RawResource { ptr }
    }

    /// The native resource.
    pub fn as_comptr(&self) -> (r: &ComPtr<ResourceObject>)
        ensures
            *r == self.ptr(),
    {
        &self.ptr
    }
}

impl Clone for RawResource {
    /// Another owner of the same resource.
    fn clone(&self) -> (r: RawResource)
        ensures
            r == *self,
    {
        RawResource { ptr: self.ptr.clone() }
    }
}

/// A range of bytes of a mapped subresource, as the native layer takes it.
#[derive(Copy, Clone, Debug, PartialEq, Eq, Structural)]
pub struct MapRange {
    /// The offset of the first byte.
    pub begin: usize,
    /// The offset after the last byte.
    pub end: usize,
}

impl MapRange {
    /// The range from a pair of offsets; no pair stands for the whole
    /// subresource, for which the native layer takes no range.
    pub fn from_pair(range: Option<(usize, usize)>) -> (r: Option<MapRange>)
        ensures
            r == (match range {
                Some(pair) => Some(MapRange { begin: pair.0, end: pair.1 }),
                None => None,
            }),
    {
        match range {
            Some(pair) => Some(MapRange { begin: pair.0, end: pair.1 }),
            None => None,
        }
    }

    /// The number of bytes in the range; none where it ends before it begins.
    pub fn len(&self) -> (r: usize)
        ensures
            r == (if self.begin <= self.end {
                self.end - self.begin
            } else {
                0
            }),
    {
        if self.begin <= self.end {
            self.end - self.begin
        } else {
            0
        }
    }
}

/// A chunk of memory that holds rows of a subresource.
#[derive(Copy, Clone, Debug, PartialEq, Eq, Structural)]
pub struct ResourceChunkDesc {
    /// The address of the first byte.
    pub data: usize,
    /// The distance in bytes from one row to the next.
    pub row_pitch: u32,
    /// The distance in bytes from one depth slice to the next.
    pub depth_pitch: u32,
}

/// An address in the virtual address space of the GPU.
#[derive(Copy, Clone, Debug, PartialEq, Eq, Structural)]
pub struct GpuVAddress {
    pub ptr: u64,
}

} // verus!
