//! Descriptions of constant buffer views.

use vstd::prelude::*;
use crate::resource::raw::GpuVAddress;

verus! {

/// Describes a constant buffer view.
#[derive(Copy, Clone, Debug, PartialEq, Eq, Structural)]
pub struct CbvDesc {
    /// The address of the buffer on the GPU.
    pub buffer_location: GpuVAddress,
    /// The size of the buffer in bytes.
    pub size: u32,
}

} // verus!
