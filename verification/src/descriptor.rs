//! Descriptors and the heaps that hold them.

pub mod desc;
pub mod heap;
