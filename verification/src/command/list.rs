//! Command lists.

pub mod common;
pub mod direct;
pub mod bundle;
