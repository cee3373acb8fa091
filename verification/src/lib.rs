//! A type-safe model of GPU heaps, resources and resource barriers.
//!
//! The crate describes heaps and resources, validates placements and state
//! transitions, and lays barriers out for submission. It never talks to a
//! driver itself: every operation that needs one is split into a request,
//! which the caller carries out, and a completion, which takes the outcome.

pub mod comptr;
pub mod list;
pub mod error;
pub mod format;
pub mod swapchain;
pub mod resource;
pub mod descriptor;
pub mod pipeline;
pub mod shader;
pub mod command;
pub mod factory;
pub mod fence;
pub mod event;
pub mod device;
