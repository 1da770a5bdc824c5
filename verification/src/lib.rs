//! A verified model of a thin orchestration layer over a GPU command-execution
//! API: queue-family selection and queue/pool ownership, a byte-level model of
//! host-visible and device-local buffer memory with staged transfer between
//! them, and a pollable completion-tracking primitive.
//!
//! The underlying device, capability and allocator services are external
//! collaborators: a host binding performs the actual calls and feeds their
//! outcomes into the functions of this crate, which decide everything else.

pub mod errors;
pub mod setup;
pub mod mem;
pub mod tasks;

pub use errors::VulkanError;
