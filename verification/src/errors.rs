//! Error taxonomy of the layer: configuration faults that are fatal to setup,
//! bounds violations on buffer accesses, and native-API faults carried
//! opaquely as the underlying error code.

use vstd::prelude::*;

verus! {

/// Every fault this layer can surface.
///
/// `NoComputeQueue`, `NoTransferQueue` and `NoPhysicalDevicePicked` are
/// configuration faults; `OutOfBounds` rejects a buffer access whose range
/// exceeds the buffer's capacity; `Native` wraps an error code returned by
/// the external device or allocator service, propagated as-is.
#[derive(Debug, Clone, Copy, PartialEq, Eq, Structural)]
pub enum VulkanError {
    NoComputeQueue,
    NoTransferQueue,
    NoPhysicalDevicePicked,
    OutOfBounds,
    Native(i32),
}

impl VulkanError {
    /// A human-readable description, in place of a `Display` impl.
    pub fn describe(&self) -> String {
        match self {
            VulkanError::NoComputeQueue => "No compute queue found".to_string(),
            VulkanError::NoTransferQueue => "No transfer queue found".to_string(),
            VulkanError::NoPhysicalDevicePicked => "No physical device picked".to_string(),
            VulkanError::OutOfBounds => "Buffer access out of bounds".to_string(),
            VulkanError::Native(_) => "Native API error".to_string(),
        }
    }
}

} // verus!
