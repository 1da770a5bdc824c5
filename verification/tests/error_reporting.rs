use vulkan_tasks::VulkanError;

#[test]
fn errors_describe_themselves() {
    assert_eq!(VulkanError::NoComputeQueue.describe(), "No compute queue found");
    assert_eq!(VulkanError::NoTransferQueue.describe(), "No transfer queue found");
    assert_eq!(
        VulkanError::NoPhysicalDevicePicked.describe(),
        "No physical device picked"
    );
    assert_eq!(VulkanError::OutOfBounds.describe(), "Buffer access out of bounds");
    assert_eq!(VulkanError::Native(-1).describe(), "Native API error");
}

#[test]
fn native_faults_keep_their_code() {
    assert_eq!(VulkanError::Native(-13), VulkanError::Native(-13));
    assert_ne!(VulkanError::Native(-13), VulkanError::Native(-4));
    assert_ne!(VulkanError::Native(0), VulkanError::NoComputeQueue);
}
