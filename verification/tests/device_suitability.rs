use vulkan_tasks::setup::device::{
    DeviceProfile, MemoryHeapInfo, VULKAN_VERSION, make_api_version, suitable_device_indices,
};
use vulkan_tasks::setup::queues::QueueFamilyInfo;

fn all_roles_family() -> QueueFamilyInfo {
    QueueFamilyInfo { graphics: true, compute: true, transfer: true, queue_count: 4 }
}

fn profile(api_version: u32, families: Vec<QueueFamilyInfo>) -> DeviceProfile {
    DeviceProfile { api_version, discrete: true, queue_families: families, memory_heaps: vec![] }
}

#[test]
fn api_version_packs_fields() {
    assert_eq!(make_api_version(0, 1, 2, 0), VULKAN_VERSION);
    assert_eq!(make_api_version(0, 1, 0, 0), 1 << 22);
    assert_eq!(
        make_api_version(1, 2, 3, 4),
        (1u32 << 29) | (2u32 << 22) | (3u32 << 12) | 4
    );
}

#[test]
fn vram_size_sums_device_local_heaps_only() {
    let p = DeviceProfile {
        api_version: VULKAN_VERSION,
        discrete: false,
        queue_families: vec![],
        memory_heaps: vec![
            MemoryHeapInfo { size: 4096, device_local: true },
            MemoryHeapInfo { size: 1024, device_local: false },
            MemoryHeapInfo { size: 512, device_local: true },
        ],
    };
    assert_eq!(p.vram_size(), 4608);
    assert!(!p.is_discrete());
}

#[test]
fn vram_size_of_no_heaps_is_zero() {
    let p = profile(VULKAN_VERSION, vec![all_roles_family()]);
    assert_eq!(p.vram_size(), 0);
}

#[test]
fn suitable_device_passes_the_filter() {
    let p = profile(VULKAN_VERSION, vec![all_roles_family()]);
    assert!(p.is_device_suitable());
}

#[test]
fn old_api_version_is_unsuitable() {
    let p = profile(make_api_version(0, 1, 1, 0), vec![all_roles_family()]);
    assert!(!p.is_device_suitable());
}

#[test]
fn missing_compute_family_is_unsuitable() {
    // No compute-capable family: the device is filtered out before any
    // queue-set construction is attempted.
    let p = profile(
        VULKAN_VERSION,
        vec![QueueFamilyInfo { graphics: true, compute: false, transfer: true, queue_count: 1 }],
    );
    assert!(!p.is_device_suitable());
}

#[test]
fn listing_filter_keeps_suitable_devices_in_order() {
    let good_a = profile(VULKAN_VERSION, vec![all_roles_family()]);
    let bad = profile(make_api_version(0, 1, 0, 0), vec![all_roles_family()]);
    let good_b = profile(make_api_version(0, 1, 3, 7), vec![all_roles_family()]);
    let profiles = vec![bad, good_a, good_b];
    assert_eq!(suitable_device_indices(&profiles), vec![1, 2]);
}
