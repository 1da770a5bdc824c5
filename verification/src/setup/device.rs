//! Physical-device capability profiles and the suitability rule that the
//! device-listing step filters with.

use vstd::prelude::*;
use crate::setup::queues::{
    Capability, QueueFamilyInfo, has_family_with, find_graphics_queue,
    try_find_queue_not_shared_with, spec_supports,
};

verus! {

/// The minimum instance/device api version this layer asks for (major 1,
/// minor 2, packed as the api-version word).
pub const VULKAN_VERSION: u32 = (1u32 << 22) | (2u32 << 12);

/// Packs variant, major, minor and patch into one api-version word.
pub fn make_api_version(variant: u32, major: u32, minor: u32, patch: u32) -> (r: u32)
    ensures
        r == (variant << 29) | (major << 22) | (minor << 12) | patch,
{
    (variant << 29) | (major << 22) | (minor << 12) | patch
}

/// One memory heap of a device, as the capability service reports it.
#[derive(Debug, Clone, Copy, PartialEq, Eq, Structural)]
pub struct MemoryHeapInfo {
    pub size: u64,
    pub device_local: bool,
}

/// Sum of the sizes of the device-local heaps in `heaps`.
pub open spec fn spec_vram_size(heaps: Seq<MemoryHeapInfo>) -> int
    decreases heaps.len(),
{
    if heaps.len() == 0 {
        0
    } else {
        spec_vram_size(heaps.drop_last()) + if heaps.last().device_local {
            heaps.last().size as int
        } else {
            0
        }
    }
}

/// A prefix of the heap list never sums to more than the whole list.
pub proof fn lemma_vram_prefix_bounded(heaps: Seq<MemoryHeapInfo>, i: int)
    requires
        0 <= i <= heaps.len(),
    ensures
        spec_vram_size(heaps.take(i)) <= spec_vram_size(heaps),
    decreases heaps.len() - i,
{
    if i == heaps.len() {
        assert(heaps.take(i) =~= heaps);
    } else {
        lemma_vram_prefix_bounded(heaps, i + 1);
        assert(heaps.take(i + 1).drop_last() =~= heaps.take(i));
        assert(heaps.take(i + 1).last() == heaps[i]);
    }
}

/// Capability profile of one physical device: everything the suitability
/// rule and the QueueSelector read.
#[derive(Debug, PartialEq, Eq)]
pub struct DeviceProfile {
    pub api_version: u32,
    pub discrete: bool,
    pub queue_families: Vec<QueueFamilyInfo>,
    pub memory_heaps: Vec<MemoryHeapInfo>,
}

/// A device is suitable when its api version is recent enough and every role
/// (graphics, compute, transfer) can be served by some queue family.
pub open spec fn spec_suitable(p: DeviceProfile) -> bool {
    &&& p.api_version >= VULKAN_VERSION
    &&& has_family_with(p.queue_families@, Capability::Graphics)
    &&& has_family_with(p.queue_families@, Capability::Compute)
    &&& has_family_with(p.queue_families@, Capability::Transfer)
}

impl DeviceProfile {
    /// Whether the device is a discrete adapter.
    pub fn is_discrete(&self) -> (r: bool)
        ensures
            r == self.discrete,
    {
        self.discrete
    }

    /// Total size of the device-local memory heaps.
    pub fn vram_size(&self) -> (r: u64)
        requires
            spec_vram_size(self.memory_heaps@) <= u64::MAX,
        ensures
            r == spec_vram_size(self.memory_heaps@),
    {
        let n = self.memory_heaps.len();
        let mut total: u64 = 0;
        let mut i: usize = 0;
        while i < n
            invariant
                i <= n,
                n == self.memory_heaps@.len(),
                spec_vram_size(self.memory_heaps@) <= u64::MAX,
                total == spec_vram_size(self.memory_heaps@.take(i as int)),
            decreases n - i,
        {
            proof {
                lemma_vram_prefix_bounded(self.memory_heaps@, i + 1);
                assert(self.memory_heaps@.take(i + 1).drop_last()
                    =~= self.memory_heaps@.take(i as int));
                assert(self.memory_heaps@.take(i + 1).last() == self.memory_heaps@[i as int]);
            }
            let heap = self.memory_heaps[i];
            if heap.device_local {
                total = total + heap.size;
            }
            i = i + 1;
        }
        proof {
            assert(self.memory_heaps@.take(n as int) =~= self.memory_heaps@);
        }
        total
    }

    /// The suitability rule: api version at least `VULKAN_VERSION`, and a
    /// family available for each of the three roles.
    pub fn is_device_suitable(&self) -> (r: bool)
        requires
            self.queue_families@.len() <= u32::MAX,
        ensures
            r == spec_suitable(*self),
    {
        if self.api_version < VULKAN_VERSION {
            return false;
        }
        let g = find_graphics_queue(&self.queue_families);
        let c = try_find_queue_not_shared_with(
            &self.queue_families, Capability::Compute, Capability::Graphics);
        let t = try_find_queue_not_shared_with(
            &self.queue_families, Capability::Transfer, Capability::Graphics);
        proof {
            if g is Some {
                assert(spec_supports(self.queue_families@[g->0 as int], Capability::Graphics));
            }
            if c is Some {
                assert(spec_supports(self.queue_families@[c->0 as int], Capability::Compute));
            }
            if t is Some {
                assert(spec_supports(self.queue_families@[t->0 as int], Capability::Transfer));
            }
        }
        g.is_some() && c.is_some() && t.is_some()
    }
}

/// Indices of the suitable devices among `profiles`, in listing order: the
/// filter the device-listing step applies.
pub fn suitable_device_indices(profiles: &Vec<DeviceProfile>) -> (r: Vec<usize>)
    requires
        forall|i: int| 0 <= i < profiles@.len()
            ==> (#[trigger] profiles@[i]).queue_families@.len() <= u32::MAX,
    ensures
        forall|k: int| 0 <= k < r@.len()
            ==> #[trigger] r@[k] < profiles@.len() && spec_suitable(profiles@[r@[k] as int]),
        forall|i: int| 0 <= i < profiles@.len() && spec_suitable(#[trigger] profiles@[i])
            ==> r@.contains(i as usize),
        forall|k1: int, k2: int| 0 <= k1 < k2 < r@.len() ==> r@[k1] < r@[k2],
{
    let n = profiles.len();
    let mut r: Vec<usize> = Vec::new();
    let mut i: usize = 0;
    while i < n
        invariant
            i <= n,
            n == profiles@.len(),
            forall|j: int| 0 <= j < profiles@.len()
                ==> (#[trigger] profiles@[j]).queue_families@.len() <= u32::MAX,
            forall|k: int| 0 <= k < r@.len()
                ==> #[trigger] r@[k] < i && spec_suitable(profiles@[r@[k] as int]),
            forall|j: int| 0 <= j < i && spec_suitable(#[trigger] profiles@[j])
                ==> r@.contains(j as usize),
            forall|k1: int, k2: int| 0 <= k1 < k2 < r@.len() ==> r@[k1] < r@[k2],
        decreases n - i,
    {
        let ghost r0 = r@;
        if profiles[i].is_device_suitable() {
            r.push(i);
            proof {
                assert(r@[r@.len() - 1] == i as usize);
            }
        }
        proof {
            assert forall|j: int| 0 <= j < i + 1 && spec_suitable(#[trigger] profiles@[j])
                implies r@.contains(j as usize) by {
                if j < i {
                    let k = choose|k: int| 0 <= k < r0.len() && r0[k] == j as usize;
                    assert(r@[k] == j as usize);
                } else {
                    assert(r@[r@.len() - 1] == i as usize);
                }
            }
        }
        i = i + 1;
    }
    r
}

} // verus!
