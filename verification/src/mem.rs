//! The buffer memory model: the allocator-service lifetime discipline, the
//! per-operation mapping rule, and (in the submodules) host-visible and
//! device-local buffers with staged transfer between them.

pub mod buffer;
pub mod gpu_buffer;

use vstd::prelude::*;

verus! {

/// Which of mapping and unmapping one buffer operation must perform: a
/// persistent host pointer is reused and kept mapped; otherwise the operation
/// maps for its own duration and unmaps immediately after. Whoever maps,
/// unmaps — ownership of the map lifetime is decided per operation, never
/// assumed.
#[derive(Debug, Clone, Copy, PartialEq, Eq, Structural)]
pub struct MapAccess {
    pub needs_map: bool,
    pub needs_unmap: bool,
}

/// The mapping rule for one read or write on a host-visible allocation.
pub fn plan_map_access(persistently_mapped: bool) -> (r: MapAccess)
    ensures
        r.needs_map == !persistently_mapped,
        r.needs_unmap == r.needs_map,
{
    MapAccess { needs_map: !persistently_mapped, needs_unmap: !persistently_mapped }
}

/// The buffer-usage flags this layer's rules read (whether the buffer can be
/// the source or the destination of a transfer), with the remaining flag bits
/// carried through untouched for the external services.
#[derive(Debug, Clone, Copy, PartialEq, Eq, Structural)]
pub struct BufferUsage {
    pub transfer_src: bool,
    pub transfer_dst: bool,
    pub other_bits: u32,
}

/// Model of the external allocator service, as far as this layer relies on
/// it: it hands out allocations with fresh identities, and an allocation
/// stays live from creation until it is destroyed, exactly once. Placement
/// and address choice stay with the external service.
pub struct AllocatorService {
    pub next_id: u64,
    pub live: Vec<u64>,
}

impl AllocatorService {
    /// Identities grow monotonically and the live list holds no duplicates.
    pub open spec fn wf(&self) -> bool {
        &&& forall|i: int| 0 <= i < self.live@.len() ==> self.live@[i] < self.next_id
        &&& forall|i: int, j: int|
            0 <= i < j < self.live@.len() ==> self.live@[i] != self.live@[j]
    }

    /// Whether the allocation `id` is currently live.
    pub open spec fn lives(&self, id: u64) -> bool {
        self.live@.contains(id)
    }

    /// The identity the next allocation will get.
    pub open spec fn spec_next_id(&self) -> u64 {
        self.next_id
    }

    /// How many allocations are live.
    pub open spec fn live_count(&self) -> nat {
        self.live@.len()
    }

    /// A fresh service with no allocation yet.
    pub fn new() -> (r: AllocatorService)
        ensures
            r.wf(),
            r.spec_next_id() == 0,
            r.live_count() == 0,
            forall|id: u64| !r.lives(id),
    {
        AllocatorService { next_id: 0, live: Vec::new() }
    }

    /// Creates one allocation: its identity is fresh, and it is live until
    /// `free` releases it.
    pub fn allocate(&mut self) -> (id: u64)
        requires
            old(self).wf(),
            old(self).spec_next_id() < u64::MAX,
        ensures
            final(self).wf(),
            id == old(self).spec_next_id(),
            final(self).spec_next_id() == old(self).spec_next_id() + 1,
            final(self).lives(id),
            !old(self).lives(id),
            forall|x: u64| x != id ==> (final(self).lives(x) <==> old(self).lives(x)),
            final(self).live_count() == old(self).live_count() + 1,
    {
        let id = self.next_id;
        self.next_id = self.next_id + 1;
        let ghost l0 = self.live@;
        self.live.push(id);
        proof {
            assert(self.live@[l0.len() as int] == id);
            if l0.contains(id) {
                let k = choose|k: int| 0 <= k < l0.len() && l0[k] == id;
                assert(l0[k] < id);
            }
            assert forall|x: u64| x != id implies (self.lives(x) <==> l0.contains(x)) by {
                if self.live@.contains(x) {
                    let k = choose|k: int| 0 <= k < self.live@.len() && self.live@[k] == x;
                    assert(k < l0.len());
                    assert(l0[k] == x);
                }
                if l0.contains(x) {
                    let k = choose|k: int| 0 <= k < l0.len() && l0[k] == x;
                    assert(self.live@[k] == x);
                }
            }
        }
        id
    }

    /// Destroys the allocation `id`: it must be live, and it is live no
    /// longer. Nothing else changes.
    pub fn free(&mut self, id: u64)
        requires
            old(self).wf(),
            old(self).lives(id),
        ensures
            final(self).wf(),
            !final(self).lives(id),
            forall|x: u64| x != id ==> (final(self).lives(x) <==> old(self).lives(x)),
            final(self).spec_next_id() == old(self).spec_next_id(),
            final(self).live_count() == old(self).live_count() - 1,
    {
        let ghost l0 = self.live@;
        let n = self.live.len();
        let mut i: usize = 0;
        while i < n && self.live[i] != id
            invariant
                i <= n,
                n == self.live@.len(),
                self.live@ == l0,
                l0.contains(id),
                forall|k: int| 0 <= k < i ==> l0[k] != id,
            decreases n - i,
        {
            i = i + 1;
        }
        proof {
            if i == n {
                let k = choose|k: int| 0 <= k < l0.len() && l0[k] == id;
                assert(l0[k] != id);
            }
        }
        self.live.remove(i);
        proof {
            assert forall|k: int| 0 <= k < self.live@.len()
                implies self.live@[k] == (if k < i { l0[k] } else { l0[k + 1] }) by {
                assert(self.live@ == l0.remove(i as int));
            }
            if self.live@.contains(id) {
                let k = choose|k: int| 0 <= k < self.live@.len() && self.live@[k] == id;
                if k < i {
                    assert(l0[k] != id);
                } else {
                    assert(l0[k + 1] == id && l0[i as int] == id);
                }
            }
            assert forall|x: u64| x != id implies (self.lives(x) <==> l0.contains(x)) by {
                if self.live@.contains(x) {
                    let k = choose|k: int| 0 <= k < self.live@.len() && self.live@[k] == x;
                    if k < i {
                        assert(l0[k] == x);
                    } else {
                        assert(l0[k + 1] == x);
                    }
                }
                if l0.contains(x) {
                    let k = choose|k: int| 0 <= k < l0.len() && l0[k] == x;
                    if k < i {
                        assert(self.live@[k] == x);
                    } else {
                        assert(l0[i as int] == id);
                        assert(k != i);
                        assert(self.live@[k - 1] == x);
                    }
                }
            }
        }
    }
}

} // verus!
