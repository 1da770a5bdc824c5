//! Queue-family selection (the QueueSelector) and the queue/pool record plan.
//!
//! Selection is a pure function over the capability data of the device's
//! queue families: graphics takes the first graphics-capable family; compute
//! and transfer prefer a family that does not also advertise graphics, to get
//! independent parallelism, and fall back to whatever is available. The
//! selected indices may alias: that is expected, and roles sharing a family
//! share one queue/pool record.

use vstd::prelude::*;
use crate::errors::VulkanError;

verus! {

/// Per-family capability flags and queue count, sourced from the external
/// capability service.
#[derive(Debug, Clone, Copy, PartialEq, Eq, Structural)]
pub struct QueueFamilyInfo {
    pub graphics: bool,
    pub compute: bool,
    pub transfer: bool,
    pub queue_count: u32,
}

/// A capability a queue family can advertise.
#[derive(Debug, Clone, Copy, PartialEq, Eq, Structural)]
pub enum Capability {
    Graphics,
    Compute,
    Transfer,
}

/// Whether family `f` advertises capability `cap`.
pub open spec fn spec_supports(f: QueueFamilyInfo, cap: Capability) -> bool {
    match cap {
        Capability::Graphics => f.graphics,
        Capability::Compute => f.compute,
        Capability::Transfer => f.transfer,
    }
}

/// Whether some family in `s` advertises `cap`.
pub open spec fn has_family_with(s: Seq<QueueFamilyInfo>, cap: Capability) -> bool {
    exists|i: int| 0 <= i < s.len() && spec_supports(s[i], cap)
}

/// A family that advertises `to_find` without also advertising `to_avoid`:
/// the preferred, "dedicated" kind.
pub open spec fn is_dedicated(f: QueueFamilyInfo, to_find: Capability, to_avoid: Capability) -> bool {
    spec_supports(f, to_find) && !spec_supports(f, to_avoid)
}

/// Holds exactly when `r` is the lowest index of a family advertising `cap`,
/// or `None` when no family does.
pub open spec fn is_first_with(s: Seq<QueueFamilyInfo>, cap: Capability, r: Option<u32>) -> bool {
    match r {
        Option::None => forall|i: int| 0 <= i < s.len() ==> !spec_supports(s[i], cap),
        Option::Some(c) => {
            &&& 0 <= c < s.len()
            &&& spec_supports(s[c as int], cap)
            &&& forall|j: int| 0 <= j < c ==> !spec_supports(s[j], cap)
        },
    }
}

/// Holds exactly when `r` is the selection rule's answer for `to_find`:
/// the lowest-indexed family advertising `to_find` but not `to_avoid` when
/// one exists, otherwise the lowest-indexed family advertising `to_find`,
/// and `None` when no family advertises `to_find` at all.
pub open spec fn is_preferred_choice(
    s: Seq<QueueFamilyInfo>,
    to_find: Capability,
    to_avoid: Capability,
    r: Option<u32>,
) -> bool {
    match r {
        Option::None => forall|i: int| 0 <= i < s.len() ==> !spec_supports(s[i], to_find),
        Option::Some(c) => {
            &&& 0 <= c < s.len()
            &&& spec_supports(s[c as int], to_find)
            &&& if exists|i: int| 0 <= i < s.len() && is_dedicated(s[i], to_find, to_avoid) {
                    is_dedicated(s[c as int], to_find, to_avoid)
                        && forall|j: int| 0 <= j < c ==> !is_dedicated(s[j], to_find, to_avoid)
                } else {
                    forall|j: int| 0 <= j < c ==> !spec_supports(s[j], to_find)
                }
        },
    }
}

impl QueueFamilyInfo {
    /// Whether this family advertises `cap`.
    pub fn supports(&self, cap: Capability) -> (r: bool)
        ensures
            r == spec_supports(*self, cap),
    {
        match cap {
            Capability::Graphics => self.graphics,
            Capability::Compute => self.compute,
            Capability::Transfer => self.transfer,
        }
    }
}

/// The first family advertising graphics capability, if any.
pub fn find_graphics_queue(families: &Vec<QueueFamilyInfo>) -> (r: Option<u32>)
    requires
        families@.len() <= u32::MAX,
    ensures
        is_first_with(families@, Capability::Graphics, r),
{
    let n = families.len();
    let mut i: usize = 0;
    while i < n
        invariant
            i <= n,
            n == families@.len(),
            n <= u32::MAX,
            forall|j: int| 0 <= j < i ==> !spec_supports(families@[j], Capability::Graphics),
        decreases n - i,
    {
        if families[i].supports(Capability::Graphics) {
            return Some(i as u32);
        }
        i = i + 1;
    }
    None
}

/// The lowest-indexed family advertising `to_find`, preferring one that does
/// not also advertise `to_avoid`; `None` when no family advertises `to_find`.
pub fn try_find_queue_not_shared_with(
    families: &Vec<QueueFamilyInfo>,
    to_find: Capability,
    to_avoid: Capability,
) -> (r: Option<u32>)
    requires
        families@.len() <= u32::MAX,
    ensures
        is_preferred_choice(families@, to_find, to_avoid, r),
{
    let n = families.len();
    let mut first_any: Option<u32> = None;
    let mut first_dedicated: Option<u32> = None;
    let mut i: usize = 0;
    while i < n
        invariant
            i <= n,
            n == families@.len(),
            n <= u32::MAX,
            match first_any {
                Option::None => forall|k: int| 0 <= k < i ==> !spec_supports(families@[k], to_find),
                Option::Some(a) => {
                    &&& 0 <= a < i
                    &&& spec_supports(families@[a as int], to_find)
                    &&& forall|k: int| 0 <= k < a ==> !spec_supports(families@[k], to_find)
                },
            },
            match first_dedicated {
                Option::None => forall|k: int| 0 <= k < i ==> !is_dedicated(families@[k], to_find, to_avoid),
                Option::Some(d) => {
                    &&& 0 <= d < i
                    &&& is_dedicated(families@[d as int], to_find, to_avoid)
                    &&& forall|k: int| 0 <= k < d ==> !is_dedicated(families@[k], to_find, to_avoid)
                },
            },
        decreases n - i,
    {
        let f = families[i];
        if f.supports(to_find) {
            if first_any.is_none() {
                first_any = Some(i as u32);
            }
            if !f.supports(to_avoid) && first_dedicated.is_none() {
                first_dedicated = Some(i as u32);
            }
        }
        i = i + 1;
    }
    match first_dedicated {
        Some(d) => Some(d),
        None => first_any,
    }
}

/// The compute-role family: a dedicated compute family when one exists,
/// otherwise any compute-capable family; `NoComputeQueue` when none exists.
pub fn find_compute_queue(families: &Vec<QueueFamilyInfo>) -> (r: Result<u32, VulkanError>)
    requires
        families@.len() <= u32::MAX,
    ensures
        match r {
            Result::Ok(c) => is_preferred_choice(
                families@, Capability::Compute, Capability::Graphics, Some(c)),
            Result::Err(e) => e == VulkanError::NoComputeQueue
                && !has_family_with(families@, Capability::Compute),
        },
{
    match try_find_queue_not_shared_with(families, Capability::Compute, Capability::Graphics) {
        Some(c) => Ok(c),
        None => Err(VulkanError::NoComputeQueue),
    }
}

/// The transfer-role family, by the same preference rule; `NoTransferQueue`
/// when no family advertises transfer capability.
pub fn find_transfer_queue(families: &Vec<QueueFamilyInfo>) -> (r: Result<u32, VulkanError>)
    requires
        families@.len() <= u32::MAX,
    ensures
        match r {
            Result::Ok(t) => is_preferred_choice(
                families@, Capability::Transfer, Capability::Graphics, Some(t)),
            Result::Err(e) => e == VulkanError::NoTransferQueue
                && !has_family_with(families@, Capability::Transfer),
        },
{
    match try_find_queue_not_shared_with(families, Capability::Transfer, Capability::Graphics) {
        Some(t) => Ok(t),
        None => Err(VulkanError::NoTransferQueue),
    }
}

/// The family index selected for each role. Indices may alias: the same
/// family may serve several roles, and that is never an error.
#[derive(Debug, Clone, Copy, PartialEq, Eq, Structural)]
pub struct QueueRoleIndices {
    pub graphics: u32,
    pub compute: u32,
    pub transfer: u32,
}

impl QueueRoleIndices {
    /// The QueueSelector: picks a family index for the graphics, compute and
    /// transfer roles from the device's capability list.
    ///
    /// A graphics-capable family must exist: a device without one is deemed
    /// unsuitable upstream (see `DeviceProfile::is_device_suitable`).
    pub fn select(families: &Vec<QueueFamilyInfo>) -> (r: Result<QueueRoleIndices, VulkanError>)
        requires
            families@.len() <= u32::MAX,
            has_family_with(families@, Capability::Graphics),
        ensures
            match r {
                Result::Ok(idx) => {
                    &&& is_first_with(families@, Capability::Graphics, Some(idx.graphics))
                    &&& is_preferred_choice(
                        families@, Capability::Compute, Capability::Graphics, Some(idx.compute))
                    &&& is_preferred_choice(
                        families@, Capability::Transfer, Capability::Graphics, Some(idx.transfer))
                },
                Result::Err(e) => {
                    ||| (e == VulkanError::NoComputeQueue
                        && !has_family_with(families@, Capability::Compute))
                    ||| (e == VulkanError::NoTransferQueue
                        && has_family_with(families@, Capability::Compute)
                        && !has_family_with(families@, Capability::Transfer))
                },
            },
    {
        let compute = match find_compute_queue(families) {
            Ok(c) => c,
            Err(e) => {
                return Err(e);
            },
        };
        let transfer = match find_transfer_queue(families) {
            Ok(t) => t,
            Err(e) => {
                proof {
                    assert(spec_supports(families@[compute as int], Capability::Compute));
                    assert(has_family_with(families@, Capability::Compute));
                }
                return Err(e);
            },
        };
        match find_graphics_queue(families) {
            Some(g) => Ok(QueueRoleIndices { graphics: g, compute, transfer }),
            None => {
                // A graphics-capable family exists by precondition, so the
                // first-match search cannot come back empty.
                proof {
                    let w = choose|i: int| 0 <= i < families@.len()
                        && spec_supports(families@[i], Capability::Graphics);
                    assert(!spec_supports(families@[w], Capability::Graphics));
                }
                vstd::pervasive::unreached()
            },
        }
    }
}

/// The families for which a queue (and a record) must be created, graphics
/// first, then compute and transfer only where they differ: one entry per
/// distinct selected family.
pub open spec fn family_create_order(idx: QueueRoleIndices) -> Seq<u32> {
    let g = seq![idx.graphics];
    let gc = if idx.compute != idx.graphics {
        g.push(idx.compute)
    } else {
        g
    };
    if idx.transfer != idx.graphics && idx.transfer != idx.compute {
        gc.push(idx.transfer)
    } else {
        gc
    }
}

/// The queue-creation request list handed to the device service: one entry
/// per distinct selected family, graphics first.
pub fn queue_create_families(idx: &QueueRoleIndices) -> (r: Vec<u32>)
    ensures
        r@ == family_create_order(*idx),
{
    let mut r: Vec<u32> = Vec::new();
    r.push(idx.graphics);
    if idx.compute != idx.graphics {
        r.push(idx.compute);
    }
    if idx.transfer != idx.graphics && idx.transfer != idx.compute {
        r.push(idx.transfer);
    }
    proof {
        assert(r@ =~= family_create_order(*idx));
    }
    r
}

/// The create order has no duplicates, lists exactly the selected families,
/// and puts graphics first.
pub proof fn lemma_create_order_distinct(idx: QueueRoleIndices)
    ensures
        family_create_order(idx)[0] == idx.graphics,
        1 <= family_create_order(idx).len() <= 3,
        forall|i: int, j: int|
            0 <= i < j < family_create_order(idx).len()
                ==> family_create_order(idx)[i] != family_create_order(idx)[j],
        forall|x: u32| family_create_order(idx).contains(x)
            <==> (x == idx.graphics || x == idx.compute || x == idx.transfer),
{
    let o = family_create_order(idx);
    assert forall|x: u32|
        o.contains(x) <==> (x == idx.graphics || x == idx.compute || x == idx.transfer) by {
        if x == idx.graphics {
            assert(o[0] == x);
            assert(o.contains(x));
        }
        if x == idx.compute && idx.compute != idx.graphics {
            assert(o[1] == x);
            assert(o.contains(x));
        }
        if x == idx.transfer && idx.transfer != idx.graphics && idx.transfer != idx.compute {
            assert(o[o.len() - 1] == x);
            assert(o.contains(x));
        }
        if o.contains(x) {
            let k = choose|k: int| 0 <= k < o.len() && o[k] == x;
            assert(x == idx.graphics || x == idx.compute || x == idx.transfer);
        }
    }
}

/// Maps the three roles onto record slots, one slot per distinct family:
/// roles that alias the same family share the same record, and no duplicate
/// record is ever planned.
#[derive(Debug, PartialEq, Eq)]
pub struct QueueSetPlan {
    pub families: Vec<u32>,
    pub graphics_slot: usize,
    pub compute_slot: usize,
    pub transfer_slot: usize,
}

/// Well-formedness of a plan: every role's slot points at a planned family,
/// and the planned families are pairwise distinct.
pub open spec fn plan_wf(p: QueueSetPlan) -> bool {
    &&& p.graphics_slot < p.families@.len()
    &&& p.compute_slot < p.families@.len()
    &&& p.transfer_slot < p.families@.len()
    &&& forall|i: int, j: int|
        0 <= i < j < p.families@.len() ==> p.families@[i] != p.families@[j]
}

impl QueueSetPlan {
    /// Plans the queue/pool records for the selected indices: one record per
    /// distinct family, with aliasing roles mapped to the same record.
    pub fn plan(idx: &QueueRoleIndices) -> (r: QueueSetPlan)
        ensures
            plan_wf(r),
            r.families@ == family_create_order(*idx),
            r.graphics_slot == 0,
            r.families@[r.graphics_slot as int] == idx.graphics,
            r.families@[r.compute_slot as int] == idx.compute,
            r.families@[r.transfer_slot as int] == idx.transfer,
            (idx.compute == idx.graphics) <==> (r.compute_slot == r.graphics_slot),
            idx.transfer == idx.graphics ==> r.transfer_slot == r.graphics_slot,
            idx.transfer == idx.compute ==> r.transfer_slot == r.compute_slot,
    {
        proof {
            lemma_create_order_distinct(*idx);
        }
        let families = queue_create_families(idx);
        let graphics_slot: usize = 0;
        let compute_slot: usize = if idx.compute != idx.graphics {
            1
        } else {
            0
        };
        let transfer_slot: usize = if idx.transfer == idx.graphics {
            graphics_slot
        } else if idx.transfer == idx.compute {
            compute_slot
        } else {
            families.len() - 1
        };
        QueueSetPlan { families, graphics_slot, compute_slot, transfer_slot }
    }

    /// Number of planned records.
    pub fn record_count(&self) -> (r: usize)
        ensures
            r == self.families@.len(),
    {
        self.families.len()
    }
}

/// When the three roles alias one family, exactly one record is planned.
pub proof fn lemma_aliased_roles_share_one_record(idx: QueueRoleIndices)
    requires
        idx.compute == idx.graphics,
        idx.transfer == idx.graphics,
    ensures
        family_create_order(idx).len() == 1,
        family_create_order(idx) == seq![idx.graphics],
{
}

/// A capability list holding a single family that advertises graphics,
/// compute and transfer makes every role select that family.
pub proof fn lemma_single_family_serves_all_roles(
    s: Seq<QueueFamilyInfo>,
    rg: Option<u32>,
    rc: Option<u32>,
    rt: Option<u32>,
)
    requires
        s.len() == 1,
        s[0].graphics,
        s[0].compute,
        s[0].transfer,
        is_first_with(s, Capability::Graphics, rg),
        is_preferred_choice(s, Capability::Compute, Capability::Graphics, rc),
        is_preferred_choice(s, Capability::Transfer, Capability::Graphics, rt),
    ensures
        rg == Some(0u32),
        rc == Some(0u32),
        rt == Some(0u32),
{
    assert(spec_supports(s[0], Capability::Graphics));
    assert(spec_supports(s[0], Capability::Compute));
    assert(spec_supports(s[0], Capability::Transfer));
}

/// A dedicated family (advertising `to_find` but not `to_avoid`) is always
/// preferred over a family that also advertises `to_avoid`.
pub proof fn lemma_dedicated_family_preferred(
    s: Seq<QueueFamilyInfo>,
    to_find: Capability,
    to_avoid: Capability,
    r: Option<u32>,
)
    requires
        is_preferred_choice(s, to_find, to_avoid, r),
        exists|i: int| 0 <= i < s.len() && is_dedicated(s[i], to_find, to_avoid),
    ensures
        r matches Some(c) && is_dedicated(s[c as int], to_find, to_avoid),
{
    let w = choose|i: int| 0 <= i < s.len() && is_dedicated(s[i], to_find, to_avoid);
    assert(spec_supports(s[w], to_find));
}

/// The selection rule is deterministic: the characterization admits at most
/// one answer for a given capability list.
pub proof fn lemma_selection_deterministic(
    s: Seq<QueueFamilyInfo>,
    to_find: Capability,
    to_avoid: Capability,
    r1: Option<u32>,
    r2: Option<u32>,
)
    requires
        is_preferred_choice(s, to_find, to_avoid, r1),
        is_preferred_choice(s, to_find, to_avoid, r2),
    ensures
        r1 == r2,
{
    match (r1, r2) {
        (Option::Some(a), Option::Some(b)) => {
            if a < b {
                assert(!spec_supports(s[a as int], to_find) || !is_dedicated(
                    s[a as int], to_find, to_avoid));
            } else if b < a {
                assert(!spec_supports(s[b as int], to_find) || !is_dedicated(
                    s[b as int], to_find, to_avoid));
            }
        },
        (Option::Some(a), Option::None) => {
            assert(!spec_supports(s[a as int], to_find));
        },
        (Option::None, Option::Some(b)) => {
            assert(!spec_supports(s[b as int], to_find));
        },
        (Option::None, Option::None) => {},
    }
}

/// With no compute-capable family, selection yields `NoComputeQueue`; no
/// record plan (and hence no queue set) can come out of it.
pub proof fn lemma_no_compute_no_selection(
    s: Seq<QueueFamilyInfo>,
    r: Result<QueueRoleIndices, VulkanError>,
)
    requires
        !has_family_with(s, Capability::Compute),
        match r {
            Result::Ok(idx) => is_preferred_choice(
                s, Capability::Compute, Capability::Graphics, Some(idx.compute)),
            Result::Err(e) => {
                ||| (e == VulkanError::NoComputeQueue && !has_family_with(s, Capability::Compute))
                ||| (e == VulkanError::NoTransferQueue
                    && has_family_with(s, Capability::Compute)
                    && !has_family_with(s, Capability::Transfer))
            },
        },
    ensures
        r == Result::<QueueRoleIndices, VulkanError>::Err(VulkanError::NoComputeQueue),
{
    match r {
        Result::Ok(idx) => {
            assert(spec_supports(s[idx.compute as int], Capability::Compute));
            assert(has_family_with(s, Capability::Compute));
        },
        Result::Err(_) => {},
    }
}

} // verus!
