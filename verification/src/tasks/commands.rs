//! The queue set and the command executor.
//!
//! A `QueueSet` owns one record per distinct selected family (a queue handle
//! and a transient command pool); roles that alias a family share the record.
//! `execute` models one record-and-submit sequence: the record's lock is held
//! for the whole of it — here the exclusive borrow of the record stands for
//! the lock a host binding wraps around it — and every recording section is
//! logged, so mutual exclusion is visible as a properly bracketed
//! recording-order log: sections of different submitters never interleave.

use vstd::prelude::*;
use crate::errors::VulkanError;
use crate::setup::queues::{QueueSetPlan, plan_wf};
use crate::tasks::CompletionFuture;

verus! {

/// The role a submission targets.
#[derive(Debug, Clone, Copy, PartialEq, Eq, Structural)]
pub enum QueueRole {
    Graphics,
    Compute,
    Transfer,
}

/// Entering or leaving the recording critical section.
#[derive(Debug, Clone, Copy, PartialEq, Eq, Structural)]
pub enum RecordPhase {
    Begin,
    End,
}

/// One entry of a record's recording-order log: which submitter moved
/// through which side of its recording section.
#[derive(Debug, Clone, Copy, PartialEq, Eq, Structural)]
pub struct RecordEvent {
    pub caller: u64,
    pub phase: RecordPhase,
}

/// A properly bracketed log: a sequence of Begin/End pairs, each pair made
/// by one submitter. This is what the per-record lock guarantees: a
/// recording section is entered and left before the next one starts.
pub open spec fn paired(log: Seq<RecordEvent>) -> bool
    decreases log.len(),
{
    if log.len() == 0 {
        true
    } else if log.len() == 1 {
        false
    } else {
        &&& log[log.len() - 2].phase is Begin
        &&& log[log.len() - 1].phase is End
        &&& log[log.len() - 2].caller == log[log.len() - 1].caller
        &&& paired(log.take(log.len() - 2))
    }
}

/// Appending one full Begin/End pair keeps a log properly bracketed.
pub proof fn lemma_paired_push_pair(log: Seq<RecordEvent>, caller: u64)
    requires
        paired(log),
    ensures
        paired(
            log.push((RecordEvent { caller, phase: RecordPhase::Begin })).push(
                (RecordEvent { caller, phase: RecordPhase::End })),
        ),
{
    let l2 = log.push((RecordEvent { caller, phase: RecordPhase::Begin })).push(
        (RecordEvent { caller, phase: RecordPhase::End }));
    assert(l2.take(l2.len() - 2) =~= log);
}

/// In a properly bracketed log every recording section is contiguous: a
/// `Begin` is immediately followed by its own submitter's `End`. Two
/// submissions on the same record therefore never interleave their
/// recording phases.
pub proof fn lemma_paired_no_overlap(log: Seq<RecordEvent>)
    requires
        paired(log),
    ensures
        forall|i: int| 0 <= i < log.len() && (#[trigger] log[i]).phase is Begin
            ==> i + 1 < log.len() && log[i + 1].phase is End
                && log[i + 1].caller == log[i].caller,
    decreases log.len(),
{
    if log.len() >= 2 {
        let p = log.take(log.len() - 2);
        lemma_paired_no_overlap(p);
        assert forall|i: int| 0 <= i < log.len() && (#[trigger] log[i]).phase is Begin
            implies i + 1 < log.len() && log[i + 1].phase is End
                && log[i + 1].caller == log[i].caller by {
            if i < log.len() - 2 {
                assert(p[i] == log[i]);
                assert(p[i + 1] == log[i + 1]);
            }
        }
    }
}

/// One queue/pool record: the queue handle and the transient command pool of
/// one family, together with its recording-order log.
pub struct RoleRecord {
    pub family: u32,
    pub log: Vec<RecordEvent>,
}

/// The per-role queue/pool records, one per distinct selected family, and
/// which record serves each role.
pub struct QueueSet {
    pub records: Vec<RoleRecord>,
    pub graphics_slot: usize,
    pub compute_slot: usize,
    pub transfer_slot: usize,
}

impl QueueSet {
    /// The record slot serving `role`.
    pub open spec fn slot_of(&self, role: QueueRole) -> int {
        match role {
            QueueRole::Graphics => self.graphics_slot as int,
            QueueRole::Compute => self.compute_slot as int,
            QueueRole::Transfer => self.transfer_slot as int,
        }
    }

    /// Every role's slot points at a record, and every record's log is
    /// properly bracketed.
    pub open spec fn wf(&self) -> bool {
        &&& self.graphics_slot < self.records@.len()
        &&& self.compute_slot < self.records@.len()
        &&& self.transfer_slot < self.records@.len()
        &&& forall|k: int| 0 <= k < self.records@.len()
            ==> paired(#[trigger] self.records@[k].log@)
    }

    /// Creates the records of a plan: one fresh record (queue of sub-index
    /// 0 plus transient pool, created by the host binding) per planned
    /// family, with an empty log; aliasing roles share the slot the plan
    /// gave them.
    pub fn new(plan: &QueueSetPlan) -> (r: QueueSet)
        requires
            plan_wf(*plan),
        ensures
            r.wf(),
            r.records@.len() == plan.families@.len(),
            forall|k: int| 0 <= k < r.records@.len()
                ==> (#[trigger] r.records@[k]).family == plan.families@[k]
                    && r.records@[k].log@ =~= Seq::<RecordEvent>::empty(),
            r.graphics_slot == plan.graphics_slot,
            r.compute_slot == plan.compute_slot,
            r.transfer_slot == plan.transfer_slot,
    {
        let n = plan.families.len();
        let mut records: Vec<RoleRecord> = Vec::new();
        let mut i: usize = 0;
        while i < n
            invariant
                i <= n,
                n == plan.families@.len(),
                records@.len() == i,
                forall|k: int| 0 <= k < i
                    ==> (#[trigger] records@[k]).family == plan.families@[k]
                        && records@[k].log@ =~= Seq::<RecordEvent>::empty(),
            decreases n - i,
        {
            let family = plan.families[i];
            records.push(RoleRecord { family, log: Vec::new() });
            i = i + 1;
        }
        let r = QueueSet {
            records,
            graphics_slot: plan.graphics_slot,
            compute_slot: plan.compute_slot,
            transfer_slot: plan.transfer_slot,
        };
        proof {
            assert forall|k: int| 0 <= k < r.records@.len()
                implies paired(#[trigger] r.records@[k].log@) by {
                assert(r.records@[k].log@ =~= Seq::<RecordEvent>::empty());
            }
        }
        r
    }

    /// Number of records (one per distinct family).
    pub fn record_count(&self) -> (r: usize)
        ensures
            r == self.records@.len(),
    {
        self.records.len()
    }

    /// The record slot serving `role`.
    pub fn role_slot(&self, role: QueueRole) -> (r: usize)
        ensures
            r == self.slot_of(role),
    {
        match role {
            QueueRole::Graphics => self.graphics_slot,
            QueueRole::Compute => self.compute_slot,
            QueueRole::Transfer => self.transfer_slot,
        }
    }

    /// The record serving the graphics role.
    pub fn graphics(&self) -> (r: &RoleRecord)
        requires
            self.wf(),
        ensures
            *r == self.records@[self.slot_of(QueueRole::Graphics)],
    {
        &self.records[self.graphics_slot]
    }

    /// The record serving the compute role.
    pub fn compute(&self) -> (r: &RoleRecord)
        requires
            self.wf(),
        ensures
            *r == self.records@[self.slot_of(QueueRole::Compute)],
    {
        &self.records[self.compute_slot]
    }

    /// The record serving the transfer role.
    pub fn transfer(&self) -> (r: &RoleRecord)
        requires
            self.wf(),
        ensures
            *r == self.records@[self.slot_of(QueueRole::Transfer)],
    {
        &self.records[self.transfer_slot]
    }

    /// The command executor: one record-and-submit sequence on `role` by the
    /// submitter `caller`. The role's record is held exclusively for the
    /// whole sequence (the host binding holds the record's lock for exactly
    /// this extent), so the recording section lands in the log as one
    /// contiguous Begin/End pair.
    ///
    /// `alloc_outcome`, `record_outcome` and `submit_outcome` are what the
    /// device service returned for the command-buffer allocation, the
    /// recording of the caller-supplied commands (begin, record, end), and
    /// the submission with a freshly created completion signal. A fault at
    /// any stage propagates with its native code; a half-built command
    /// buffer is abandoned, never reused; the lock is released on every
    /// path. On success the returned future is pending, bound to the
    /// submission's signal.
    pub fn execute(
        &mut self,
        role: QueueRole,
        caller: u64,
        alloc_outcome: Result<u64, i32>,
        record_outcome: Result<(), i32>,
        submit_outcome: Result<u64, i32>,
    ) -> (r: Result<CompletionFuture, VulkanError>)
        requires
            old(self).wf(),
        ensures
            final(self).wf(),
            final(self).records@.len() == old(self).records@.len(),
            final(self).graphics_slot == old(self).graphics_slot,
            final(self).compute_slot == old(self).compute_slot,
            final(self).transfer_slot == old(self).transfer_slot,
            forall|k: int| 0 <= k < old(self).records@.len() && k != old(self).slot_of(role)
                ==> final(self).records@[k] == old(self).records@[k],
            final(self).records@[old(self).slot_of(role)].family
                == old(self).records@[old(self).slot_of(role)].family,
            match alloc_outcome {
                Result::Err(e) => r == Result::<CompletionFuture, VulkanError>::Err(
                    VulkanError::Native(e))
                    && final(self).records@[old(self).slot_of(role)].log@
                        == old(self).records@[old(self).slot_of(role)].log@,
                Result::Ok(_) => final(self).records@[old(self).slot_of(role)].log@
                    == old(self).records@[old(self).slot_of(role)].log@.push(
                        (RecordEvent { caller, phase: RecordPhase::Begin })).push(
                        (RecordEvent { caller, phase: RecordPhase::End }))
                    && match record_outcome {
                        Result::Err(e) => r == Result::<CompletionFuture, VulkanError>::Err(
                            VulkanError::Native(e)),
                        Result::Ok(_) => match submit_outcome {
                            Result::Err(e) => r == Result::<CompletionFuture, VulkanError>::Err(
                                VulkanError::Native(e)),
                            Result::Ok(fence) => r matches Ok(f) && f.spec_fence() == fence
                                && f.spec_state() is Pending && !f.spec_signal_released(),
                        },
                    },
            },
    {
        let slot = self.role_slot(role);
        match alloc_outcome {
            Err(e) => {
                return Err(VulkanError::Native(e));
            },
            Ok(_) => {},
        }
        // Recording critical section: exclusive access to the record for
        // the rest of the sequence.
        let ghost records0 = self.records@;
        let mut rec = self.records.remove(slot);
        let ghost log0 = rec.log@;
        rec.log.push(RecordEvent { caller, phase: RecordPhase::Begin });
        rec.log.push(RecordEvent { caller, phase: RecordPhase::End });
        proof {
            lemma_paired_push_pair(log0, caller);
        }
        self.records.insert(slot, rec);
        proof {
            assert(self.records@ =~= records0.update(
                slot as int,
                self.records@[slot as int],
            ));
        }
        match record_outcome {
            Err(e) => {
                return Err(VulkanError::Native(e));
            },
            Ok(_) => {},
        }
        match submit_outcome {
            Err(e) => Err(VulkanError::Native(e)),
            Ok(fence) => Ok(CompletionFuture::new(fence)),
        }
    }
}

} // verus!
