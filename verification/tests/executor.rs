use vulkan_tasks::errors::VulkanError;
use vulkan_tasks::setup::queues::{QueueFamilyInfo, QueueRoleIndices, QueueSetPlan};
use vulkan_tasks::tasks::commands::{QueueRole, QueueSet, RecordEvent, RecordPhase};

fn set_for(indices: QueueRoleIndices) -> QueueSet {
    QueueSet::new(&QueueSetPlan::plan(&indices))
}

fn begin(caller: u64) -> RecordEvent {
    RecordEvent { caller, phase: RecordPhase::Begin }
}

fn end(caller: u64) -> RecordEvent {
    RecordEvent { caller, phase: RecordPhase::End }
}

#[test]
fn same_role_submissions_never_interleave_recording() {
    // Two executions on the same role by two submitters: the recording-order
    // log shows two whole sections, no overlap.
    let mut set = set_for(QueueRoleIndices { graphics: 0, compute: 0, transfer: 0 });
    let f1 = set.execute(QueueRole::Transfer, 1, Ok(100), Ok(()), Ok(500)).unwrap();
    let f2 = set.execute(QueueRole::Transfer, 2, Ok(101), Ok(()), Ok(501)).unwrap();
    assert_eq!(
        set.records[0].log,
        vec![begin(1), end(1), begin(2), end(2)]
    );
    assert_eq!(f1.fence(), 500);
    assert_eq!(f2.fence(), 501);
    assert!(!f1.is_resolved());
    assert!(!f2.is_resolved());
}

#[test]
fn aliasing_roles_share_one_record() {
    // One family serving all roles: one record, shared log.
    let mut set = set_for(QueueRoleIndices { graphics: 4, compute: 4, transfer: 4 });
    assert_eq!(set.record_count(), 1);
    set.execute(QueueRole::Graphics, 1, Ok(1), Ok(()), Ok(2)).unwrap();
    set.execute(QueueRole::Transfer, 2, Ok(3), Ok(()), Ok(4)).unwrap();
    assert_eq!(
        set.records[0].log,
        vec![begin(1), end(1), begin(2), end(2)]
    );
}

#[test]
fn distinct_roles_log_to_their_own_records() {
    let mut set = set_for(QueueRoleIndices { graphics: 0, compute: 1, transfer: 2 });
    assert_eq!(set.record_count(), 3);
    set.execute(QueueRole::Compute, 7, Ok(1), Ok(()), Ok(2)).unwrap();
    assert_eq!(set.graphics().log, Vec::<RecordEvent>::new());
    assert_eq!(set.compute().log, vec![begin(7), end(7)]);
    assert_eq!(set.transfer().log, Vec::<RecordEvent>::new());
    assert_eq!(set.graphics().family, 0);
    assert_eq!(set.compute().family, 1);
    assert_eq!(set.transfer().family, 2);
}

#[test]
fn allocation_failure_aborts_before_recording() {
    let mut set = set_for(QueueRoleIndices { graphics: 0, compute: 0, transfer: 0 });
    let r = set.execute(QueueRole::Transfer, 1, Err(-3), Ok(()), Ok(9));
    assert_eq!(r.map(|_| ()), Err(VulkanError::Native(-3)));
    // No recording section was entered.
    assert_eq!(set.records[0].log, Vec::<RecordEvent>::new());
}

#[test]
fn recording_failure_abandons_the_buffer() {
    let mut set = set_for(QueueRoleIndices { graphics: 0, compute: 0, transfer: 0 });
    let r = set.execute(QueueRole::Graphics, 5, Ok(1), Err(-8), Ok(9));
    assert_eq!(r.map(|_| ()), Err(VulkanError::Native(-8)));
    // The section was entered and left: the lock was released on the
    // failure path, and the half-built buffer is never reused.
    assert_eq!(set.records[0].log, vec![begin(5), end(5)]);
    // The record stays usable for the next submission.
    set.execute(QueueRole::Graphics, 6, Ok(2), Ok(()), Ok(10)).unwrap();
    assert_eq!(
        set.records[0].log,
        vec![begin(5), end(5), begin(6), end(6)]
    );
}

#[test]
fn submission_failure_propagates_native_code() {
    let mut set = set_for(QueueRoleIndices { graphics: 0, compute: 0, transfer: 0 });
    let r = set.execute(QueueRole::Compute, 1, Ok(1), Ok(()), Err(-11));
    assert_eq!(r.map(|_| ()), Err(VulkanError::Native(-11)));
}

#[test]
fn successful_execution_returns_pending_future() {
    let mut set = set_for(QueueRoleIndices { graphics: 0, compute: 1, transfer: 0 });
    let f = set.execute(QueueRole::Compute, 1, Ok(42), Ok(()), Ok(314)).unwrap();
    assert_eq!(f.fence(), 314);
    assert!(!f.is_resolved());
    assert!(!f.signal_released);
}
