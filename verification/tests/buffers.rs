use vulkan_tasks::errors::VulkanError;
use vulkan_tasks::mem::{AllocatorService, BufferUsage, plan_map_access};
use vulkan_tasks::mem::buffer::{CpuBuffer, new_cpu_buffer};

fn plain_usage() -> BufferUsage {
    BufferUsage { transfer_src: false, transfer_dst: false, other_bits: 0 }
}

#[test]
fn fresh_cpu_buffer_is_zeroed() {
    let mut alloc = AllocatorService::new();
    let b = CpuBuffer::new(&mut alloc, 4, plain_usage(), false);
    assert_eq!(b.capacity(), 4);
    let mut out = vec![7u8; 4];
    b.read(&mut out, 0).unwrap();
    assert_eq!(out, vec![0, 0, 0, 0]);
}

#[test]
fn write_then_read_round_trips() {
    // Sequences from empty up to the full capacity round-trip at offset 0.
    let mut alloc = AllocatorService::new();
    let mut b = CpuBuffer::new(&mut alloc, 8, plain_usage(), true);
    for len in 0..9usize {
        let data: Vec<u8> = (0..len as u8).map(|x| x + 10).collect();
        b.write_to(&data).unwrap();
        let mut out = vec![0u8; len];
        b.read(&mut out, 0).unwrap();
        assert_eq!(out, data);
    }
}

#[test]
fn short_write_keeps_tail_bytes() {
    let mut alloc = AllocatorService::new();
    let mut b = CpuBuffer::new(&mut alloc, 4, plain_usage(), false);
    b.write_to(&vec![1, 2, 3, 4]).unwrap();
    b.write_to(&vec![9, 8]).unwrap();
    let mut out = vec![0u8; 4];
    b.read(&mut out, 0).unwrap();
    assert_eq!(out, vec![9, 8, 3, 4]);
}

#[test]
fn read_at_offset() {
    let mut alloc = AllocatorService::new();
    let mut b = CpuBuffer::new(&mut alloc, 5, plain_usage(), false);
    b.write_to(&vec![10, 11, 12, 13, 14]).unwrap();
    let mut out = vec![0u8; 2];
    b.read(&mut out, 3).unwrap();
    assert_eq!(out, vec![13, 14]);
}

#[test]
fn oversized_write_is_rejected() {
    // Boundary: a write beyond capacity is rejected and copies nothing.
    let mut alloc = AllocatorService::new();
    let mut b = CpuBuffer::new(&mut alloc, 2, plain_usage(), false);
    b.write_to(&vec![1, 2]).unwrap();
    assert_eq!(b.write_to(&vec![5, 6, 7]), Err(VulkanError::OutOfBounds));
    let mut out = vec![0u8; 2];
    b.read(&mut out, 0).unwrap();
    assert_eq!(out, vec![1, 2]);
}

#[test]
fn out_of_range_read_is_rejected() {
    // Boundary: offset + len past the capacity is rejected and the output
    // buffer is untouched.
    let mut alloc = AllocatorService::new();
    let mut b = CpuBuffer::new(&mut alloc, 4, plain_usage(), false);
    b.write_to(&vec![1, 2, 3, 4]).unwrap();
    let mut out = vec![42u8; 3];
    assert_eq!(b.read(&mut out, 2), Err(VulkanError::OutOfBounds));
    assert_eq!(out, vec![42, 42, 42]);
    let mut out2 = vec![42u8; 1];
    assert_eq!(b.read(&mut out2, 5), Err(VulkanError::OutOfBounds));
    assert_eq!(out2, vec![42]);
}

#[test]
fn new_cpu_buffer_holds_the_data() {
    let mut alloc = AllocatorService::new();
    let data = vec![3, 1, 4, 1, 5];
    let b = new_cpu_buffer(&mut alloc, &data, plain_usage(), false);
    assert_eq!(b.capacity(), 5);
    let mut out = vec![0u8; 5];
    b.read(&mut out, 0).unwrap();
    assert_eq!(out, data);
}

#[test]
fn buffers_get_fresh_identities_and_destroy_releases() {
    let mut alloc = AllocatorService::new();
    let a = CpuBuffer::new(&mut alloc, 1, plain_usage(), false);
    let b = CpuBuffer::new(&mut alloc, 1, plain_usage(), false);
    assert_ne!(a.id(), b.id());
    a.destroy(&mut alloc);
    b.destroy(&mut alloc);
    let c = CpuBuffer::new(&mut alloc, 1, plain_usage(), false);
    assert_ne!(c.id(), 0);
}

#[test]
fn map_plan_follows_persistent_mapping() {
    // A persistent host pointer is reused; otherwise the operation maps and
    // unmaps itself.
    let transient = plan_map_access(false);
    assert!(transient.needs_map);
    assert!(transient.needs_unmap);
    let persistent = plan_map_access(true);
    assert!(!persistent.needs_map);
    assert!(!persistent.needs_unmap);
}
