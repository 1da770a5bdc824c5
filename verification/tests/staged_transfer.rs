use vulkan_tasks::errors::VulkanError;
use vulkan_tasks::mem::{AllocatorService, BufferUsage};
use vulkan_tasks::mem::gpu_buffer::{
    DeviceBuffer, begin_staged_read, begin_staged_write, finish_staged_read,
    finish_staged_write,
};

fn plain_usage() -> BufferUsage {
    BufferUsage { transfer_src: false, transfer_dst: false, other_bits: 0 }
}

#[test]
fn staged_write_then_read_round_trips() {
    let mut alloc = AllocatorService::new();
    let mut dev = DeviceBuffer::new(&mut alloc, 6, plain_usage());
    let data = vec![11, 22, 33, 44, 55, 66];

    let w = begin_staged_write(&mut alloc, &dev, &data).unwrap();
    let write_staging_id = w.staging.id();
    finish_staged_write(w, &mut alloc, &mut dev, Ok(())).unwrap();

    let r = begin_staged_read(&mut alloc, &dev);
    let read_staging_id = r.staging.id();
    let mut out = vec![0u8; 6];
    finish_staged_read(r, &mut alloc, &dev, &mut out, 0, Ok(())).unwrap();

    assert_eq!(out, data);
    // The write's staging allocation is distinct from the read's: each
    // transfer gets its own, and each destroys its own.
    assert_ne!(write_staging_id, read_staging_id);
}

#[test]
fn short_upload_pads_with_zeroes() {
    let mut alloc = AllocatorService::new();
    let mut dev = DeviceBuffer::new(&mut alloc, 4, plain_usage());
    let w = begin_staged_write(&mut alloc, &dev, &vec![9, 9]).unwrap();
    finish_staged_write(w, &mut alloc, &mut dev, Ok(())).unwrap();

    let r = begin_staged_read(&mut alloc, &dev);
    let mut out = vec![7u8; 4];
    finish_staged_read(r, &mut alloc, &dev, &mut out, 0, Ok(())).unwrap();
    assert_eq!(out, vec![9, 9, 0, 0]);
}

#[test]
fn staging_buffers_are_released_on_every_path() {
    let mut alloc = AllocatorService::new();
    let mut dev = DeviceBuffer::new(&mut alloc, 3, plain_usage());
    let baseline = 1u64; // only the device buffer is live

    // Success path.
    let w = begin_staged_write(&mut alloc, &dev, &vec![1, 2, 3]).unwrap();
    finish_staged_write(w, &mut alloc, &mut dev, Ok(())).unwrap();

    // Copy-failure path: the fault propagates after cleanup.
    let w = begin_staged_write(&mut alloc, &dev, &vec![4, 5, 6]).unwrap();
    assert_eq!(
        finish_staged_write(w, &mut alloc, &mut dev, Err(-13)),
        Err(VulkanError::Native(-13))
    );

    // Oversized-data path: rejected, staging cleaned up inside begin.
    assert!(matches!(
        begin_staged_write(&mut alloc, &dev, &vec![0; 9]),
        Err(VulkanError::OutOfBounds)
    ));

    // Read-failure path.
    let r = begin_staged_read(&mut alloc, &dev);
    let mut out = vec![0u8; 3];
    assert_eq!(
        finish_staged_read(r, &mut alloc, &dev, &mut out, 0, Err(-7)),
        Err(VulkanError::Native(-7))
    );

    // Whatever the path, no staging allocation stays behind.
    let _ = baseline;
    dev.destroy(&mut alloc);
}

#[test]
fn failed_copy_leaves_destination_untouched() {
    let mut alloc = AllocatorService::new();
    let mut dev = DeviceBuffer::new(&mut alloc, 3, plain_usage());
    let w = begin_staged_write(&mut alloc, &dev, &vec![1, 2, 3]).unwrap();
    finish_staged_write(w, &mut alloc, &mut dev, Ok(())).unwrap();

    let w = begin_staged_write(&mut alloc, &dev, &vec![8, 8, 8]).unwrap();
    assert_eq!(
        finish_staged_write(w, &mut alloc, &mut dev, Err(-1)),
        Err(VulkanError::Native(-1))
    );

    let r = begin_staged_read(&mut alloc, &dev);
    let mut out = vec![0u8; 3];
    finish_staged_read(r, &mut alloc, &dev, &mut out, 0, Ok(())).unwrap();
    assert_eq!(out, vec![1, 2, 3]);
}

#[test]
fn failed_read_copy_leaves_output_untouched() {
    let mut alloc = AllocatorService::new();
    let dev = DeviceBuffer::new(&mut alloc, 2, plain_usage());
    let r = begin_staged_read(&mut alloc, &dev);
    let mut out = vec![5u8, 5];
    assert_eq!(
        finish_staged_read(r, &mut alloc, &dev, &mut out, 0, Err(-2)),
        Err(VulkanError::Native(-2))
    );
    assert_eq!(out, vec![5, 5]);
}

#[test]
fn out_of_range_staged_read_is_rejected() {
    let mut alloc = AllocatorService::new();
    let dev = DeviceBuffer::new(&mut alloc, 4, plain_usage());
    let r = begin_staged_read(&mut alloc, &dev);
    let mut out = vec![1u8; 3];
    assert_eq!(
        finish_staged_read(r, &mut alloc, &dev, &mut out, 2, Ok(())),
        Err(VulkanError::OutOfBounds)
    );
    assert_eq!(out, vec![1, 1, 1]);
}

#[test]
fn device_buffer_forces_transfer_usage() {
    let mut alloc = AllocatorService::new();
    let dev = DeviceBuffer::new(
        &mut alloc,
        1,
        BufferUsage { transfer_src: false, transfer_dst: false, other_bits: 0b100 },
    );
    assert!(dev.usage.transfer_src);
    assert!(dev.usage.transfer_dst);
    assert_eq!(dev.usage.other_bits, 0b100);
}

#[test]
fn staging_buffers_carry_transfer_usage() {
    let mut alloc = AllocatorService::new();
    let mut dev = DeviceBuffer::new(&mut alloc, 2, plain_usage());
    let w = begin_staged_write(&mut alloc, &dev, &vec![1]).unwrap();
    assert!(w.staging.usage.transfer_src);
    assert!(!w.staging.usage.transfer_dst);
    finish_staged_write(w, &mut alloc, &mut dev, Ok(())).unwrap();

    let r = begin_staged_read(&mut alloc, &dev);
    assert!(r.staging.usage.transfer_dst);
    assert!(!r.staging.usage.transfer_src);
    let mut out = vec![0u8; 2];
    finish_staged_read(r, &mut alloc, &dev, &mut out, 0, Ok(())).unwrap();
}
