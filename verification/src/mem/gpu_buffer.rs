//! Device-local buffers (`DeviceBuffer`) and the staged-transfer protocol.
//!
//! A device-local buffer has no host pointer: all host-facing I/O routes
//! through a disposable host-visible staging buffer plus a device-issued
//! whole-buffer copy. A transfer is split at its one suspension point: the
//! `begin_*` half prepares the staging buffer, the host then runs the copy
//! and awaits its completion, and the `finish_*` half consumes the resolved
//! outcome. The staging allocation is held inside the session value until
//! `finish_*` releases it, so it cannot be freed while the copy that touches
//! it is still pending, and it is released on the failure path too.

use vstd::prelude::*;
use crate::errors::VulkanError;
use crate::mem::{AllocatorService, BufferUsage};
use crate::mem::buffer::{CpuBuffer, zero_bytes, zeroed_bytes};

verus! {

/// A device-local buffer backed by one allocation of the external allocator
/// service. Its view is the byte contents the device holds.
pub struct DeviceBuffer {
    pub id: u64,
    pub usage: BufferUsage,
    pub bytes: Vec<u8>,
}

impl View for DeviceBuffer {
    type V = Seq<u8>;

    open spec fn view(&self) -> Seq<u8> {
        self.bytes@
    }
}

impl DeviceBuffer {
    /// Size of the buffer in bytes.
    pub open spec fn spec_capacity(&self) -> nat {
        self.bytes@.len()
    }

    /// Identity of the backing allocation.
    pub open spec fn spec_id(&self) -> u64 {
        self.id
    }

    /// The usage flags the buffer was created with.
    pub open spec fn spec_usage(&self) -> BufferUsage {
        self.usage
    }

    /// Size of the buffer in bytes.
    pub fn capacity(&self) -> (r: usize)
        ensures
            r == self.spec_capacity(),
    {
        self.bytes.len()
    }

    /// Identity of the backing allocation.
    pub fn id(&self) -> (r: u64)
        ensures
            r == self.spec_id(),
    {
        self.id
    }

    /// Allocates a device-local buffer of `size` zeroed bytes. Transfer
    /// source and destination usage are forced on, so staged reads and
    /// writes can always reach the buffer.
    pub fn new(alloc: &mut AllocatorService, size: usize, usage: BufferUsage) -> (r: DeviceBuffer)
        requires
            old(alloc).wf(),
            old(alloc).spec_next_id() < u64::MAX,
        ensures
            final(alloc).wf(),
            r.spec_id() == old(alloc).spec_next_id(),
            r.spec_capacity() == size,
            r@ == zero_bytes(size as nat),
            r.spec_usage() == (BufferUsage {
                transfer_src: true,
                transfer_dst: true,
                other_bits: usage.other_bits,
            }),
            final(alloc).spec_next_id() == old(alloc).spec_next_id() + 1,
            final(alloc).lives(r.spec_id()),
            !old(alloc).lives(r.spec_id()),
            forall|x: u64| x != r.spec_id() ==> (final(alloc).lives(x) <==> old(alloc).lives(x)),
            final(alloc).live_count() == old(alloc).live_count() + 1,
    {
        let id = alloc.allocate();
        let bytes = zeroed_bytes(size);
        DeviceBuffer {
            id,
            usage: BufferUsage {
                transfer_src: true,
                transfer_dst: true,
                other_bits: usage.other_bits,
            },
            bytes,
        }
    }

    /// Releases the backing allocation, consuming the buffer: a buffer is
    /// destroyed exactly once.
    pub fn destroy(self, alloc: &mut AllocatorService)
        requires
            old(alloc).wf(),
            old(alloc).lives(self.spec_id()),
        ensures
            final(alloc).wf(),
            !final(alloc).lives(self.spec_id()),
            forall|x: u64| x != self.spec_id() ==> (final(alloc).lives(x) <==> old(alloc).lives(
                x)),
            final(alloc).spec_next_id() == old(alloc).spec_next_id(),
            final(alloc).live_count() == old(alloc).live_count() - 1,
    {
        alloc.free(self.id);
    }
}

/// An in-flight staged upload: the staging buffer already holds the data,
/// and stays alive until the device copy (staging to destination) resolves
/// and `finish_staged_write` consumes this session.
pub struct StagedWrite {
    pub staging: CpuBuffer,
    pub dst_id: u64,
}

/// An in-flight staged download: the staging buffer awaits the device copy
/// (source to staging), and stays alive until `finish_staged_read` consumes
/// this session.
pub struct StagedRead {
    pub staging: CpuBuffer,
    pub src_id: u64,
}

/// Starts a staged write of `data` into `dst`: allocates a transfer-source,
/// host-visible staging buffer sized to `dst` and writes `data` into it
/// through the host-visible path. Data longer than the destination is
/// rejected with `OutOfBounds`, and the staging allocation is released
/// before the fault propagates.
pub fn begin_staged_write(
    alloc: &mut AllocatorService,
    dst: &DeviceBuffer,
    data: &Vec<u8>,
) -> (r: Result<StagedWrite, VulkanError>)
    requires
        old(alloc).wf(),
        old(alloc).spec_next_id() < u64::MAX,
    ensures
        final(alloc).wf(),
        final(alloc).spec_next_id() == old(alloc).spec_next_id() + 1,
        data@.len() <= dst.spec_capacity() ==> (r matches Ok(s)
            && s.staging.spec_id() == old(alloc).spec_next_id()
            && s.staging.spec_capacity() == dst.spec_capacity()
            && s.staging@ == data@ + zero_bytes((dst.spec_capacity() - data@.len()) as nat)
            && s.staging.spec_usage() == (BufferUsage {
                transfer_src: true,
                transfer_dst: false,
                other_bits: 0,
            })
            && s.dst_id == dst.spec_id()
            && final(alloc).lives(s.staging.spec_id())
            && !old(alloc).lives(s.staging.spec_id())
            && (forall|x: u64| x != s.staging.spec_id()
                ==> (final(alloc).lives(x) <==> old(alloc).lives(x)))
            && final(alloc).live_count() == old(alloc).live_count() + 1),
        data@.len() > dst.spec_capacity() ==> (r == Result::<StagedWrite, VulkanError>::Err(
            VulkanError::OutOfBounds)
            && (forall|x: u64| final(alloc).lives(x) <==> old(alloc).lives(x))
            && final(alloc).live_count() == old(alloc).live_count()),
{
    let mut staging = CpuBuffer::new(
        alloc,
        dst.capacity(),
        BufferUsage { transfer_src: true, transfer_dst: false, other_bits: 0 },
        false,
    );
    let res = staging.write_to(data);
    match res {
        Ok(()) => Ok(StagedWrite { staging, dst_id: dst.id() }),
        Err(e) => {
            staging.destroy(alloc);
            Err(e)
        },
    }
}

/// Completes a staged write with the resolved outcome of the device copy:
/// on success the destination holds the staging contents (the whole
/// allocation is copied); on failure the destination is untouched and the
/// fault propagates with its native code — after the staging allocation has
/// been released, on every path.
pub fn finish_staged_write(
    s: StagedWrite,
    alloc: &mut AllocatorService,
    dst: &mut DeviceBuffer,
    copy_outcome: Result<(), i32>,
) -> (r: Result<(), VulkanError>)
    requires
        old(alloc).wf(),
        old(alloc).lives(s.staging.spec_id()),
        s.dst_id == old(dst).spec_id(),
        s.staging.spec_capacity() == old(dst).spec_capacity(),
    ensures
        final(alloc).wf(),
        !final(alloc).lives(s.staging.spec_id()),
        forall|x: u64| x != s.staging.spec_id()
            ==> (final(alloc).lives(x) <==> old(alloc).lives(x)),
        final(alloc).spec_next_id() == old(alloc).spec_next_id(),
        final(alloc).live_count() == old(alloc).live_count() - 1,
        final(dst).spec_id() == old(dst).spec_id(),
        final(dst).spec_usage() == old(dst).spec_usage(),
        final(dst).spec_capacity() == old(dst).spec_capacity(),
        match copy_outcome {
            Result::Ok(()) => r == Result::<(), VulkanError>::Ok(()) && final(dst)@ == s.staging@,
            Result::Err(e) => r == Result::<(), VulkanError>::Err(VulkanError::Native(e))
                && final(dst)@ == old(dst)@,
        },
{
    let StagedWrite { staging, dst_id: _ } = s;
    match copy_outcome {
        Ok(()) => {
            let CpuBuffer { id, usage: _, persistently_mapped: _, bytes } = staging;
            dst.bytes = bytes;
            alloc.free(id);
            Ok(())
        },
        Err(e) => {
            staging.destroy(alloc);
            Err(VulkanError::Native(e))
        },
    }
}

/// Starts a staged read from `src`: allocates a transfer-destination,
/// host-visible staging buffer sized to `src`, for the device copy to fill.
pub fn begin_staged_read(alloc: &mut AllocatorService, src: &DeviceBuffer) -> (r: StagedRead)
    requires
        old(alloc).wf(),
        old(alloc).spec_next_id() < u64::MAX,
    ensures
        final(alloc).wf(),
        final(alloc).spec_next_id() == old(alloc).spec_next_id() + 1,
        r.staging.spec_id() == old(alloc).spec_next_id(),
        r.staging.spec_capacity() == src.spec_capacity(),
        r.staging.spec_usage() == (BufferUsage {
            transfer_src: false,
            transfer_dst: true,
            other_bits: 0,
        }),
        r.src_id == src.spec_id(),
        final(alloc).lives(r.staging.spec_id()),
        !old(alloc).lives(r.staging.spec_id()),
        forall|x: u64| x != r.staging.spec_id()
            ==> (final(alloc).lives(x) <==> old(alloc).lives(x)),
        final(alloc).live_count() == old(alloc).live_count() + 1,
{
    let staging = CpuBuffer::new(
        alloc,
        src.capacity(),
        BufferUsage { transfer_src: false, transfer_dst: true, other_bits: 0 },
        false,
    );
    StagedRead { staging, src_id: src.id() }
}

/// Completes a staged read with the resolved outcome of the device copy: on
/// success the staging buffer holds the source contents and `out` is filled
/// from it at byte `offset`, bounds-checked; on a copy fault `out` is
/// untouched and the fault propagates with its native code. The staging
/// allocation is released on every path.
pub fn finish_staged_read(
    s: StagedRead,
    alloc: &mut AllocatorService,
    src: &DeviceBuffer,
    out: &mut Vec<u8>,
    offset: usize,
    copy_outcome: Result<(), i32>,
) -> (r: Result<(), VulkanError>)
    requires
        old(alloc).wf(),
        old(alloc).lives(s.staging.spec_id()),
        s.src_id == src.spec_id(),
        s.staging.spec_capacity() == src.spec_capacity(),
    ensures
        final(alloc).wf(),
        !final(alloc).lives(s.staging.spec_id()),
        forall|x: u64| x != s.staging.spec_id()
            ==> (final(alloc).lives(x) <==> old(alloc).lives(x)),
        final(alloc).spec_next_id() == old(alloc).spec_next_id(),
        final(alloc).live_count() == old(alloc).live_count() - 1,
        final(out)@.len() == old(out)@.len(),
        match copy_outcome {
            Result::Ok(()) => {
                &&& offset + old(out)@.len() <= src.spec_capacity() ==> r == Result::<(),
                    VulkanError>::Ok(()) && final(out)@ == src@.subrange(
                    offset as int,
                    offset + old(out)@.len(),
                )
                &&& offset + old(out)@.len() > src.spec_capacity() ==> r == Result::<(),
                    VulkanError>::Err(VulkanError::OutOfBounds) && final(out)@ == old(out)@
            },
            Result::Err(e) => r == Result::<(), VulkanError>::Err(VulkanError::Native(e))
                && final(out)@ == old(out)@,
        },
{
    let StagedRead { staging, src_id: _ } = s;
    match copy_outcome {
        Ok(()) => {
            let mut staging = staging;
            // The resolved copy filled the staging buffer with the whole
            // source contents.
            let fill_res = staging.write_to(&src.bytes);
            proof {
                assert(fill_res is Ok);
                assert(staging@ =~= src@);
            }
            let res = staging.read(out, offset);
            staging.destroy(alloc);
            res
        },
        Err(e) => {
            staging.destroy(alloc);
            Err(VulkanError::Native(e))
        },
    }
}

/// Uploading `data` through a staged write and downloading the same number
/// of bytes back from offset 0 reproduces `data` exactly, whatever the
/// zero padding behind it holds.
pub proof fn lemma_staged_round_trip(data: Seq<u8>, cap: nat)
    requires
        data.len() <= cap,
    ensures
        (data + zero_bytes((cap - data.len()) as nat)).subrange(0, data.len() as int) == data,
{
    assert((data + zero_bytes((cap - data.len()) as nat)).subrange(0, data.len() as int)
        =~= data);
}

/// The staging allocation of a staged write is distinct from the staging
/// allocation of any transfer begun after it: identities are handed out
/// monotonically, and each session frees exactly its own staging buffer.
pub proof fn lemma_staging_ids_distinct(write_id: u64, later_next_id: u64, read_id: u64)
    requires
        write_id < later_next_id,
        later_next_id <= read_id,
    ensures
        write_id != read_id,
{
}

} // verus!
