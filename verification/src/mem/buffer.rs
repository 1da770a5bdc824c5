//! Host-visible buffers (`CpuBuffer`): a byte-level model of the mapped
//! memory range, with a fixed capacity, the backing allocation's identity,
//! and the mapping mode. Writes and reads are bounds-checked: a request
//! whose range exceeds the capacity is rejected and copies nothing.

use vstd::prelude::*;
use crate::errors::VulkanError;
use crate::mem::{AllocatorService, BufferUsage};

verus! {

/// A sequence of `n` zero bytes: the model contents of a fresh allocation.
pub open spec fn zero_bytes(n: nat) -> Seq<u8> {
    Seq::new(n, |i: int| 0u8)
}

/// A vector of `n` zero bytes, the initial contents of a fresh buffer.
pub(crate) fn zeroed_bytes(n: usize) -> (r: Vec<u8>)
    ensures
        r@ == zero_bytes(n as nat),
{
    let mut bytes: Vec<u8> = Vec::new();
    let mut i: usize = 0;
    while i < n
        invariant
            i <= n,
            bytes@ =~= zero_bytes(i as nat),
        decreases n - i,
    {
        bytes.push(0u8);
        i = i + 1;
    }
    proof {
        assert(bytes@ =~= zero_bytes(n as nat));
    }
    bytes
}

/// A host-visible buffer backed by one allocation of the external allocator
/// service. Its view is the byte contents of the mapped range; the capacity
/// is fixed at creation.
pub struct CpuBuffer {
    pub id: u64,
    pub usage: BufferUsage,
    pub persistently_mapped: bool,
    pub bytes: Vec<u8>,
}

impl View for CpuBuffer {
    type V = Seq<u8>;

    open spec fn view(&self) -> Seq<u8> {
        self.bytes@
    }
}

impl CpuBuffer {
    /// Size of the buffer in bytes.
    pub open spec fn spec_capacity(&self) -> nat {
        self.bytes@.len()
    }

    /// Identity of the backing allocation.
    pub open spec fn spec_id(&self) -> u64 {
        self.id
    }

    /// Whether the allocator exposes a persistent host pointer for this
    /// buffer (so operations on it never map or unmap).
    pub open spec fn spec_persistently_mapped(&self) -> bool {
        self.persistently_mapped
    }

    /// The usage flags the buffer was created with.
    pub open spec fn spec_usage(&self) -> BufferUsage {
        self.usage
    }

    /// Size of the buffer in bytes.
    pub fn capacity(&self) -> (r: usize)
        ensures
            r == self.spec_capacity(),
    {
        self.bytes.len()
    }

    /// Identity of the backing allocation.
    pub fn id(&self) -> (r: u64)
        ensures
            r == self.spec_id(),
    {
        self.id
    }

    /// Whether operations reuse a persistent host pointer.
    pub fn persistently_mapped(&self) -> (r: bool)
        ensures
            r == self.spec_persistently_mapped(),
    {
        self.persistently_mapped
    }

    /// Allocates a host-visible buffer of `size` zeroed bytes.
    pub fn new(
        alloc: &mut AllocatorService,
        size: usize,
        usage: BufferUsage,
        persistently_mapped: bool,
    ) -> (r: CpuBuffer)
        requires
            old(alloc).wf(),
            old(alloc).spec_next_id() < u64::MAX,
        ensures
            final(alloc).wf(),
            r.spec_id() == old(alloc).spec_next_id(),
            r.spec_capacity() == size,
            r@ == zero_bytes(size as nat),
            r.spec_usage() == usage,
            r.spec_persistently_mapped() == persistently_mapped,
            final(alloc).spec_next_id() == old(alloc).spec_next_id() + 1,
            final(alloc).lives(r.spec_id()),
            !old(alloc).lives(r.spec_id()),
            forall|x: u64| x != r.spec_id() ==> (final(alloc).lives(x) <==> old(alloc).lives(x)),
            final(alloc).live_count() == old(alloc).live_count() + 1,
    {
        let id = alloc.allocate();
        let bytes = zeroed_bytes(size);
        CpuBuffer { id, usage, persistently_mapped, bytes }
    }

    /// Copies `data` into the front of the buffer. The whole of `data` must
    /// fit: a longer write is rejected with `OutOfBounds` and changes
    /// nothing. Bytes past `data.len()` keep their previous value.
    pub fn write_to(&mut self, data: &Vec<u8>) -> (r: Result<(), VulkanError>)
        ensures
            final(self).spec_id() == old(self).spec_id(),
            final(self).spec_usage() == old(self).spec_usage(),
            final(self).spec_persistently_mapped() == old(self).spec_persistently_mapped(),
            final(self).spec_capacity() == old(self).spec_capacity(),
            data@.len() <= old(self).spec_capacity() ==> r == Result::<(), VulkanError>::Ok(())
                && final(self)@ == data@ + old(self)@.skip(data@.len() as int),
            data@.len() > old(self).spec_capacity() ==> r == Result::<(), VulkanError>::Err(
                VulkanError::OutOfBounds) && final(self)@ == old(self)@,
    {
        if data.len() > self.bytes.len() {
            return Err(VulkanError::OutOfBounds);
        }
        let n = data.len();
        let mut i: usize = 0;
        while i < n
            invariant
                i <= n,
                n == data@.len(),
                n <= self.bytes@.len(),
                self.bytes@.len() == old(self).spec_capacity(),
                self.id == old(self).id,
                self.usage == old(self).usage,
                self.persistently_mapped == old(self).persistently_mapped,
                forall|k: int| 0 <= k < i ==> self.bytes@[k] == data@[k],
                forall|k: int| i <= k < self.bytes@.len() ==> self.bytes@[k] == old(self)@[k],
            decreases n - i,
        {
            let b = data[i];
            self.bytes[i] = b;
            i = i + 1;
        }
        proof {
            assert(self@ =~= data@ + old(self)@.skip(data@.len() as int));
        }
        Ok(())
    }

    /// Fills `out` from the buffer starting at byte `offset`. The range
    /// `offset..offset + out.len()` must lie within the capacity: otherwise
    /// the read is rejected with `OutOfBounds` and `out` is untouched.
    pub fn read(&self, out: &mut Vec<u8>, offset: usize) -> (r: Result<(), VulkanError>)
        ensures
            final(out)@.len() == old(out)@.len(),
            offset + old(out)@.len() <= self.spec_capacity() ==> r == Result::<(),
                VulkanError>::Ok(()) && final(out)@ == self@.subrange(
                offset as int,
                offset + old(out)@.len(),
            ),
            offset + old(out)@.len() > self.spec_capacity() ==> r == Result::<(),
                VulkanError>::Err(VulkanError::OutOfBounds) && final(out)@ == old(out)@,
    {
        if offset > self.bytes.len() || out.len() > self.bytes.len() - offset {
            return Err(VulkanError::OutOfBounds);
        }
        let n = out.len();
        let cap = self.bytes.len();
        let mut i: usize = 0;
        while i < n
            invariant
                i <= n,
                n == old(out)@.len(),
                n == out@.len(),
                cap == self.bytes@.len(),
                offset + n <= cap,
                forall|k: int| 0 <= k < i ==> out@[k] == self@[offset + k],
                forall|k: int| i <= k < n ==> out@[k] == old(out)@[k],
            decreases n - i,
        {
            let b = self.bytes[offset + i];
            out[i] = b;
            i = i + 1;
        }
        proof {
            assert(out@ =~= self@.subrange(offset as int, offset + old(out)@.len()));
        }
        Ok(())
    }

    /// Releases the backing allocation, consuming the buffer: a buffer is
    /// destroyed exactly once.
    pub fn destroy(self, alloc: &mut AllocatorService)
        requires
            old(alloc).wf(),
            old(alloc).lives(self.spec_id()),
        ensures
            final(alloc).wf(),
            !final(alloc).lives(self.spec_id()),
            forall|x: u64| x != self.spec_id() ==> (final(alloc).lives(x) <==> old(alloc).lives(
                x)),
            final(alloc).spec_next_id() == old(alloc).spec_next_id(),
            final(alloc).live_count() == old(alloc).live_count() - 1,
    {
        alloc.free(self.id);
    }
}

/// Creates a host-visible buffer sized to `data` and immediately writes
/// `data` into it, so its contents equal `data` exactly.
pub fn new_cpu_buffer(
    alloc: &mut AllocatorService,
    data: &Vec<u8>,
    usage: BufferUsage,
    persistently_mapped: bool,
) -> (r: CpuBuffer)
    requires
        old(alloc).wf(),
        old(alloc).spec_next_id() < u64::MAX,
    ensures
        final(alloc).wf(),
        r.spec_id() == old(alloc).spec_next_id(),
        r.spec_capacity() == data@.len(),
        r@ == data@,
        r.spec_usage() == usage,
        r.spec_persistently_mapped() == persistently_mapped,
        final(alloc).spec_next_id() == old(alloc).spec_next_id() + 1,
        final(alloc).lives(r.spec_id()),
        forall|x: u64| x != r.spec_id() ==> (final(alloc).lives(x) <==> old(alloc).lives(x)),
        final(alloc).live_count() == old(alloc).live_count() + 1,
{
    let mut buffer = CpuBuffer::new(alloc, data.len(), usage, persistently_mapped);
    let res = buffer.write_to(data);
    proof {
        assert(res is Ok);
        assert(buffer@ =~= data@);
    }
    buffer
}

/// Writing `data` into a buffer and reading the same number of bytes back at
/// offset 0 yields `data` again, whatever the bytes behind it hold.
pub proof fn lemma_cpu_round_trip(data: Seq<u8>, rest: Seq<u8>)
    ensures
        (data + rest).subrange(0, data.len() as int) == data,
{
    assert((data + rest).subrange(0, data.len() as int) =~= data);
}

} // verus!
