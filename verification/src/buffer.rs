use crate::error::{BufferError, BufferResult};
use crate::framework::Framework;
use core::marker::PhantomData;
use vstd::layout::size_of;
use vstd::prelude::*;

verus! {

/// What a device allocation may be used for.
#[derive(Clone, Copy, Debug, PartialEq, Eq, Structural)]
pub struct BufferUsages {
    /// Bindable as a storage buffer.
    pub storage: bool,
    /// Source of a copy.
    pub copy_src: bool,
    /// Destination of a copy.
    pub copy_dst: bool,
    /// Mappable by the host for reading.
    pub map_read: bool,
    /// Mappable by the host for writing.
    pub map_write: bool,
}

/// The allocation that backs a buffer, as the device is asked for it.
#[derive(Clone, Copy, Debug, PartialEq, Eq, Structural)]
pub struct BufferDescriptor {
    /// Size of the allocation in bytes.
    pub size: u64,
    /// What the allocation may be used for.
    pub usage: BufferUsages,
    /// Whether the allocation starts out mapped.
    pub mapped_at_creation: bool,
}

/// What a mapping gives the host access for.
#[derive(Clone, Copy, Debug, PartialEq, Eq, Structural)]
pub enum MapMode {
    /// The host reads the mapped range.
    Read,
    /// The host writes the mapped range.
    Write,
}

/// The part of a buffer that a download maps: the bytes `0..bytes`, which
/// hold the first `elements` elements.
#[derive(Clone, Copy, Debug, PartialEq, Eq, Structural)]
pub struct MapRequest {
    /// Number of elements the range holds.
    pub elements: u64,
    /// Length of the range in bytes; the range starts at the buffer's first byte.
    pub bytes: u64,
    /// The access the mapping is asked for.
    pub mode: MapMode,
}

/// The one usage profile of every buffer: storage binding, copy source,
/// copy destination, and host-mappable for reading and for writing.
pub open spec fn spec_gpu_buffer_usages() -> BufferUsages {
    BufferUsages { storage: true, copy_src: true, copy_dst: true, map_read: true, map_write: true }
}

/// The one usage profile of every buffer.
pub fn gpu_buffer_usages() -> (usage: BufferUsages)
    ensures
        usage == spec_gpu_buffer_usages(),
{
    BufferUsages { storage: true, copy_src: true, copy_dst: true, map_read: true, map_write: true }
}

/// A vector of contiguous homogeneous elements in device memory: a typed,
/// fixed-capacity region that is never resized after creation.
pub struct GpuBuffer<'fw, T> {
    fw: &'fw Framework,
    size: u64,
    capacity: u64,
    marker: PhantomData<T>,
}

impl<'fw, T> GpuBuffer<'fw, T> {
    /// The size in bytes is the capacity times the size of one element.
    #[verifier::type_invariant]
    spec fn well_formed(self) -> bool {
        self.size == self.capacity * size_of::<T>()
    }

    /// The size of the allocation in bytes.
    pub closed spec fn spec_size(&self) -> nat {
        self.capacity as nat * size_of::<T>()
    }

    /// The number of elements the buffer can hold.
    pub closed spec fn spec_capacity(&self) -> u64 {
        self.capacity
    }

    /// The session the buffer belongs to.
    pub closed spec fn spec_framework(&self) -> &'fw Framework {
        self.fw
    }

    /// The number of elements that a download into an output of `out_len`
    /// elements transfers: as many as fit, and no more than the buffer holds.
    pub open spec fn spec_download_len(&self, out_len: nat) -> nat {
        if out_len <= self.spec_capacity() {
            out_len
        } else {
            self.spec_capacity() as nat
        }
    }

    /// The contents of an output after a completed download: the first
    /// elements come from the front of the mapped elements, as many as the
    /// download transfers; the rest stay.
    pub open spec fn spec_read(&self, mapped: Seq<T>, out: Seq<T>) -> Seq<T> {
        mapped.take(self.spec_download_len(out.len()) as int) + out.skip(
            self.spec_download_len(out.len()) as int,
        )
    }

    /// The vector a completed download of the whole buffer gives: the
    /// buffer's elements, in order.
    pub open spec fn spec_read_vec(&self, mapped: Seq<T>) -> Seq<T> {
        mapped.take(self.spec_capacity() as int)
    }

    /// Round trip. A buffer made from a host sequence holds exactly as many
    /// elements; a download of the whole buffer maps them all, and where the
    /// device still holds the elements that were uploaded, it gives the host
    /// sequence back unchanged, into a new vector or over an output of the
    /// same length.
    pub proof fn lemma_upload_then_download_round_trips(&self, host: Seq<T>, out: Seq<T>)
        requires
            self.spec_capacity() == host.len(),
            out.len() == host.len(),
        ensures
            self.spec_download_len(host.len()) == host.len(),
            self.spec_read_vec(host) == host,
            self.spec_read(host, out) == host,
    {
        assert(self.spec_read_vec(host) =~= host);
        assert(self.spec_read(host, out) =~= host);
    }

    /// Truncation. A download into an output that is no longer than the
    /// buffer fills the whole output, with the elements from the front of
    /// the buffer, and transfers as many elements as the output has.
    pub proof fn lemma_short_output_is_filled_from_the_front(&self, mapped: Seq<T>, out: Seq<T>)
        requires
            out.len() <= self.spec_capacity(),
            out.len() <= mapped.len(),
        ensures
            self.spec_download_len(out.len()) == out.len(),
            self.spec_read(mapped, out) == mapped.take(out.len() as int),
    {
        assert(self.spec_read(mapped, out) =~= mapped.take(out.len() as int));
    }

    /// The size is an exact multiple of the element size, and the capacity is
    /// the quotient.
    pub proof fn lemma_size_is_capacity_times_element_size(&self)
        ensures
            self.spec_size() == self.spec_capacity() * size_of::<T>(),
    {
    }

    /// The size of the allocation in bytes.
    pub fn size(&self) -> (size: u64)
        ensures
            size == self.spec_size(),
    {
        proof {
            use_type_invariant(self);
        }
        self.size
    }

    /// The number of elements the buffer can hold.
    pub fn capacity(&self) -> (capacity: u64)
        ensures
            capacity == self.spec_capacity(),
    {
        self.capacity
    }

    /// The session the buffer belongs to.
    pub fn framework(&self) -> (fw: &'fw Framework)
        ensures
            fw == self.spec_framework(),
    {
        self.fw
    }

    /// A buffer that holds a copy of `slice`: as many elements, in an
    /// allocation of exactly their bytes.
    pub fn from_slice(fw: &'fw Framework, slice: &[T]) -> (buffer: Self)
        requires
            slice@.len() * size_of::<T>() <= u64::MAX,
        ensures
            buffer.spec_framework() == fw,
            buffer.spec_capacity() == slice@.len(),
            buffer.spec_size() == slice@.len() * size_of::<T>(),
    {
        let capacity = slice.len() as u64;
        let size = capacity * (core::mem::size_of::<T>() as u64);
        Self { fw, size, capacity, marker: PhantomData }
    }

    /// A blank buffer of `capacity` elements. Its contents are undefined
    /// until a kernel writes them.
    pub fn with_capacity(fw: &'fw Framework, capacity: u64) -> (buffer: Self)
        requires
            capacity * size_of::<T>() <= u64::MAX,
        ensures
            buffer.spec_framework() == fw,
            buffer.spec_capacity() == capacity,
            buffer.spec_size() == capacity * size_of::<T>(),
    {
        let size = capacity * (core::mem::size_of::<T>() as u64);
        Self { fw, size, capacity, marker: PhantomData }
    }

    /// The allocation to ask the device for: the buffer's size under the
    /// fixed usage profile, not mapped at creation.
    pub fn descriptor(&self) -> (descriptor: BufferDescriptor)
        ensures
            descriptor.size == self.spec_size(),
            descriptor.usage == spec_gpu_buffer_usages(),
            !descriptor.mapped_at_creation,
    {
        proof {
            use_type_invariant(self);
        }
        BufferDescriptor { size: self.size, usage: gpu_buffer_usages(), mapped_at_creation: false }
    }

    /// The range to map for a download into an output of `out_len` elements.
    /// It starts at the front of the buffer and holds as many elements as
    /// fit into the output, at most the whole buffer; it is mapped for
    /// reading.
    pub fn map_request(&self, out_len: usize) -> (request: MapRequest)
        ensures
            request.elements == self.spec_download_len(out_len as nat),
            request.bytes == request.elements * size_of::<T>(),
            request.bytes <= self.spec_size(),
            request.mode == MapMode::Read,
    {
        proof {
            use_type_invariant(self);
        }
        let elements = if out_len as u64 <= self.capacity {
            out_len as u64
        } else {
            self.capacity
        };
        assert(elements * size_of::<T>() <= self.capacity * size_of::<T>()) by (nonlinear_arith)
            requires
                elements <= self.capacity,
        ;
        let bytes = elements * (core::mem::size_of::<T>() as u64);
        MapRequest { elements, bytes, mode: MapMode::Read }
    }
}

impl<'fw, T: Copy> GpuBuffer<'fw, T> {
    /// Completes a download into `buf`. `mapped` is the outcome of the map
    /// request: the device's elements from the front of the buffer, or the
    /// backend's failure. On success the first elements of `buf` are
    /// overwritten by as many elements from the front of `mapped`, the rest
    /// of `buf` keeps its contents, and the count of elements is returned;
    /// the mapping can then be released. On failure `buf` is left as it was.
    pub fn read(&self, mapped: Result<&[T], wgpu::BufferAsyncError>, buf: &mut [T]) -> (result:
        BufferResult<u64>)
        requires
            mapped is Ok ==> mapped->Ok_0@.len() >= self.spec_download_len(old(buf)@.len()),
        ensures
            mapped is Err ==> result == Err::<u64, BufferError>(
                BufferError::AsyncMapError(mapped->Err_0),
            ) && final(buf)@ == old(buf)@,
            mapped is Ok ==> result == Ok::<u64, BufferError>(
                self.spec_download_len(old(buf)@.len()) as u64,
            ) && final(buf)@ == self.spec_read(mapped->Ok_0@, old(buf)@),
    {
        match mapped {
            Err(failure) => Err(BufferError::AsyncMapError(failure)),
            Ok(data) => {
                let count = self.map_request(buf.len()).elements;
                let n = count as usize;
                let mut i: usize = 0;
                while i < n
                    invariant
                        i <= n,
                        n <= data@.len(),
                        n <= buf@.len(),
                        buf@.len() == old(buf)@.len(),
                        forall|j: int| 0 <= j < i ==> buf@[j] == data@[j],
                        forall|j: int| i <= j < buf@.len() ==> buf@[j] == old(buf)@[j],
                    decreases n - i,
                {
                    buf[i] = data[i];
                    i += 1;
                }
                assert(buf@ =~= self.spec_read(data@, old(buf)@));
                Ok(count)
            },
        }
    }

    /// Completes a download of the whole buffer into a new vector. `mapped`
    /// is the outcome of the map request for the buffer's full range. On
    /// success the vector holds the buffer's `capacity` elements in order.
    pub fn read_vec(&self, mapped: Result<&[T], wgpu::BufferAsyncError>) -> (result: BufferResult<
        Vec<T>,
    >)
        requires
            mapped is Ok ==> mapped->Ok_0@.len() >= self.spec_capacity(),
        ensures
            mapped is Err ==> result is Err && result->Err_0 == BufferError::AsyncMapError(
                mapped->Err_0,
            ),
            mapped is Ok ==> result is Ok && result->Ok_0@ == self.spec_read_vec(mapped->Ok_0@),
    {
        match mapped {
            Err(failure) => Err(BufferError::AsyncMapError(failure)),
            Ok(data) => {
                let available = data.len();
                assert(self.capacity <= available);
                let n = self.capacity as usize;
                let mut out: Vec<T> = Vec::new();
                let mut i: usize = 0;
                while i < n
                    invariant
                        i <= n,
                        n <= data@.len(),
                        out@ == data@.take(i as int),
                    decreases n - i,
                {
                    out.push(data[i]);
                    assert(data@.take(i as int).push(data@[i as int]) =~= data@.take(i + 1));
                    i += 1;
                }
                Ok(out)
            },
        }
    }
}

} // verus!
