//! Buffer pools: device buffers by draw position, reused from frame to frame
//! while the data fits.

use vstd::prelude::*;

verus! {

/// What a device buffer may be used for.
#[derive(Clone, Copy, Debug, PartialEq, Eq, Structural)]
pub struct BufferUsages {
    /// It may be bound as a vertex buffer.
    pub vertex: bool,
    /// It may be bound as an index buffer.
    pub index: bool,
    /// Data may be copied into it after it was created.
    pub copy_dst: bool,
}

impl BufferUsages {
    /// The usage of a vertex buffer.
    pub open spec fn spec_for_vertices() -> Self {
        BufferUsages { vertex: true, index: false, copy_dst: false }
    }

    /// The usage of an index buffer.
    pub open spec fn spec_for_indices() -> Self {
        BufferUsages { vertex: false, index: true, copy_dst: false }
    }

    /// The same usages, and copying into the buffer as well.
    pub open spec fn spec_with_copy_dst(self) -> Self {
        BufferUsages { vertex: self.vertex, index: self.index, copy_dst: true }
    }

    /// The usage of a vertex buffer.
    #[verifier::when_used_as_spec(spec_for_vertices)]
    pub fn for_vertices() -> (usage: Self)
        ensures
            usage == Self::spec_for_vertices(),
    {
        BufferUsages { vertex: true, index: false, copy_dst: false }
    }

    /// The usage of an index buffer.
    #[verifier::when_used_as_spec(spec_for_indices)]
    pub fn for_indices() -> (usage: Self)
        ensures
            usage == Self::spec_for_indices(),
    {
        BufferUsages { vertex: false, index: true, copy_dst: false }
    }

    /// The same usages, and copying into the buffer as well.
    #[verifier::when_used_as_spec(spec_with_copy_dst)]
    pub fn with_copy_dst(self) -> (usage: Self)
        ensures
            usage == self.spec_with_copy_dst(),
    {
        BufferUsages { vertex: self.vertex, index: self.index, copy_dst: true }
    }
}

/// What a pool knows of one buffer on the device.
#[derive(Clone, Copy, Debug, PartialEq, Eq, Structural)]
pub struct SizedBuffer {
    /// The capacity in bytes that the buffer was created with.
    pub size: usize,
    /// The usages that the buffer was created with.
    pub usage: BufferUsages,
}

/// What is done to the device buffer in a slot.
#[derive(Clone, Copy, Debug, PartialEq, Eq, Structural)]
pub enum BufferAction {
    /// The data fits: the buffer stays and its contents are overwritten from
    /// its start.
    Overwrite,
    /// The data does not fit: the buffer is dropped and a new one, created
    /// with the data, takes its slot.
    Replace,
    /// The slot is new: a buffer created with the data is added at the end
    /// of the pool.
    Append,
}

/// One write of data into a pool, for the device to carry out.
#[derive(Clone, Copy, Debug)]
pub struct BufferWrite<'a> {
    /// The slot that is written.
    pub slot: usize,
    /// What happens to the buffer in the slot.
    pub action: BufferAction,
    /// The buffer that is in the slot after the write.
    pub buffer: SizedBuffer,
    /// The bytes to write.
    pub data: &'a [u8],
}

/// The buffer that is created for `len` bytes of data with the given usage:
/// exactly as large as the data, and a copy destination so that later frames
/// can overwrite it in place.
pub open spec fn created_buffer(len: usize, usage: BufferUsages) -> SizedBuffer {
    SizedBuffer { size: len, usage: usage.spec_with_copy_dst() }
}

/// The buffer that stands in place of `buffer` once `len` bytes were written
/// to it: the same buffer where the data fits, else a new one.
pub open spec fn updated_buffer(buffer: SizedBuffer, len: usize, usage: BufferUsages) -> SizedBuffer {
    if buffer.size < len {
        created_buffer(len, usage)
    } else {
        buffer
    }
}

/// What writing `len` bytes at `slot` does to the device buffer there.
pub open spec fn action_for(pool: Seq<SizedBuffer>, slot: int, len: usize) -> BufferAction {
    if 0 <= slot < pool.len() {
        if pool[slot].size < len {
            BufferAction::Replace
        } else {
            BufferAction::Overwrite
        }
    } else {
        BufferAction::Append
    }
}

/// The buffer in `slot` after `len` bytes were written there.
pub open spec fn buffer_after_write(
    pool: Seq<SizedBuffer>,
    slot: int,
    len: usize,
    usage: BufferUsages,
) -> SizedBuffer {
    if 0 <= slot < pool.len() {
        updated_buffer(pool[slot], len, usage)
    } else {
        created_buffer(len, usage)
    }
}

/// The pool after `len` bytes were written at `slot`, where `slot` is an
/// existing slot or the next new one.
pub open spec fn pool_after_write(
    pool: Seq<SizedBuffer>,
    slot: int,
    len: usize,
    usage: BufferUsages,
) -> Seq<SizedBuffer> {
    if 0 <= slot < pool.len() {
        pool.update(slot, buffer_after_write(pool, slot, len, usage))
    } else {
        pool.push(buffer_after_write(pool, slot, len, usage))
    }
}

/// Whether `write` is the write of `data` at `slot` of a pool that was
/// `pool` before.
pub open spec fn is_write_of(
    write: BufferWrite,
    pool: Seq<SizedBuffer>,
    slot: int,
    data: Seq<u8>,
    usage: BufferUsages,
) -> bool {
    &&& write.slot == slot
    &&& write.action == action_for(pool, slot, data.len() as usize)
    &&& write.buffer == buffer_after_write(pool, slot, data.len() as usize, usage)
    &&& write.data@ == data
}

/// Describes a new buffer for `data`.
pub fn create_buffer(data: &[u8], usage: BufferUsages) -> (buffer: SizedBuffer)
    ensures
        buffer == created_buffer(data@.len() as usize, usage),
{
    SizedBuffer { size: data.len(), usage: usage.with_copy_dst() }
}

/// Writes `data` to one buffer: in place where it fits, else into a new
/// buffer that takes the old one's place. Returns whether a new buffer was
/// made.
pub fn update_buffer(buffer: &mut SizedBuffer, data: &[u8], usage: BufferUsages) -> (replaced: bool)
    ensures
        *final(buffer) == updated_buffer(*old(buffer), data@.len() as usize, usage),
        replaced <==> old(buffer).size < data@.len(),
        !replaced ==> *final(buffer) == *old(buffer),
        replaced ==> final(buffer).size == data@.len(),
{
    if buffer.size < data.len() {
        *buffer = create_buffer(data, usage);
        true
    } else {
        false
    }
}

/// Writes `data` at slot `i` of a pool and returns the write for the device.
///
/// Slots are filled in order, so `i` is an existing slot or the next new
/// one. In an existing slot the buffer is kept and overwritten where the
/// data is no larger than its capacity, and no other slot changes; where the
/// data is larger a new buffer of exactly the data's length replaces it. At
/// the next new slot such a buffer is appended.
pub fn update_buffer_at<'a>(
    i: usize,
    buffers: &mut Vec<SizedBuffer>,
    data: &'a [u8],
    usage: BufferUsages,
) -> (write: BufferWrite<'a>)
    requires
        i <= old(buffers)@.len(),
    ensures
        final(buffers)@ == pool_after_write(old(buffers)@, i as int, data@.len() as usize, usage),
        is_write_of(write, old(buffers)@, i as int, data@, usage),
        i < old(buffers)@.len() && data@.len() <= old(buffers)@[i as int].size ==> {
            &&& write.action == BufferAction::Overwrite
            &&& final(buffers)@ == old(buffers)@
        },
        i < old(buffers)@.len() && data@.len() > old(buffers)@[i as int].size ==> {
            &&& write.action == BufferAction::Replace
            &&& final(buffers)@.len() == old(buffers)@.len()
            &&& final(buffers)@[i as int].size == data@.len()
            &&& forall|j: int|
                0 <= j < old(buffers)@.len() && j != i ==> final(buffers)@[j] == old(buffers)@[j]
        },
        i == old(buffers)@.len() ==> {
            &&& write.action == BufferAction::Append
            &&& final(buffers)@ == old(buffers)@.push(created_buffer(data@.len() as usize, usage))
        },
{
    if buffers.len() > i {
        let mut buffer: SizedBuffer = buffers[i];
        let replaced: bool = update_buffer(&mut buffer, data, usage);
        buffers[i] = buffer;
        let action = if replaced {
            BufferAction::Replace
        } else {
            BufferAction::Overwrite
        };
        assert(buffers@ =~= pool_after_write(old(buffers)@, i as int, data@.len() as usize, usage));
        assert(!replaced ==> buffers@ =~= old(buffers)@);
        BufferWrite { slot: i, action, buffer, data }
    } else {
        let buffer: SizedBuffer = create_buffer(data, usage);
        buffers.push(buffer);
        BufferWrite { slot: i, action: BufferAction::Append, buffer, data }
    }
}

} // verus!
