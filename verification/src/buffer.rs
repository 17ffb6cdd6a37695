//! Buffers and the memory behind buffers and images.

use crate::device::{find_memory_type_index, is_first_memory_type, memory_type_suits, MAX_MEMORY_TYPES};
use crate::swapchain::SharingMode;
use vstd::prelude::*;

verus! {

/// Buffer usage bit: source of a transfer.
pub const BUFFER_USAGE_TRANSFER_SRC: u32 = 0x1;

/// Buffer usage bit: destination of a transfer.
pub const BUFFER_USAGE_TRANSFER_DST: u32 = 0x2;

/// Buffer usage bit: uniform buffer.
pub const BUFFER_USAGE_UNIFORM_BUFFER: u32 = 0x10;

/// Buffer usage bit: index buffer.
pub const BUFFER_USAGE_INDEX_BUFFER: u32 = 0x40;

/// Buffer usage bit: vertex buffer.
pub const BUFFER_USAGE_VERTEX_BUFFER: u32 = 0x80;

/// A buffer to create.
#[derive(Clone, Copy, PartialEq, Eq, Structural, Debug)]
pub struct BufferRequest {
    pub size: u64,
    pub usage: u32,
    pub sharing_mode: SharingMode,
}

/// What the device reports a buffer or image to need of its memory.
#[derive(Clone, Copy, PartialEq, Eq, Structural, Debug)]
pub struct MemoryRequirements {
    pub size: u64,
    pub alignment: u64,
    pub memory_type_bits: u32,
}

/// The memory to allocate for one buffer or image, and where in it to bind.
#[derive(Clone, Copy, PartialEq, Eq, Structural, Debug)]
pub struct MemoryAllocation {
    pub allocation_size: u64,
    pub memory_type_index: u32,
    pub bind_offset: u64,
}

/// Describes the buffer to create: of `size` bytes, used by one queue family
/// at a time.
pub fn create_buffer(usage: u32, size: u64) -> (request: BufferRequest)
    ensures
        request == (BufferRequest { size, usage, sharing_mode: SharingMode::Exclusive }),
{
    BufferRequest { size, usage, sharing_mode: SharingMode::Exclusive }
}

/// Chooses the memory for a buffer or image that was just created: as much as
/// the device asks for, of the first memory type that the requirements allow
/// and that has all of `required_properties`, bound at its start. There has to
/// be such a type.
pub fn allocate_memory(
    requirements: &MemoryRequirements,
    required_properties: u32,
    memory_types: &[u32],
) -> (allocation: MemoryAllocation)
    requires
        memory_types@.len() <= MAX_MEMORY_TYPES,
        exists|j: int|
            memory_type_suits(
                requirements.memory_type_bits,
                required_properties,
                memory_types@,
                j,
            ),
    ensures
        allocation.allocation_size == requirements.size,
        allocation.bind_offset == 0,
        is_first_memory_type(
            requirements.memory_type_bits,
            required_properties,
            memory_types@,
            allocation.memory_type_index as int,
        ),
{
    MemoryAllocation {
        allocation_size: requirements.size,
        memory_type_index: find_memory_type_index(
            requirements.memory_type_bits,
            required_properties,
            memory_types,
        ),
        bind_offset: 0,
    }
}

} // verus!
