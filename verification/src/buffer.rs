//! Buffer creation: descriptor validation, the normalized descriptor sent to
//! the backend, and the typed buffer handle returned to the caller.

use vstd::prelude::*;

use crate::flags::{buffer_usage_decodes, known_buffer_usage};
use crate::ids::{DeviceId, ResourceId};

verus! {

/// Caller-supplied description of the buffer to create: requested byte size
/// and a usage-flag bitmask. Transient; consumed by one creation call.
#[derive(Clone, Copy, PartialEq, Eq, Structural, Debug)]
pub struct GPUBufferDescriptor {
    pub size: u64,
    pub usage: u32,
}

/// Backend-ready buffer descriptor: decoded usage flags and size. An invalid
/// request is replaced by this zero-size, empty-usage value, so the creation
/// call still dispatched downstream is well-formed but inert.
#[derive(Clone, Copy, PartialEq, Eq, Structural, Debug)]
pub struct BufferDescriptor {
    pub size: u64,
    pub usage: u32,
}

/// Mapping state of a buffer handle.
#[derive(Clone, Copy, PartialEq, Eq, Structural, Debug)]
pub enum GPUBufferState {
    MappedForWriting,
    Unmapped,
}

/// The buffer handle handed back to the caller. Its validity verdict is
/// fixed at creation and never changes; an invalid buffer stays usable as a
/// handle and only fails downstream.
#[derive(Clone, Copy, PartialEq, Eq, Structural, Debug)]
pub struct GPUBuffer {
    pub id: ResourceId,
    pub device: DeviceId,
    pub state: GPUBufferState,
    pub size: u64,
    pub usage: u32,
    pub valid: bool,
}

impl GPUBuffer {
    /// Wrap a backend acknowledgment and the caller-visible metadata into
    /// the buffer handle.
    pub fn new(
        id: ResourceId,
        device: DeviceId,
        state: GPUBufferState,
        size: u64,
        usage: u32,
        valid: bool,
    ) -> (r: GPUBuffer)
        ensures
            r == (GPUBuffer { id, device, state, size, usage, valid }),
    {
        GPUBuffer { id, device, state, size, usage, valid }
    }
}

/// A buffer descriptor is valid exactly when its usage bitmask decodes to a
/// known flag combination and its requested size is positive.
pub open spec fn buffer_descriptor_valid(d: GPUBufferDescriptor) -> bool {
    known_buffer_usage(d.usage) && d.size > 0
}

/// The descriptor forwarded to the backend: the requested size and usage
/// when the request is valid, the inert zero descriptor otherwise.
pub open spec fn normalized_buffer_descriptor(d: GPUBufferDescriptor) -> BufferDescriptor {
    if buffer_descriptor_valid(d) {
        BufferDescriptor { size: d.size, usage: d.usage }
    } else {
        BufferDescriptor { size: 0, usage: 0 }
    }
}

/// Check a buffer descriptor and produce the verdict together with the
/// backend-ready descriptor.
pub fn validate_buffer_descriptor(d: &GPUBufferDescriptor) -> (r: (bool, BufferDescriptor))
    ensures
        r.0 == buffer_descriptor_valid(*d),
        r.1 == normalized_buffer_descriptor(*d),
{
    let valid = buffer_usage_decodes(d.usage) && d.size > 0;
    if valid {
        (true, BufferDescriptor { size: d.size, usage: d.usage })
    } else {
        (false, BufferDescriptor { size: 0, usage: 0 })
    }
}

/// A zero-size buffer request is invalid whatever its usage flags; a
/// positive-size request with a recognized usage bitmask is valid.
pub proof fn lemma_buffer_size_rules(d: GPUBufferDescriptor)
    ensures
        d.size == 0 ==> !buffer_descriptor_valid(d),
        d.size > 0 && known_buffer_usage(d.usage) ==> buffer_descriptor_valid(d),
{
}

} // verus!
