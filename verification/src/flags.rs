//! Bitmask vocabularies shared by the validators: buffer usage flags and
//! shader-stage visibility masks. A mask "decodes" when it holds no bit
//! outside the known set; validators reject descriptors whose masks do not
//! decode.

use vstd::prelude::*;

verus! {

/// The buffer may be mapped for reading.
pub const BUFFER_USAGE_MAP_READ: u32 = 1;

/// The buffer may be mapped for writing.
pub const BUFFER_USAGE_MAP_WRITE: u32 = 2;

/// The buffer may be the source of a copy.
pub const BUFFER_USAGE_COPY_SRC: u32 = 4;

/// The buffer may be the destination of a copy.
pub const BUFFER_USAGE_COPY_DST: u32 = 8;

/// The buffer may be bound as an index buffer.
pub const BUFFER_USAGE_INDEX: u32 = 16;

/// The buffer may be bound as a vertex buffer.
pub const BUFFER_USAGE_VERTEX: u32 = 32;

/// The buffer may be bound as a uniform buffer.
pub const BUFFER_USAGE_UNIFORM: u32 = 64;

/// The buffer may be bound as a writable storage buffer.
pub const BUFFER_USAGE_STORAGE: u32 = 128;

/// The buffer may be bound as a read-only storage buffer.
pub const BUFFER_USAGE_STORAGE_READ: u32 = 256;

/// The buffer may hold indirect-draw arguments.
pub const BUFFER_USAGE_INDIRECT: u32 = 512;

/// Union of every known buffer usage flag.
pub const BUFFER_USAGE_ALL: u32 = 0x3ff;

/// The binding is visible to the vertex stage.
pub const SHADER_STAGE_VERTEX: u32 = 1;

/// The binding is visible to the fragment stage.
pub const SHADER_STAGE_FRAGMENT: u32 = 2;

/// The binding is visible to the compute stage.
pub const SHADER_STAGE_COMPUTE: u32 = 4;

/// Union of every known shader stage bit.
pub const SHADER_STAGE_ALL: u32 = 7;

/// A buffer usage bitmask decodes exactly when it holds no unknown bit.
pub open spec fn known_buffer_usage(bits: u32) -> bool {
    bits & !BUFFER_USAGE_ALL == 0
}

/// A visibility bitmask decodes exactly when it holds no unknown stage bit.
pub open spec fn known_shader_stages(bits: u32) -> bool {
    bits & !SHADER_STAGE_ALL == 0
}

/// A mask contains a flag when every bit of the flag is set in the mask.
pub open spec fn usage_contains(mask: u32, flag: u32) -> bool {
    mask & flag == flag
}

/// Runtime check that a buffer usage bitmask decodes.
pub fn buffer_usage_decodes(bits: u32) -> (b: bool)
    ensures
        b == known_buffer_usage(bits),
{
    bits & !BUFFER_USAGE_ALL == 0
}

/// Runtime check that a visibility bitmask decodes.
pub fn shader_stages_decode(bits: u32) -> (b: bool)
    ensures
        b == known_shader_stages(bits),
{
    bits & !SHADER_STAGE_ALL == 0
}

/// Runtime check that a usage mask contains a required flag.
pub fn usage_mask_contains(mask: u32, flag: u32) -> (b: bool)
    ensures
        b == usage_contains(mask, flag),
{
    mask & flag == flag
}

} // verus!
