//! Command-encoder creation. An encoder has no descriptor to validate: it is
//! always created valid.

use vstd::prelude::*;

use crate::ids::ResourceId;

verus! {

/// The command-encoder handle returned to the caller.
#[derive(Clone, Copy, PartialEq, Eq, Structural, Debug)]
pub struct GPUCommandEncoder {
    pub id: ResourceId,
    pub valid: bool,
}

impl GPUCommandEncoder {
    /// Wrap a backend acknowledgment into the command-encoder handle.
    pub fn new(id: ResourceId, valid: bool) -> (r: GPUCommandEncoder)
        ensures
            r == (GPUCommandEncoder { id, valid }),
    {
        GPUCommandEncoder { id, valid }
    }
}

} // verus!
