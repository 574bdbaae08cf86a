//! Compute-pipeline creation. A compute pipeline carries no independent
//! validation: it resolves its pipeline layout, shader module and entry
//! point and forwards them to the backend.

use vstd::prelude::*;

use crate::ids::ResourceId;
use crate::pipeline_layout::GPUPipelineLayout;
use crate::shader::GPUShaderModule;

verus! {

/// The programmable stage of a compute pipeline: the shader module to run
/// and the name of its entry point.
#[derive(Clone, PartialEq, Eq, Debug)]
pub struct GPUProgrammableStageDescriptor {
    pub module: GPUShaderModule,
    pub entry_point: String,
}

/// Caller-supplied description of a compute pipeline.
#[derive(Clone, PartialEq, Eq, Debug)]
pub struct GPUComputePipelineDescriptor {
    pub layout: GPUPipelineLayout,
    pub compute_stage: GPUProgrammableStageDescriptor,
}

/// The compute-pipeline handle returned to the caller.
#[derive(Clone, Copy, PartialEq, Eq, Structural, Debug)]
pub struct GPUComputePipeline {
    pub id: ResourceId,
}

impl GPUComputePipeline {
    /// Wrap a backend acknowledgment into the compute-pipeline handle.
    pub fn new(id: ResourceId) -> (r: GPUComputePipeline)
        ensures
            r == (GPUComputePipeline { id }),
    {
        GPUComputePipeline { id }
    }
}

} // verus!
