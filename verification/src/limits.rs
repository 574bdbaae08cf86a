//! Device capability ceilings: how many bindable resources of each kind a
//! shader stage may consume, how many dynamic-offset bindings a pipeline
//! layout may declare, and how many bind groups a pipeline layout may
//! reference. Read-only per device once constructed.

use vstd::prelude::*;

verus! {

/// Capability limits of one device. Immutable after device creation; the
/// validators only read it.
#[derive(Clone, Copy, PartialEq, Eq, Structural, Debug)]
pub struct Limits {
    /// Most bind groups one pipeline layout may reference.
    pub max_bind_groups: u32,
    /// Most dynamic-offset uniform-buffer bindings per pipeline layout.
    pub max_dynamic_uniform_buffers_per_pipeline_layout: u32,
    /// Most dynamic-offset storage-buffer bindings per pipeline layout.
    pub max_dynamic_storage_buffers_per_pipeline_layout: u32,
    /// Most sampled textures visible to one shader stage.
    pub max_sampled_textures_per_shader_stage: u32,
    /// Most samplers visible to one shader stage.
    pub max_samplers_per_shader_stage: u32,
    /// Most storage buffers visible to one shader stage.
    pub max_storage_buffers_per_shader_stage: u32,
    /// Most storage textures visible to one shader stage.
    pub max_storage_textures_per_shader_stage: u32,
    /// Most uniform buffers visible to one shader stage.
    pub max_uniform_buffers_per_shader_stage: u32,
}

impl Limits {
    /// The ceilings a device reports when no capability negotiation has
    /// taken place. These are deliberate stand-ins: a richer construction
    /// path would take negotiated values instead.
    pub fn defaults() -> (r: Limits)
        ensures
            r == (Limits {
                max_bind_groups: 4u32,
                max_dynamic_uniform_buffers_per_pipeline_layout: 8u32,
                max_dynamic_storage_buffers_per_pipeline_layout: 4u32,
                max_sampled_textures_per_shader_stage: 16u32,
                max_samplers_per_shader_stage: 16u32,
                max_storage_buffers_per_shader_stage: 4u32,
                max_storage_textures_per_shader_stage: 4u32,
                max_uniform_buffers_per_shader_stage: 12u32,
            }),
    {
        Limits {
            max_bind_groups: 4,
            max_dynamic_uniform_buffers_per_pipeline_layout: 8,
            max_dynamic_storage_buffers_per_pipeline_layout: 4,
            max_sampled_textures_per_shader_stage: 16,
            max_samplers_per_shader_stage: 16,
            max_storage_buffers_per_shader_stage: 4,
            max_storage_textures_per_shader_stage: 4,
            max_uniform_buffers_per_shader_stage: 12,
        }
    }
}

} // verus!
