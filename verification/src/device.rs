//! The device core. For every creation operation the sequence is fixed:
//! validate the descriptor, mint an identifier, build the backend request,
//! and — once the host has sent the request and received the backend's
//! acknowledgment — wrap the outcome into a typed handle. The host owns the
//! channel, so each operation here produces a `Creation` value holding the
//! ready request plus everything the wrap step needs; the handle
//! constructors on the resource types do the wrapping.

use vstd::prelude::*;

use crate::bind_group::{
    all_kinds_supported, bind_group_valid, normalize_binding, validate_bind_group, BindGroupEntry,
    GPUBindGroupDescriptor, GPUBindGroupEntry,
};
use crate::bind_group_layout::{
    bind_group_layout_valid, normalize_entry, validate_bind_group_layout, BindGroupLayoutEntry,
    GPUBindGroupLayoutDescriptor, GPUBindGroupLayoutEntry,
};
use crate::buffer::{
    buffer_descriptor_valid, normalized_buffer_descriptor, validate_buffer_descriptor,
    BufferDescriptor, GPUBufferDescriptor,
};
use crate::compute_pipeline::GPUComputePipelineDescriptor;
use crate::error::DeviceError;
use crate::ids::{allocated_one, minted_id, Backend, DeviceId, IdHub, IdKind, QueueId, ResourceId};
use crate::limits::Limits;
use crate::pipeline_layout::{
    pipeline_layout_valid, valid_layout_ids, validate_pipeline_layout, GPUPipelineLayoutDescriptor,
};
use crate::sampler::{
    decode_sampler_descriptor, normalized_sampler_descriptor, GPUSamplerDescriptor,
    SamplerDescriptor,
};
use crate::shader::{decode_shader_code, program_words, GPUShaderModuleDescriptor};

verus! {

/// One creation command, ready to send to the backend: the command tag, the
/// issuing device, the pre-allocated identifier of the resource to create,
/// and the normalized descriptor.
#[derive(Clone, PartialEq, Eq, Debug)]
pub enum GPURequest {
    CreateBuffer { device_id: DeviceId, buffer_id: ResourceId, descriptor: BufferDescriptor },
    CreateBufferMapped { device_id: DeviceId, buffer_id: ResourceId, descriptor: BufferDescriptor },
    CreateBindGroupLayout {
        device_id: DeviceId,
        bind_group_layout_id: ResourceId,
        bindings: Vec<BindGroupLayoutEntry>,
    },
    CreatePipelineLayout {
        device_id: DeviceId,
        pipeline_layout_id: ResourceId,
        bind_group_layouts: Vec<ResourceId>,
    },
    CreateBindGroup {
        device_id: DeviceId,
        bind_group_id: ResourceId,
        bind_group_layout_id: ResourceId,
        bindings: Vec<BindGroupEntry>,
    },
    CreateShaderModule { device_id: DeviceId, program_id: ResourceId, program: Vec<u32> },
    CreateComputePipeline {
        device_id: DeviceId,
        compute_pipeline_id: ResourceId,
        pipeline_layout_id: ResourceId,
        program_id: ResourceId,
        entry_point: String,
    },
    CreateCommandEncoder { device_id: DeviceId, command_encoder_id: ResourceId },
    CreateSampler { device_id: DeviceId, sampler_id: ResourceId, descriptor: SamplerDescriptor },
}

/// Outcome of planning a buffer creation: the request to dispatch, the
/// permanent verdict, and the size and usage the buffer handle will carry.
#[derive(Clone, PartialEq, Eq, Debug)]
pub struct BufferCreation {
    pub request: GPURequest,
    pub valid: bool,
    pub size: u64,
    pub usage: u32,
}

/// Outcome of planning a bind-group-layout creation.
#[derive(Clone, PartialEq, Eq, Debug)]
pub struct BindGroupLayoutCreation {
    pub request: GPURequest,
    pub valid: bool,
    pub bindings: Vec<GPUBindGroupLayoutEntry>,
}

/// Outcome of planning a pipeline-layout creation.
#[derive(Clone, PartialEq, Eq, Debug)]
pub struct PipelineLayoutCreation {
    pub request: GPURequest,
    pub valid: bool,
    pub bind_group_layouts: Vec<ResourceId>,
}

/// Outcome of planning a bind-group creation.
#[derive(Clone, PartialEq, Eq, Debug)]
pub struct BindGroupCreation {
    pub request: GPURequest,
    pub valid: bool,
}

/// Outcome of planning a shader-module creation.
#[derive(Clone, PartialEq, Eq, Debug)]
pub struct ShaderModuleCreation {
    pub request: GPURequest,
}

/// Outcome of planning a compute-pipeline creation.
#[derive(Clone, PartialEq, Eq, Debug)]
pub struct ComputePipelineCreation {
    pub request: GPURequest,
}

/// Outcome of planning a command-encoder creation.
#[derive(Clone, PartialEq, Eq, Debug)]
pub struct CommandEncoderCreation {
    pub request: GPURequest,
}

/// Outcome of planning a sampler creation: samplers are always valid, so
/// only the request and the comparison-enable flag come out.
#[derive(Clone, PartialEq, Eq, Debug)]
pub struct SamplerCreation {
    pub request: GPURequest,
    pub compare_enable: bool,
}

/// One logical GPU device: its backend identifier, its capability limits, an
/// optional human-readable label, and its default queue, the last fixed at
/// construction.
pub struct GPUDevice {
    pub device: DeviceId,
    pub limits: Limits,
    pub label: Option<String>,
    pub default_queue: QueueId,
}

impl GPUDevice {
    /// Construct a device around its backend identifier, limit table and
    /// default queue. The label starts unset.
    pub fn new(device: DeviceId, limits: Limits, default_queue: QueueId) -> (r: GPUDevice)
        ensures
            r.device == device,
            r.limits == limits,
            r.label is None,
            r.default_queue == default_queue,
    {
        GPUDevice { device, limits, label: None, default_queue }
    }

    /// The device's default queue, fixed at construction.
    pub fn default_queue(&self) -> (r: QueueId)
        ensures
            r == self.default_queue,
    {
        self.default_queue
    }

    /// The device's label, if one is set.
    pub fn get_label(&self) -> (r: Option<String>)
        ensures
            r is Some <==> self.label is Some,
            r matches Some(s) ==> self.label matches Some(l) && s@ == l@,
    {
        match &self.label {
            Some(s) => Some(s.clone()),
            None => None,
        }
    }

    /// Replace the device's label.
    pub fn set_label(&mut self, value: Option<String>)
        ensures
            final(self).label == value,
            final(self).device == old(self).device,
            final(self).limits == old(self).limits,
            final(self).default_queue == old(self).default_queue,
    {
        self.label = value;
    }

    /// Plan a buffer creation: validate the descriptor, mint a buffer
    /// identifier, and build the request. The handle keeps the size and
    /// usage exactly as the caller requested them, valid or not.
    pub fn create_buffer(&self, hub: &mut IdHub, descriptor: &GPUBufferDescriptor) -> (r: Result<
        BufferCreation,
        DeviceError,
    >)
        requires
            old(hub).wf(),
        ensures
            final(hub).wf(),
            match r {
                Ok(c) => {
                    &&& allocated_one(*old(hub), *final(hub), IdKind::Buffer, self.device.backend)
                    &&& c.request == (GPURequest::CreateBuffer {
                        device_id: self.device,
                        buffer_id: minted_id(*old(hub), IdKind::Buffer, self.device.backend),
                        descriptor: normalized_buffer_descriptor(*descriptor),
                    })
                    &&& c.valid == buffer_descriptor_valid(*descriptor)
                    &&& c.size == descriptor.size
                    &&& c.usage == descriptor.usage
                },
                Err(e) => {
                    &&& e == DeviceError::IdentifiersExhausted
                    &&& old(hub).next_of(IdKind::Buffer) == u64::MAX
                    &&& *final(hub) == *old(hub)
                },
            },
    {
        let (valid, wgpu_descriptor) = validate_buffer_descriptor(descriptor);
        let buffer_id = match hub.allocate(IdKind::Buffer, self.device.backend) {
            Ok(id) => id,
            Err(e) => {
                return Err(e);
            },
        };
        Ok(
            BufferCreation {
                request: GPURequest::CreateBuffer {
                    device_id: self.device,
                    buffer_id,
                    descriptor: wgpu_descriptor,
                },
                valid,
                size: descriptor.size,
                usage: descriptor.usage,
            },
        )
    }

    /// Plan a mapped-at-creation buffer: same validation as `create_buffer`,
    /// but the handle keeps the normalized size and usage — zero and empty
    /// when the request was invalid — and the host maps a memory buffer of
    /// the requested length alongside.
    pub fn create_buffer_mapped(&self, hub: &mut IdHub, descriptor: &GPUBufferDescriptor) -> (r:
        Result<BufferCreation, DeviceError>)
        requires
            old(hub).wf(),
        ensures
            final(hub).wf(),
            match r {
                Ok(c) => {
                    &&& allocated_one(*old(hub), *final(hub), IdKind::Buffer, self.device.backend)
                    &&& c.request == (GPURequest::CreateBufferMapped {
                        device_id: self.device,
                        buffer_id: minted_id(*old(hub), IdKind::Buffer, self.device.backend),
                        descriptor: normalized_buffer_descriptor(*descriptor),
                    })
                    &&& c.valid == buffer_descriptor_valid(*descriptor)
                    &&& c.size == normalized_buffer_descriptor(*descriptor).size
                    &&& c.usage == normalized_buffer_descriptor(*descriptor).usage
                },
                Err(e) => {
                    &&& e == DeviceError::IdentifiersExhausted
                    &&& old(hub).next_of(IdKind::Buffer) == u64::MAX
                    &&& *final(hub) == *old(hub)
                },
            },
    {
        let (valid, wgpu_descriptor) = validate_buffer_descriptor(descriptor);
        let buffer_id = match hub.allocate(IdKind::Buffer, self.device.backend) {
            Ok(id) => id,
            Err(e) => {
                return Err(e);
            },
        };
        Ok(
            BufferCreation {
                request: GPURequest::CreateBufferMapped {
                    device_id: self.device,
                    buffer_id,
                    descriptor: wgpu_descriptor,
                },
                valid,
                size: wgpu_descriptor.size,
                usage: wgpu_descriptor.usage,
            },
        )
    }

    /// Plan a bind-group-layout creation: validate the entries against this
    /// device's limits, mint an identifier, and build the request around the
    /// normalized entries. The handle keeps the caller's entries as
    /// declared.
    pub fn create_bind_group_layout(
        &self,
        hub: &mut IdHub,
        descriptor: &GPUBindGroupLayoutDescriptor,
    ) -> (r: Result<BindGroupLayoutCreation, DeviceError>)
        requires
            old(hub).wf(),
        ensures
            final(hub).wf(),
            match r {
                Ok(c) => {
                    &&& allocated_one(
                        *old(hub),
                        *final(hub),
                        IdKind::BindGroupLayout,
                        self.device.backend,
                    )
                    &&& c.request matches GPURequest::CreateBindGroupLayout {
                        device_id,
                        bind_group_layout_id,
                        bindings,
                    } && device_id == self.device && bind_group_layout_id == minted_id(
                        *old(hub),
                        IdKind::BindGroupLayout,
                        self.device.backend,
                    ) && bindings@ == descriptor.entries@.map_values(
                        |e: GPUBindGroupLayoutEntry| normalize_entry(e),
                    )
                    &&& c.valid == bind_group_layout_valid(descriptor.entries@, self.limits)
                    &&& c.bindings@ == descriptor.entries@
                },
                Err(e) => {
                    &&& e == DeviceError::IdentifiersExhausted
                    &&& old(hub).next_of(IdKind::BindGroupLayout) == u64::MAX
                    &&& *final(hub) == *old(hub)
                },
            },
    {
        let (valid, bindings) = validate_bind_group_layout(descriptor, &self.limits);
        let bind_group_layout_id = match hub.allocate(
            IdKind::BindGroupLayout,
            self.device.backend,
        ) {
            Ok(id) => id,
            Err(e) => {
                return Err(e);
            },
        };
        let binds = copy_layout_entries(&descriptor.entries);
        Ok(
            BindGroupLayoutCreation {
                request: GPURequest::CreateBindGroupLayout {
                    device_id: self.device,
                    bind_group_layout_id,
                    bindings,
                },
                valid,
                bindings: binds,
            },
        )
    }

    /// Plan a pipeline-layout creation: validate the referenced layouts
    /// against this device's limits, mint an identifier, and build the
    /// request around the identifiers of the valid referenced layouts. The
    /// handle keeps the same identifier list.
    pub fn create_pipeline_layout(
        &self,
        hub: &mut IdHub,
        descriptor: &GPUPipelineLayoutDescriptor,
    ) -> (r: Result<PipelineLayoutCreation, DeviceError>)
        requires
            old(hub).wf(),
        ensures
            final(hub).wf(),
            match r {
                Ok(c) => {
                    &&& allocated_one(
                        *old(hub),
                        *final(hub),
                        IdKind::PipelineLayout,
                        self.device.backend,
                    )
                    &&& c.request matches GPURequest::CreatePipelineLayout {
                        device_id,
                        pipeline_layout_id,
                        bind_group_layouts,
                    } && device_id == self.device && pipeline_layout_id == minted_id(
                        *old(hub),
                        IdKind::PipelineLayout,
                        self.device.backend,
                    ) && bind_group_layouts@ == valid_layout_ids(descriptor.bind_group_layouts@)
                    &&& c.valid == pipeline_layout_valid(descriptor.bind_group_layouts@, self.limits)
                    &&& c.bind_group_layouts@ == valid_layout_ids(descriptor.bind_group_layouts@)
                },
                Err(e) => {
                    &&& e == DeviceError::IdentifiersExhausted
                    &&& old(hub).next_of(IdKind::PipelineLayout) == u64::MAX
                    &&& *final(hub) == *old(hub)
                },
            },
    {
        let (valid, bgl_ids) = validate_pipeline_layout(descriptor, &self.limits);
        let pipeline_layout_id = match hub.allocate(IdKind::PipelineLayout, self.device.backend) {
            Ok(id) => id,
            Err(e) => {
                return Err(e);
            },
        };
        let kept = copy_resource_ids(&bgl_ids);
        Ok(
            PipelineLayoutCreation {
                request: GPURequest::CreatePipelineLayout {
                    device_id: self.device,
                    pipeline_layout_id,
                    bind_group_layouts: bgl_ids,
                },
                valid,
                bind_group_layouts: kept,
            },
        )
    }

    /// Plan a bind-group creation: check the supplied bindings against the
    /// referenced layout, mint an identifier, and build the request around
    /// the normalized bindings. Fails with the explicit unimplemented
    /// condition exactly when the layout declares a binding kind other than
    /// the two buffer kinds; in that case nothing is allocated.
    pub fn create_bind_group(&self, hub: &mut IdHub, descriptor: &GPUBindGroupDescriptor) -> (r:
        Result<BindGroupCreation, DeviceError>)
        requires
            old(hub).wf(),
        ensures
            final(hub).wf(),
            match r {
                Ok(c) => {
                    &&& all_kinds_supported(descriptor.layout.bindings@)
                    &&& allocated_one(*old(hub), *final(hub), IdKind::BindGroup, self.device.backend)
                    &&& c.request matches GPURequest::CreateBindGroup {
                        device_id,
                        bind_group_id,
                        bind_group_layout_id,
                        bindings,
                    } && device_id == self.device && bind_group_id == minted_id(
                        *old(hub),
                        IdKind::BindGroup,
                        self.device.backend,
                    ) && bind_group_layout_id == descriptor.layout.id && bindings@
                        == descriptor.entries@.map_values(|e: GPUBindGroupEntry| normalize_binding(e))
                    &&& c.valid == bind_group_valid(descriptor.layout.bindings@, descriptor.entries@)
                },
                Err(e) => {
                    &&& (e == DeviceError::UnimplementedBindingKind <==> !all_kinds_supported(
                        descriptor.layout.bindings@,
                    ))
                    &&& e == DeviceError::IdentifiersExhausted ==> old(hub).next_of(IdKind::BindGroup)
                        == u64::MAX
                    &&& *final(hub) == *old(hub)
                },
            },
    {
        let (valid, bindings) = match validate_bind_group(descriptor) {
            Ok(out) => out,
            Err(e) => {
                return Err(e);
            },
        };
        let bind_group_id = match hub.allocate(IdKind::BindGroup, self.device.backend) {
            Ok(id) => id,
            Err(e) => {
                return Err(e);
            },
        };
        Ok(
            BindGroupCreation {
                request: GPURequest::CreateBindGroup {
                    device_id: self.device,
                    bind_group_id,
                    bind_group_layout_id: descriptor.layout.id,
                    bindings,
                },
                valid,
            },
        )
    }

    /// Plan a shader-module creation: decode the code into its word
    /// sequence, mint an identifier, and build the request. No validation
    /// beyond the decoding itself.
    pub fn create_shader_module(
        &self,
        hub: &mut IdHub,
        descriptor: &GPUShaderModuleDescriptor,
    ) -> (r: Result<ShaderModuleCreation, DeviceError>)
        requires
            old(hub).wf(),
        ensures
            final(hub).wf(),
            match r {
                Ok(c) => {
                    &&& allocated_one(
                        *old(hub),
                        *final(hub),
                        IdKind::ShaderModule,
                        self.device.backend,
                    )
                    &&& c.request matches GPURequest::CreateShaderModule {
                        device_id,
                        program_id,
                        program,
                    } && device_id == self.device && program_id == minted_id(
                        *old(hub),
                        IdKind::ShaderModule,
                        self.device.backend,
                    ) && program@ == program_words(descriptor.code)
                },
                Err(e) => {
                    &&& e == DeviceError::IdentifiersExhausted
                    &&& old(hub).next_of(IdKind::ShaderModule) == u64::MAX
                    &&& *final(hub) == *old(hub)
                },
            },
    {
        let program = decode_shader_code(&descriptor.code);
        let program_id = match hub.allocate(IdKind::ShaderModule, self.device.backend) {
            Ok(id) => id,
            Err(e) => {
                return Err(e);
            },
        };
        Ok(
            ShaderModuleCreation {
                request: GPURequest::CreateShaderModule {
                    device_id: self.device,
                    program_id,
                    program,
                },
            },
        )
    }

    /// Plan a compute-pipeline creation: resolve the pipeline layout, shader
    /// module and entry point, mint an identifier, and build the request.
    /// No independent validation.
    pub fn create_compute_pipeline(
        &self,
        hub: &mut IdHub,
        descriptor: &GPUComputePipelineDescriptor,
    ) -> (r: Result<ComputePipelineCreation, DeviceError>)
        requires
            old(hub).wf(),
        ensures
            final(hub).wf(),
            match r {
                Ok(c) => {
                    &&& allocated_one(
                        *old(hub),
                        *final(hub),
                        IdKind::ComputePipeline,
                        self.device.backend,
                    )
                    &&& c.request matches GPURequest::CreateComputePipeline {
                        device_id,
                        compute_pipeline_id,
                        pipeline_layout_id,
                        program_id,
                        entry_point,
                    } && device_id == self.device && compute_pipeline_id == minted_id(
                        *old(hub),
                        IdKind::ComputePipeline,
                        self.device.backend,
                    ) && pipeline_layout_id == descriptor.layout.id && program_id
                        == descriptor.compute_stage.module.id && entry_point@
                        == descriptor.compute_stage.entry_point@
                },
                Err(e) => {
                    &&& e == DeviceError::IdentifiersExhausted
                    &&& old(hub).next_of(IdKind::ComputePipeline) == u64::MAX
                    &&& *final(hub) == *old(hub)
                },
            },
    {
        let entry_point = descriptor.compute_stage.entry_point.clone();
        let compute_pipeline_id = match hub.allocate(IdKind::ComputePipeline, self.device.backend) {
            Ok(id) => id,
            Err(e) => {
                return Err(e);
            },
        };
        Ok(
            ComputePipelineCreation {
                request: GPURequest::CreateComputePipeline {
                    device_id: self.device,
                    compute_pipeline_id,
                    pipeline_layout_id: descriptor.layout.id,
                    program_id: descriptor.compute_stage.module.id,
                    entry_point,
                },
            },
        )
    }

    /// Plan a command-encoder creation: there is nothing to validate, so
    /// only an identifier is minted. An encoder is always valid.
    pub fn create_command_encoder(&self, hub: &mut IdHub) -> (r: Result<
        CommandEncoderCreation,
        DeviceError,
    >)
        requires
            old(hub).wf(),
        ensures
            final(hub).wf(),
            match r {
                Ok(c) => {
                    &&& allocated_one(
                        *old(hub),
                        *final(hub),
                        IdKind::CommandEncoder,
                        self.device.backend,
                    )
                    &&& c.request == (GPURequest::CreateCommandEncoder {
                        device_id: self.device,
                        command_encoder_id: minted_id(
                            *old(hub),
                            IdKind::CommandEncoder,
                            self.device.backend,
                        ),
                    })
                },
                Err(e) => {
                    &&& e == DeviceError::IdentifiersExhausted
                    &&& old(hub).next_of(IdKind::CommandEncoder) == u64::MAX
                    &&& *final(hub) == *old(hub)
                },
            },
    {
        let command_encoder_id = match hub.allocate(IdKind::CommandEncoder, self.device.backend) {
            Ok(id) => id,
            Err(e) => {
                return Err(e);
            },
        };
        Ok(
            CommandEncoderCreation {
                request: GPURequest::CreateCommandEncoder {
                    device_id: self.device,
                    command_encoder_id,
                },
            },
        )
    }

    /// Plan a sampler creation: decode the descriptor's enumerations, mint
    /// an identifier, and build the request. A sampler is always valid; the
    /// comparison-enable flag records whether a comparison function was
    /// requested.
    pub fn create_sampler(&self, hub: &mut IdHub, descriptor: &GPUSamplerDescriptor) -> (r: Result<
        SamplerCreation,
        DeviceError,
    >)
        requires
            old(hub).wf(),
        ensures
            final(hub).wf(),
            match r {
                Ok(c) => {
                    &&& allocated_one(*old(hub), *final(hub), IdKind::Sampler, self.device.backend)
                    &&& c.request == (GPURequest::CreateSampler {
                        device_id: self.device,
                        sampler_id: minted_id(*old(hub), IdKind::Sampler, self.device.backend),
                        descriptor: normalized_sampler_descriptor(*descriptor),
                    })
                    &&& c.compare_enable == (descriptor.compare is Some)
                },
                Err(e) => {
                    &&& e == DeviceError::IdentifiersExhausted
                    &&& old(hub).next_of(IdKind::Sampler) == u64::MAX
                    &&& *final(hub) == *old(hub)
                },
            },
    {
        let sampler_id = match hub.allocate(IdKind::Sampler, self.device.backend) {
            Ok(id) => id,
            Err(e) => {
                return Err(e);
            },
        };
        let (desc, compare_enable) = decode_sampler_descriptor(descriptor);
        Ok(
            SamplerCreation {
                request: GPURequest::CreateSampler {
                    device_id: self.device,
                    sampler_id,
                    descriptor: desc,
                },
                compare_enable,
            },
        )
    }
}

/// Element-wise copy of declared layout entries, for the handle's own list.
fn copy_layout_entries(v: &Vec<GPUBindGroupLayoutEntry>) -> (r: Vec<GPUBindGroupLayoutEntry>)
    ensures
        r@ == v@,
{
    let mut r: Vec<GPUBindGroupLayoutEntry> = Vec::new();
    let mut i: usize = 0;
    while i < v.len()
        invariant
            i <= v@.len(),
            r@ == v@.take(i as int),
        decreases v@.len() - i,
    {
        r.push(v[i]);
        proof {
            assert(v@.take(i + 1) =~= v@.take(i as int).push(v@[i as int]));
        }
        i = i + 1;
    }
    proof {
        assert(v@.take(v@.len() as int) =~= v@);
    }
    r
}

/// Element-wise copy of a resource-identifier list.
fn copy_resource_ids(v: &Vec<ResourceId>) -> (r: Vec<ResourceId>)
    ensures
        r@ == v@,
{
    let mut r: Vec<ResourceId> = Vec::new();
    let mut i: usize = 0;
    while i < v.len()
        invariant
            i <= v@.len(),
            r@ == v@.take(i as int),
        decreases v@.len() - i,
    {
        r.push(v[i]);
        proof {
            assert(v@.take(i + 1) =~= v@.take(i as int).push(v@[i as int]));
        }
        i = i + 1;
    }
    proof {
        assert(v@.take(v@.len() as int) =~= v@);
    }
    r
}

} // verus!
