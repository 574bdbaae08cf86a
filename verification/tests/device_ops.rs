use gpu_device::bind_group::{GPUBindGroup, GPUBindGroupDescriptor, GPUBindGroupEntry, GPUBufferBinding};
use gpu_device::bind_group_layout::{
    BindingType, GPUBindGroupLayout, GPUBindGroupLayoutDescriptor, GPUBindGroupLayoutEntry,
    GPUBindingType,
};
use gpu_device::buffer::{BufferDescriptor, GPUBuffer, GPUBufferDescriptor, GPUBufferState};
use gpu_device::command_encoder::GPUCommandEncoder;
use gpu_device::compute_pipeline::{
    GPUComputePipeline, GPUComputePipelineDescriptor, GPUProgrammableStageDescriptor,
};
use gpu_device::device::{GPUDevice, GPURequest};
use gpu_device::error::DeviceError;
use gpu_device::flags::{BUFFER_USAGE_UNIFORM, SHADER_STAGE_VERTEX};
use gpu_device::ids::{Backend, DeviceId, IdHub, IdKind, QueueId, ResourceId};
use gpu_device::limits::Limits;
use gpu_device::pipeline_layout::GPUPipelineLayout;
use gpu_device::sampler::{
    CompareFunction, GPUAddressMode, GPUCompareFunction, GPUFilterMode, GPUSampler,
    GPUSamplerDescriptor,
};
use gpu_device::shader::{GPUShaderModule, GPUShaderModuleDescriptor, ShaderCode};

fn device() -> GPUDevice {
    GPUDevice::new(
        DeviceId { backend: Backend::Vulkan, raw: 7 },
        Limits::defaults(),
        QueueId { backend: Backend::Vulkan, raw: 7 },
    )
}

#[test]
fn create_buffer_builds_request_and_metadata() {
    let device = device();
    let mut hub = IdHub::new();
    let descriptor = GPUBufferDescriptor { size: 64, usage: BUFFER_USAGE_UNIFORM };
    let creation = device.create_buffer(&mut hub, &descriptor).unwrap();
    assert!(creation.valid);
    assert_eq!(creation.size, 64);
    assert_eq!(creation.usage, BUFFER_USAGE_UNIFORM);
    let expected_id = ResourceId { kind: IdKind::Buffer, backend: Backend::Vulkan, serial: 0 };
    assert_eq!(
        creation.request,
        GPURequest::CreateBuffer {
            device_id: device.device,
            buffer_id: expected_id,
            descriptor: BufferDescriptor { size: 64, usage: BUFFER_USAGE_UNIFORM },
        }
    );
    // The host wraps the acknowledged identifier into the handle.
    let handle = GPUBuffer::new(
        expected_id,
        device.device,
        GPUBufferState::Unmapped,
        creation.size,
        creation.usage,
        creation.valid,
    );
    assert!(handle.valid);
    assert_eq!(handle.id, expected_id);
}

#[test]
fn invalid_buffer_still_planned_as_inert_request() {
    let device = device();
    let mut hub = IdHub::new();
    let descriptor = GPUBufferDescriptor { size: 0, usage: BUFFER_USAGE_UNIFORM };
    let creation = device.create_buffer(&mut hub, &descriptor).unwrap();
    assert!(!creation.valid);
    // The handle keeps the requested metadata even when invalid.
    assert_eq!(creation.size, 0);
    assert_eq!(creation.usage, BUFFER_USAGE_UNIFORM);
    match creation.request {
        GPURequest::CreateBuffer { descriptor, .. } => {
            assert_eq!(descriptor, BufferDescriptor { size: 0, usage: 0 });
        },
        other => panic!("unexpected request {:?}", other),
    }
}

#[test]
fn create_buffer_mapped_carries_normalized_metadata() {
    let device = device();
    let mut hub = IdHub::new();
    let descriptor = GPUBufferDescriptor { size: 32, usage: 0x400 };
    let creation = device.create_buffer_mapped(&mut hub, &descriptor).unwrap();
    assert!(!creation.valid);
    // A mapped creation wraps the normalized descriptor values instead of
    // the requested ones.
    assert_eq!(creation.size, 0);
    assert_eq!(creation.usage, 0);
    assert!(matches!(creation.request, GPURequest::CreateBufferMapped { .. }));
}

#[test]
fn buffer_serials_step_across_calls() {
    let device = device();
    let mut hub = IdHub::new();
    let descriptor = GPUBufferDescriptor { size: 8, usage: BUFFER_USAGE_UNIFORM };
    let first = device.create_buffer(&mut hub, &descriptor).unwrap();
    let second = device.create_buffer_mapped(&mut hub, &descriptor).unwrap();
    let serial_of = |request: &GPURequest| match request {
        GPURequest::CreateBuffer { buffer_id, .. } => buffer_id.serial,
        GPURequest::CreateBufferMapped { buffer_id, .. } => buffer_id.serial,
        other => panic!("unexpected request {:?}", other),
    };
    assert_eq!(serial_of(&first.request), 0);
    assert_eq!(serial_of(&second.request), 1);
}

#[test]
fn create_bind_group_layout_normalizes_and_keeps_declared_entries() {
    let device = device();
    let mut hub = IdHub::new();
    let entries = vec![GPUBindGroupLayoutEntry {
        binding: 2,
        visibility: SHADER_STAGE_VERTEX,
        type_: GPUBindingType::StorageBuffer,
        has_dynamic_offset: false,
        multisampled: false,
    }];
    let descriptor = GPUBindGroupLayoutDescriptor { entries: entries.clone() };
    let creation = device.create_bind_group_layout(&mut hub, &descriptor).unwrap();
    assert!(creation.valid);
    assert_eq!(creation.bindings, entries);
    match &creation.request {
        GPURequest::CreateBindGroupLayout { device_id, bind_group_layout_id, bindings } => {
            assert_eq!(*device_id, device.device);
            assert_eq!(bind_group_layout_id.kind, IdKind::BindGroupLayout);
            assert_eq!(bind_group_layout_id.serial, 0);
            assert_eq!(bindings.len(), 1);
            assert_eq!(bindings[0].ty, BindingType::StorageBuffer);
        },
        other => panic!("unexpected request {:?}", other),
    }
    let handle = GPUBindGroupLayout::new(
        ResourceId { kind: IdKind::BindGroupLayout, backend: Backend::Vulkan, serial: 0 },
        creation.bindings,
        creation.valid,
    );
    assert!(handle.valid);
}

#[test]
fn create_pipeline_layout_keeps_valid_layout_ids() {
    let device = device();
    let mut hub = IdHub::new();
    let good = GPUBindGroupLayout::new(
        ResourceId { kind: IdKind::BindGroupLayout, backend: Backend::Vulkan, serial: 0 },
        Vec::new(),
        true,
    );
    let bad = GPUBindGroupLayout::new(
        ResourceId { kind: IdKind::BindGroupLayout, backend: Backend::Vulkan, serial: 1 },
        Vec::new(),
        false,
    );
    let descriptor = gpu_device::pipeline_layout::GPUPipelineLayoutDescriptor {
        bind_group_layouts: vec![good.clone(), bad],
    };
    let creation = device.create_pipeline_layout(&mut hub, &descriptor).unwrap();
    assert!(!creation.valid);
    assert_eq!(creation.bind_group_layouts, vec![good.id]);
    match &creation.request {
        GPURequest::CreatePipelineLayout { bind_group_layouts, pipeline_layout_id, .. } => {
            assert_eq!(*bind_group_layouts, vec![good.id]);
            assert_eq!(pipeline_layout_id.kind, IdKind::PipelineLayout);
        },
        other => panic!("unexpected request {:?}", other),
    }
    let handle = GPUPipelineLayout::new(
        ResourceId { kind: IdKind::PipelineLayout, backend: Backend::Vulkan, serial: 0 },
        creation.bind_group_layouts,
        creation.valid,
    );
    assert!(!handle.valid);
}

#[test]
fn create_bind_group_plans_normalized_bindings() {
    let device = device();
    let mut hub = IdHub::new();
    let layout = GPUBindGroupLayout::new(
        ResourceId { kind: IdKind::BindGroupLayout, backend: Backend::Vulkan, serial: 4 },
        vec![GPUBindGroupLayoutEntry {
            binding: 0,
            visibility: SHADER_STAGE_VERTEX,
            type_: GPUBindingType::UniformBuffer,
            has_dynamic_offset: false,
            multisampled: false,
        }],
        true,
    );
    let buf = GPUBuffer::new(
        ResourceId { kind: IdKind::Buffer, backend: Backend::Vulkan, serial: 9 },
        device.device,
        GPUBufferState::Unmapped,
        1024,
        BUFFER_USAGE_UNIFORM,
        true,
    );
    let descriptor = GPUBindGroupDescriptor {
        layout,
        entries: vec![GPUBindGroupEntry {
            binding: 0,
            resource: GPUBufferBinding { buffer: buf, offset: 0, size: None },
        }],
    };
    let creation = device.create_bind_group(&mut hub, &descriptor).unwrap();
    assert!(creation.valid);
    match &creation.request {
        GPURequest::CreateBindGroup { bind_group_layout_id, bindings, bind_group_id, .. } => {
            assert_eq!(*bind_group_layout_id, descriptor.layout.id);
            assert_eq!(bind_group_id.kind, IdKind::BindGroup);
            assert_eq!(bindings[0].resource.buffer, buf.id);
            assert_eq!(bindings[0].resource.size, 1024);
        },
        other => panic!("unexpected request {:?}", other),
    }
    let handle = GPUBindGroup::new(
        ResourceId { kind: IdKind::BindGroup, backend: Backend::Vulkan, serial: 0 },
        creation.valid,
    );
    assert!(handle.valid);
}

#[test]
fn create_bind_group_unsupported_kind_fails_without_allocating() {
    let device = device();
    let mut hub = IdHub::new();
    let layout = GPUBindGroupLayout::new(
        ResourceId { kind: IdKind::BindGroupLayout, backend: Backend::Vulkan, serial: 4 },
        vec![GPUBindGroupLayoutEntry {
            binding: 0,
            visibility: SHADER_STAGE_VERTEX,
            type_: GPUBindingType::Sampler,
            has_dynamic_offset: false,
            multisampled: false,
        }],
        true,
    );
    let descriptor = GPUBindGroupDescriptor { layout, entries: Vec::new() };
    assert_eq!(
        device.create_bind_group(&mut hub, &descriptor),
        Err(DeviceError::UnimplementedBindingKind)
    );
    // Nothing was allocated: the next bind-group identifier still has serial 0.
    assert_eq!(hub.allocate(IdKind::BindGroup, Backend::Vulkan).unwrap().serial, 0);
}

#[test]
fn create_shader_module_encodes_text() {
    let device = device();
    let mut hub = IdHub::new();
    let descriptor = GPUShaderModuleDescriptor { code: ShaderCode::Text(String::from("ab")) };
    let creation = device.create_shader_module(&mut hub, &descriptor).unwrap();
    match &creation.request {
        GPURequest::CreateShaderModule { program, program_id, .. } => {
            assert_eq!(*program, vec![97, 98]);
            assert_eq!(program_id.kind, IdKind::ShaderModule);
        },
        other => panic!("unexpected request {:?}", other),
    }
}

#[test]
fn create_compute_pipeline_resolves_references() {
    let device = device();
    let mut hub = IdHub::new();
    let layout = GPUPipelineLayout::new(
        ResourceId { kind: IdKind::PipelineLayout, backend: Backend::Vulkan, serial: 3 },
        Vec::new(),
        true,
    );
    let module = GPUShaderModule::new(ResourceId {
        kind: IdKind::ShaderModule,
        backend: Backend::Vulkan,
        serial: 5,
    });
    let descriptor = GPUComputePipelineDescriptor {
        layout,
        compute_stage: GPUProgrammableStageDescriptor {
            module,
            entry_point: String::from("main"),
        },
    };
    let creation = device.create_compute_pipeline(&mut hub, &descriptor).unwrap();
    match &creation.request {
        GPURequest::CreateComputePipeline {
            pipeline_layout_id,
            program_id,
            entry_point,
            compute_pipeline_id,
            ..
        } => {
            assert_eq!(*pipeline_layout_id, descriptor.layout.id);
            assert_eq!(*program_id, module.id);
            assert_eq!(entry_point, "main");
            assert_eq!(compute_pipeline_id.kind, IdKind::ComputePipeline);
        },
        other => panic!("unexpected request {:?}", other),
    }
    let handle = GPUComputePipeline::new(ResourceId {
        kind: IdKind::ComputePipeline,
        backend: Backend::Vulkan,
        serial: 0,
    });
    assert_eq!(handle.id.serial, 0);
}

#[test]
fn create_command_encoder_mints_identifier() {
    let device = device();
    let mut hub = IdHub::new();
    let creation = device.create_command_encoder(&mut hub).unwrap();
    assert_eq!(
        creation.request,
        GPURequest::CreateCommandEncoder {
            device_id: device.device,
            command_encoder_id: ResourceId {
                kind: IdKind::CommandEncoder,
                backend: Backend::Vulkan,
                serial: 0,
            },
        }
    );
    let handle = GPUCommandEncoder::new(
        ResourceId { kind: IdKind::CommandEncoder, backend: Backend::Vulkan, serial: 0 },
        true,
    );
    assert!(handle.valid);
}

#[test]
fn create_sampler_decodes_descriptor() {
    let device = device();
    let mut hub = IdHub::new();
    let descriptor = GPUSamplerDescriptor {
        address_mode_u: GPUAddressMode::ClampToEdge,
        address_mode_v: GPUAddressMode::ClampToEdge,
        address_mode_w: GPUAddressMode::ClampToEdge,
        mag_filter: GPUFilterMode::Nearest,
        min_filter: GPUFilterMode::Nearest,
        mipmap_filter: GPUFilterMode::Nearest,
        compare: Some(GPUCompareFunction::LessEqual),
    };
    let creation = device.create_sampler(&mut hub, &descriptor).unwrap();
    assert!(creation.compare_enable);
    match &creation.request {
        GPURequest::CreateSampler { descriptor: decoded, sampler_id, .. } => {
            assert_eq!(decoded.compare, CompareFunction::LessEqual);
            assert_eq!(sampler_id.kind, IdKind::Sampler);
        },
        other => panic!("unexpected request {:?}", other),
    }
    let handle = GPUSampler::new(
        device.device,
        creation.compare_enable,
        ResourceId { kind: IdKind::Sampler, backend: Backend::Vulkan, serial: 0 },
        true,
    );
    assert!(handle.valid);
    assert!(handle.compare_enable);
}

#[test]
fn label_round_trips_and_queue_is_fixed() {
    let mut device = device();
    assert!(device.get_label().is_none());
    device.set_label(Some(String::from("main device")));
    assert_eq!(device.get_label().as_deref(), Some("main device"));
    device.set_label(None);
    assert!(device.get_label().is_none());
    assert_eq!(device.default_queue(), QueueId { backend: Backend::Vulkan, raw: 7 });
}
