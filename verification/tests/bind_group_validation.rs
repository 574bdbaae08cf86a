use gpu_device::bind_group::{
    validate_bind_group, GPUBindGroupDescriptor, GPUBindGroupEntry, GPUBufferBinding,
};
use gpu_device::bind_group_layout::{
    GPUBindGroupLayout, GPUBindGroupLayoutEntry, GPUBindingType,
};
use gpu_device::buffer::{GPUBuffer, GPUBufferState};
use gpu_device::error::DeviceError;
use gpu_device::flags::{BUFFER_USAGE_COPY_DST, BUFFER_USAGE_STORAGE, BUFFER_USAGE_UNIFORM, SHADER_STAGE_VERTEX};
use gpu_device::ids::{Backend, DeviceId, IdKind, ResourceId};

fn device_id() -> DeviceId {
    DeviceId { backend: Backend::Vulkan, raw: 1 }
}

fn buffer(serial: u64, size: u64, usage: u32) -> GPUBuffer {
    GPUBuffer::new(
        ResourceId { kind: IdKind::Buffer, backend: Backend::Vulkan, serial },
        device_id(),
        GPUBufferState::Unmapped,
        size,
        usage,
        true,
    )
}

fn uniform_layout(entries: Vec<GPUBindGroupLayoutEntry>) -> GPUBindGroupLayout {
    GPUBindGroupLayout::new(
        ResourceId { kind: IdKind::BindGroupLayout, backend: Backend::Vulkan, serial: 0 },
        entries,
        true,
    )
}

fn layout_entry(binding: u32, type_: GPUBindingType) -> GPUBindGroupLayoutEntry {
    GPUBindGroupLayoutEntry {
        binding,
        visibility: SHADER_STAGE_VERTEX,
        type_,
        has_dynamic_offset: false,
        multisampled: false,
    }
}

fn binding(slot: u32, buf: GPUBuffer, offset: u64, size: Option<u64>) -> GPUBindGroupEntry {
    GPUBindGroupEntry { binding: slot, resource: GPUBufferBinding { buffer: buf, offset, size } }
}

#[test]
fn count_mismatch_invalid() {
    let descriptor = GPUBindGroupDescriptor {
        layout: uniform_layout(vec![
            layout_entry(0, GPUBindingType::UniformBuffer),
            layout_entry(1, GPUBindingType::UniformBuffer),
        ]),
        entries: vec![binding(0, buffer(0, 512, BUFFER_USAGE_UNIFORM), 0, None)],
    };
    let (valid, _) = validate_bind_group(&descriptor).unwrap();
    assert!(!valid);
}

#[test]
fn matching_binding_valid() {
    let descriptor = GPUBindGroupDescriptor {
        layout: uniform_layout(vec![layout_entry(0, GPUBindingType::UniformBuffer)]),
        entries: vec![binding(
            0,
            buffer(0, 512, BUFFER_USAGE_UNIFORM | BUFFER_USAGE_COPY_DST),
            256,
            Some(256),
        )],
    };
    let (valid, normalized) = validate_bind_group(&descriptor).unwrap();
    assert!(valid);
    assert_eq!(normalized.len(), 1);
    assert_eq!(normalized[0].binding, 0);
    assert_eq!(normalized[0].resource.offset, 256);
    assert_eq!(normalized[0].resource.size, 256);
}

#[test]
fn omitted_size_covers_whole_buffer() {
    let descriptor = GPUBindGroupDescriptor {
        layout: uniform_layout(vec![layout_entry(0, GPUBindingType::UniformBuffer)]),
        entries: vec![binding(0, buffer(0, 512, BUFFER_USAGE_UNIFORM), 0, None)],
    };
    let (valid, normalized) = validate_bind_group(&descriptor).unwrap();
    assert!(valid);
    assert_eq!(normalized[0].resource.size, 512);
}

#[test]
fn misaligned_offset_invalid() {
    let descriptor = GPUBindGroupDescriptor {
        layout: uniform_layout(vec![layout_entry(0, GPUBindingType::UniformBuffer)]),
        entries: vec![binding(0, buffer(0, 512, BUFFER_USAGE_UNIFORM), 128, Some(64))],
    };
    let (valid, _) = validate_bind_group(&descriptor).unwrap();
    assert!(!valid);
}

#[test]
fn binding_past_end_of_buffer_invalid() {
    let descriptor = GPUBindGroupDescriptor {
        layout: uniform_layout(vec![layout_entry(0, GPUBindingType::UniformBuffer)]),
        entries: vec![binding(0, buffer(0, 512, BUFFER_USAGE_UNIFORM), 256, Some(512))],
    };
    let (valid, _) = validate_bind_group(&descriptor).unwrap();
    assert!(!valid);
}

#[test]
fn offset_not_inside_buffer_invalid() {
    let descriptor = GPUBindGroupDescriptor {
        layout: uniform_layout(vec![layout_entry(0, GPUBindingType::UniformBuffer)]),
        entries: vec![binding(0, buffer(0, 256, BUFFER_USAGE_UNIFORM), 256, Some(0))],
    };
    let (valid, _) = validate_bind_group(&descriptor).unwrap();
    assert!(!valid);
}

#[test]
fn overflowing_offset_plus_size_invalid() {
    let descriptor = GPUBindGroupDescriptor {
        layout: uniform_layout(vec![layout_entry(0, GPUBindingType::UniformBuffer)]),
        entries: vec![binding(
            0,
            buffer(0, u64::MAX, BUFFER_USAGE_UNIFORM),
            u64::MAX - 256,
            Some(512),
        )],
    };
    let (valid, _) = validate_bind_group(&descriptor).unwrap();
    assert!(!valid);
}

#[test]
fn missing_required_usage_flag_invalid() {
    // A storage-kind layout entry demands the storage usage flag.
    let descriptor = GPUBindGroupDescriptor {
        layout: uniform_layout(vec![layout_entry(0, GPUBindingType::StorageBuffer)]),
        entries: vec![binding(0, buffer(0, 512, BUFFER_USAGE_UNIFORM), 0, None)],
    };
    let (valid, _) = validate_bind_group(&descriptor).unwrap();
    assert!(!valid);

    let descriptor = GPUBindGroupDescriptor {
        layout: uniform_layout(vec![layout_entry(0, GPUBindingType::StorageBuffer)]),
        entries: vec![binding(0, buffer(0, 512, BUFFER_USAGE_STORAGE), 0, None)],
    };
    let (valid, _) = validate_bind_group(&descriptor).unwrap();
    assert!(valid);
}

#[test]
fn slot_absent_from_layout_invalid() {
    let descriptor = GPUBindGroupDescriptor {
        layout: uniform_layout(vec![layout_entry(3, GPUBindingType::UniformBuffer)]),
        entries: vec![binding(0, buffer(0, 512, BUFFER_USAGE_UNIFORM), 0, None)],
    };
    let (valid, _) = validate_bind_group(&descriptor).unwrap();
    assert!(!valid);
}

#[test]
fn unsupported_layout_kind_reports_not_implemented() {
    let descriptor = GPUBindGroupDescriptor {
        layout: uniform_layout(vec![layout_entry(0, GPUBindingType::SampledTexture)]),
        entries: vec![binding(0, buffer(0, 512, BUFFER_USAGE_UNIFORM), 0, None)],
    };
    assert_eq!(validate_bind_group(&descriptor), Err(DeviceError::UnimplementedBindingKind));
}
