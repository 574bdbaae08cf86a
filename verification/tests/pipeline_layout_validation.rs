use gpu_device::bind_group_layout::{
    GPUBindGroupLayout, GPUBindGroupLayoutEntry, GPUBindingType,
};
use gpu_device::flags::SHADER_STAGE_VERTEX;
use gpu_device::ids::{Backend, IdKind, ResourceId};
use gpu_device::limits::Limits;
use gpu_device::pipeline_layout::{validate_pipeline_layout, GPUPipelineLayoutDescriptor};

fn layout_id(serial: u64) -> ResourceId {
    ResourceId { kind: IdKind::BindGroupLayout, backend: Backend::Vulkan, serial }
}

fn plain_layout(serial: u64, valid: bool) -> GPUBindGroupLayout {
    GPUBindGroupLayout::new(layout_id(serial), Vec::new(), valid)
}

fn dynamic_uniform_layout(serial: u64, dynamic_entries: u32) -> GPUBindGroupLayout {
    let mut bindings = Vec::new();
    for i in 0..dynamic_entries {
        bindings.push(GPUBindGroupLayoutEntry {
            binding: i,
            visibility: SHADER_STAGE_VERTEX,
            type_: GPUBindingType::UniformBuffer,
            has_dynamic_offset: true,
            multisampled: false,
        });
    }
    GPUBindGroupLayout::new(layout_id(serial), bindings, true)
}

#[test]
fn three_layouts_against_max_two_invalid() {
    let mut limits = Limits::defaults();
    limits.max_bind_groups = 2;
    let descriptor = GPUPipelineLayoutDescriptor {
        bind_group_layouts: vec![plain_layout(0, true), plain_layout(1, true), plain_layout(2, true)],
    };
    let (valid, ids) = validate_pipeline_layout(&descriptor, &limits);
    assert!(!valid);
    // All three layouts are themselves valid, so all three identifiers are kept.
    assert_eq!(ids.len(), 3);
}

#[test]
fn within_max_bind_groups_valid() {
    let descriptor = GPUPipelineLayoutDescriptor {
        bind_group_layouts: vec![plain_layout(0, true), plain_layout(1, true)],
    };
    let (valid, ids) = validate_pipeline_layout(&descriptor, &Limits::defaults());
    assert!(valid);
    assert_eq!(ids, vec![layout_id(0), layout_id(1)]);
}

#[test]
fn invalid_referenced_layout_dropped_and_invalidates() {
    let descriptor = GPUPipelineLayoutDescriptor {
        bind_group_layouts: vec![plain_layout(0, true), plain_layout(1, false), plain_layout(2, true)],
    };
    let (valid, ids) = validate_pipeline_layout(&descriptor, &Limits::defaults());
    assert!(!valid);
    assert_eq!(ids, vec![layout_id(0), layout_id(2)]);
}

#[test]
fn dynamic_uniform_quota_summed_across_layouts() {
    let mut limits = Limits::defaults();
    limits.max_dynamic_uniform_buffers_per_pipeline_layout = 3;
    let descriptor = GPUPipelineLayoutDescriptor {
        bind_group_layouts: vec![dynamic_uniform_layout(0, 2), dynamic_uniform_layout(1, 2)],
    };
    let (valid, _) = validate_pipeline_layout(&descriptor, &limits);
    assert!(!valid);

    let descriptor = GPUPipelineLayoutDescriptor {
        bind_group_layouts: vec![dynamic_uniform_layout(0, 2), dynamic_uniform_layout(1, 1)],
    };
    let (valid, _) = validate_pipeline_layout(&descriptor, &limits);
    assert!(valid);
}

#[test]
fn invalid_layout_still_counts_against_dynamic_quota() {
    let mut limits = Limits::defaults();
    limits.max_dynamic_uniform_buffers_per_pipeline_layout = 1;
    let mut broken = dynamic_uniform_layout(0, 2);
    broken.valid = false;
    let descriptor = GPUPipelineLayoutDescriptor { bind_group_layouts: vec![broken] };
    let (valid, ids) = validate_pipeline_layout(&descriptor, &limits);
    assert!(!valid);
    assert!(ids.is_empty());
}
