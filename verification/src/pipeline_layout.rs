//! Pipeline-layout creation: bounds the number of referenced bind-group
//! layouts, re-derives the pipeline-wide dynamic-offset quotas across every
//! referenced layout, and keeps only the valid layouts' identifiers for the
//! backend request.

use vstd::prelude::*;

use crate::bind_group_layout::{count_dynamic_use, dynamic_use, GPUBindGroupLayout, ResourceCategory};
use crate::ids::ResourceId;
use crate::limits::Limits;

verus! {

/// Caller-supplied description of a pipeline layout: the bind-group layouts
/// it references, in order.
#[derive(Clone, PartialEq, Eq, Debug)]
pub struct GPUPipelineLayoutDescriptor {
    pub bind_group_layouts: Vec<GPUBindGroupLayout>,
}

/// The pipeline-layout handle returned to the caller: the allocated
/// identifier, the identifiers of the valid referenced layouts, and the
/// permanent validity verdict.
#[derive(Clone, PartialEq, Eq, Debug)]
pub struct GPUPipelineLayout {
    pub id: ResourceId,
    pub bind_group_layouts: Vec<ResourceId>,
    pub valid: bool,
}

impl GPUPipelineLayout {
    /// Wrap a backend acknowledgment, the retained layout identifiers and
    /// the verdict into the pipeline-layout handle.
    pub fn new(id: ResourceId, bind_group_layouts: Vec<ResourceId>, valid: bool) -> (r:
        GPUPipelineLayout)
        ensures
            r.id == id,
            r.bind_group_layouts@ == bind_group_layouts@,
            r.valid == valid,
    {
        GPUPipelineLayout { id, bind_group_layouts, valid }
    }
}

/// Dynamic-offset bindings of one category declared across every referenced
/// layout, the invalid ones included: an invalid layout still counts against
/// the pipeline-wide quotas.
pub open spec fn total_dynamic_use(ls: Seq<GPUBindGroupLayout>, c: ResourceCategory) -> nat
    decreases ls.len(),
{
    if ls.len() == 0 {
        0
    } else {
        total_dynamic_use(ls.drop_last(), c) + dynamic_use(ls.last().bindings@, c)
    }
}

/// Every referenced layout carries a valid verdict.
pub open spec fn all_layouts_valid(ls: Seq<GPUBindGroupLayout>) -> bool {
    forall|i: int| 0 <= i < ls.len() ==> (#[trigger] ls[i]).valid
}

/// Full verdict on a pipeline layout: not more referenced layouts than the
/// device allows, every referenced layout valid, and both pipeline-wide
/// dynamic-offset quotas respected.
pub open spec fn pipeline_layout_valid(ls: Seq<GPUBindGroupLayout>, lim: Limits) -> bool {
    &&& ls.len() <= lim.max_bind_groups
    &&& all_layouts_valid(ls)
    &&& total_dynamic_use(ls, ResourceCategory::UniformBuffers)
        <= lim.max_dynamic_uniform_buffers_per_pipeline_layout
    &&& total_dynamic_use(ls, ResourceCategory::StorageBuffers)
        <= lim.max_dynamic_storage_buffers_per_pipeline_layout
}

/// Identifiers of the valid referenced layouts, in order; the invalid ones
/// are dropped from the list sent to the backend.
pub open spec fn valid_layout_ids(ls: Seq<GPUBindGroupLayout>) -> Seq<ResourceId>
    decreases ls.len(),
{
    if ls.len() == 0 {
        Seq::empty()
    } else {
        valid_layout_ids(ls.drop_last()) + if ls.last().valid {
            seq![ls.last().id]
        } else {
            Seq::empty()
        }
    }
}

/// Check a pipeline-layout descriptor against the limit table and produce
/// the verdict together with the identifiers of the valid referenced
/// layouts.
pub fn validate_pipeline_layout(descriptor: &GPUPipelineLayoutDescriptor, limits: &Limits) -> (r: (
    bool,
    Vec<ResourceId>,
))
    ensures
        r.0 == pipeline_layout_valid(descriptor.bind_group_layouts@, *limits),
        r.1@ == valid_layout_ids(descriptor.bind_group_layouts@),
{
    let layouts = &descriptor.bind_group_layouts;
    let mut ids: Vec<ResourceId> = Vec::new();
    let mut all_valid = true;
    let mut uniform_ok = true;
    let mut storage_ok = true;
    let mut uniform_left: u32 = limits.max_dynamic_uniform_buffers_per_pipeline_layout;
    let mut storage_left: u32 = limits.max_dynamic_storage_buffers_per_pipeline_layout;
    let mut i: usize = 0;
    while i < layouts.len()
        invariant
            i <= layouts@.len(),
            ids@ == valid_layout_ids(layouts@.take(i as int)),
            all_valid == all_layouts_valid(layouts@.take(i as int)),
            uniform_ok == (total_dynamic_use(layouts@.take(i as int), ResourceCategory::UniformBuffers)
                <= limits.max_dynamic_uniform_buffers_per_pipeline_layout),
            uniform_ok ==> uniform_left == limits.max_dynamic_uniform_buffers_per_pipeline_layout
                - total_dynamic_use(layouts@.take(i as int), ResourceCategory::UniformBuffers),
            storage_ok == (total_dynamic_use(layouts@.take(i as int), ResourceCategory::StorageBuffers)
                <= limits.max_dynamic_storage_buffers_per_pipeline_layout),
            storage_ok ==> storage_left == limits.max_dynamic_storage_buffers_per_pipeline_layout
                - total_dynamic_use(layouts@.take(i as int), ResourceCategory::StorageBuffers),
        decreases layouts@.len() - i,
    {
        let layout = &layouts[i];
        if layout.valid {
            ids.push(layout.id);
        }
        let dynamic_uniform = count_dynamic_use(&layout.bindings, ResourceCategory::UniformBuffers);
        let dynamic_storage = count_dynamic_use(&layout.bindings, ResourceCategory::StorageBuffers);
        all_valid = all_valid && layout.valid;
        if uniform_ok {
            if dynamic_uniform > uniform_left as usize {
                uniform_ok = false;
            } else {
                uniform_left = uniform_left - dynamic_uniform as u32;
            }
        }
        if storage_ok {
            if dynamic_storage > storage_left as usize {
                storage_ok = false;
            } else {
                storage_left = storage_left - dynamic_storage as u32;
            }
        }
        proof {
            assert(layouts@.take(i + 1).drop_last() =~= layouts@.take(i as int));
            assert(layouts@.take(i + 1).last() == layouts@[i as int]);
            if layouts@[i as int].valid {
                assert(valid_layout_ids(layouts@.take(i + 1)) =~= valid_layout_ids(
                    layouts@.take(i as int),
                ).push(layouts@[i as int].id));
            } else {
                assert(valid_layout_ids(layouts@.take(i + 1)) =~= valid_layout_ids(
                    layouts@.take(i as int),
                ));
            }
        }
        i = i + 1;
    }
    proof {
        assert(layouts@.take(layouts@.len() as int) =~= layouts@);
    }
    let valid = layouts.len() <= limits.max_bind_groups as usize && all_valid && uniform_ok
        && storage_ok;
    (valid, ids)
}

/// One invalid referenced layout makes the whole pipeline layout invalid:
/// its identifier is dropped from the backend request, yet it still counts
/// against the all-references-resolved check.
pub proof fn lemma_invalid_layout_invalidates(ls: Seq<GPUBindGroupLayout>, lim: Limits, i: int)
    requires
        0 <= i < ls.len(),
        !ls[i].valid,
    ensures
        !pipeline_layout_valid(ls, lim),
{
}

/// Referencing more bind-group layouts than the device's bind-group ceiling
/// makes the pipeline layout invalid.
pub proof fn lemma_too_many_layouts_invalid(ls: Seq<GPUBindGroupLayout>, lim: Limits)
    requires
        ls.len() > lim.max_bind_groups,
    ensures
        !pipeline_layout_valid(ls, lim),
{
}

} // verus!
