//! Bind-group-layout creation: entry decoding, per-stage resource accounting
//! against the device limits, dynamic-offset quotas, and the normalized
//! entries sent to the backend.

use vstd::prelude::*;

use crate::flags::{
    known_shader_stages, shader_stages_decode, SHADER_STAGE_COMPUTE, SHADER_STAGE_FRAGMENT,
    SHADER_STAGE_VERTEX,
};
use crate::ids::ResourceId;
use crate::limits::Limits;

verus! {

/// Binding kind declared by the caller for one layout entry.
#[derive(Clone, Copy, PartialEq, Eq, Structural, Debug)]
pub enum GPUBindingType {
    UniformBuffer,
    StorageBuffer,
    ReadonlyStorageBuffer,
    SampledTexture,
    ReadonlyStorageTexture,
    WriteonlyStorageTexture,
    Sampler,
}

/// Backend binding kind an entry decodes to.
#[derive(Clone, Copy, PartialEq, Eq, Structural, Debug)]
pub enum BindingType {
    UniformBuffer,
    StorageBuffer,
    ReadonlyStorageBuffer,
    SampledTexture,
    ReadonlyStorageTexture,
    WriteonlyStorageTexture,
    Sampler,
}

/// Component type filled in for texture entries. The descriptor carries no
/// per-entry texture metadata yet, so every entry gets this stand-in.
#[derive(Clone, Copy, PartialEq, Eq, Structural, Debug)]
pub enum TextureComponentType {
    Float,
}

/// Storage-texture format filled in for texture entries; same stand-in.
#[derive(Clone, Copy, PartialEq, Eq, Structural, Debug)]
pub enum TextureFormat {
    Rgba8UnormSrgb,
}

/// Texture view dimension filled in for texture entries; same stand-in.
#[derive(Clone, Copy, PartialEq, Eq, Structural, Debug)]
pub enum TextureViewDimension {
    D2,
}

/// One caller-supplied layout entry: binding slot number, visibility stage
/// bitmask, binding kind, dynamic-offset flag and multisample flag.
#[derive(Clone, Copy, PartialEq, Eq, Structural, Debug)]
pub struct GPUBindGroupLayoutEntry {
    pub binding: u32,
    pub visibility: u32,
    pub type_: GPUBindingType,
    pub has_dynamic_offset: bool,
    pub multisampled: bool,
}

/// Caller-supplied description of a bind-group layout: its ordered entries.
#[derive(Clone, PartialEq, Eq, Debug)]
pub struct GPUBindGroupLayoutDescriptor {
    pub entries: Vec<GPUBindGroupLayoutEntry>,
}

/// One backend-ready layout entry, with the decoded visibility, the decoded
/// binding kind and the stand-in texture metadata filled in.
#[derive(Clone, Copy, PartialEq, Eq, Structural, Debug)]
pub struct BindGroupLayoutEntry {
    pub binding: u32,
    pub visibility: u32,
    pub ty: BindingType,
    pub has_dynamic_offset: bool,
    pub multisampled: bool,
    pub texture_component_type: TextureComponentType,
    pub storage_texture_format: TextureFormat,
    pub view_dimension: TextureViewDimension,
}

/// The bind-group-layout handle returned to the caller: the allocated
/// identifier, the entries it declares, and the permanent validity verdict.
#[derive(Clone, PartialEq, Eq, Debug)]
pub struct GPUBindGroupLayout {
    pub id: ResourceId,
    pub bindings: Vec<GPUBindGroupLayoutEntry>,
    pub valid: bool,
}

impl GPUBindGroupLayout {
    /// Wrap a backend acknowledgment, the declared entries and the verdict
    /// into the layout handle.
    pub fn new(id: ResourceId, bindings: Vec<GPUBindGroupLayoutEntry>, valid: bool) -> (r:
        GPUBindGroupLayout)
        ensures
            r.id == id,
            r.bindings@ == bindings@,
            r.valid == valid,
    {
        GPUBindGroupLayout { id, bindings, valid }
    }
}

/// The bindable-resource kinds whose per-stage consumption the limit table
/// bounds.
#[derive(Clone, Copy, PartialEq, Eq, Structural, Debug)]
pub enum ResourceCategory {
    UniformBuffers,
    StorageBuffers,
    SampledTextures,
    StorageTextures,
    Samplers,
}

/// Which category a binding kind consumes from. Read-only storage buffers
/// count as storage buffers; both storage-texture kinds count as storage
/// textures.
pub open spec fn in_category(t: GPUBindingType, c: ResourceCategory) -> bool {
    match c {
        ResourceCategory::UniformBuffers => t is UniformBuffer,
        ResourceCategory::StorageBuffers => t is StorageBuffer || t is ReadonlyStorageBuffer,
        ResourceCategory::SampledTextures => t is SampledTexture,
        ResourceCategory::StorageTextures => t is ReadonlyStorageTexture
            || t is WriteonlyStorageTexture,
        ResourceCategory::Samplers => t is Sampler,
    }
}

/// Runtime check of `in_category`.
pub fn in_category_exec(t: GPUBindingType, c: ResourceCategory) -> (b: bool)
    ensures
        b == in_category(t, c),
{
    match c {
        ResourceCategory::UniformBuffers => match t {
            GPUBindingType::UniformBuffer => true,
            _ => false,
        },
        ResourceCategory::StorageBuffers => match t {
            GPUBindingType::StorageBuffer => true,
            GPUBindingType::ReadonlyStorageBuffer => true,
            _ => false,
        },
        ResourceCategory::SampledTextures => match t {
            GPUBindingType::SampledTexture => true,
            _ => false,
        },
        ResourceCategory::StorageTextures => match t {
            GPUBindingType::ReadonlyStorageTexture => true,
            GPUBindingType::WriteonlyStorageTexture => true,
            _ => false,
        },
        ResourceCategory::Samplers => match t {
            GPUBindingType::Sampler => true,
            _ => false,
        },
    }
}

/// An entry consumes one unit of a category from a stage when its visibility
/// decodes, names that stage, and its kind lies in the category. An entry
/// whose visibility does not decode is treated as targeting no stage at all.
pub open spec fn counts_toward(e: GPUBindGroupLayoutEntry, stage: u32, c: ResourceCategory) -> bool {
    known_shader_stages(e.visibility) && e.visibility & stage != 0 && in_category(e.type_, c)
}

/// How many units of a category the entries consume from one stage.
pub open spec fn stage_use(s: Seq<GPUBindGroupLayoutEntry>, stage: u32, c: ResourceCategory) -> nat
    decreases s.len(),
{
    if s.len() == 0 {
        0
    } else {
        stage_use(s.drop_last(), stage, c) + if counts_toward(s.last(), stage, c) {
            1nat
        } else {
            0nat
        }
    }
}

/// An entry draws on a pipeline-wide dynamic-offset quota when it sets the
/// dynamic-offset flag and its kind lies in the category; this is counted
/// whether or not its visibility decodes.
pub open spec fn dynamic_in(e: GPUBindGroupLayoutEntry, c: ResourceCategory) -> bool {
    e.has_dynamic_offset && in_category(e.type_, c)
}

/// How many dynamic-offset bindings of a category the entries declare.
pub open spec fn dynamic_use(s: Seq<GPUBindGroupLayoutEntry>, c: ResourceCategory) -> nat
    decreases s.len(),
{
    if s.len() == 0 {
        0
    } else {
        dynamic_use(s.drop_last(), c) + if dynamic_in(s.last(), c) {
            1nat
        } else {
            0nat
        }
    }
}

/// Count the entries that consume a category from a stage.
pub fn count_stage_use(
    entries: &Vec<GPUBindGroupLayoutEntry>,
    stage: u32,
    c: ResourceCategory,
) -> (n: usize)
    ensures
        n == stage_use(entries@, stage, c),
{
    let mut n: usize = 0;
    let mut i: usize = 0;
    while i < entries.len()
        invariant
            i <= entries@.len(),
            n <= i,
            n == stage_use(entries@.take(i as int), stage, c),
        decreases entries@.len() - i,
    {
        let e = entries[i];
        if shader_stages_decode(e.visibility) && e.visibility & stage != 0 && in_category_exec(
            e.type_,
            c,
        ) {
            n = n + 1;
        }
        proof {
            assert(entries@.take(i + 1).drop_last() =~= entries@.take(i as int));
            assert(entries@.take(i + 1).last() == entries@[i as int]);
        }
        i = i + 1;
    }
    proof {
        assert(entries@.take(entries@.len() as int) =~= entries@);
    }
    n
}

/// Count the dynamic-offset entries of a category.
pub fn count_dynamic_use(entries: &Vec<GPUBindGroupLayoutEntry>, c: ResourceCategory) -> (n: usize)
    ensures
        n == dynamic_use(entries@, c),
{
    let mut n: usize = 0;
    let mut i: usize = 0;
    while i < entries.len()
        invariant
            i <= entries@.len(),
            n <= i,
            n == dynamic_use(entries@.take(i as int), c),
        decreases entries@.len() - i,
    {
        let e = entries[i];
        if e.has_dynamic_offset && in_category_exec(e.type_, c) {
            n = n + 1;
        }
        proof {
            assert(entries@.take(i + 1).drop_last() =~= entries@.take(i as int));
            assert(entries@.take(i + 1).last() == entries@[i as int]);
        }
        i = i + 1;
    }
    proof {
        assert(entries@.take(entries@.len() as int) =~= entries@);
    }
    n
}

/// Binding slot numbers are pairwise distinct.
pub open spec fn bindings_distinct(s: Seq<GPUBindGroupLayoutEntry>) -> bool {
    forall|i: int, j: int| 0 <= i < j < s.len() ==> s[i].binding != s[j].binding
}

/// Every entry's visibility bitmask decodes to a known stage combination.
pub open spec fn all_visibilities_known(s: Seq<GPUBindGroupLayoutEntry>) -> bool {
    forall|i: int| 0 <= i < s.len() ==> known_shader_stages(#[trigger] s[i].visibility)
}

/// A dynamic-offset flag is only allowed on the buffer binding kinds; on a
/// texture or sampler kind it is itself invalid.
pub open spec fn dynamic_offset_allowed(e: GPUBindGroupLayoutEntry) -> bool {
    e.has_dynamic_offset ==> (e.type_ is UniformBuffer || e.type_ is StorageBuffer
        || e.type_ is ReadonlyStorageBuffer)
}

/// No entry puts a dynamic-offset flag on a texture or sampler kind.
pub open spec fn dynamic_offsets_well_placed(s: Seq<GPUBindGroupLayoutEntry>) -> bool {
    forall|i: int| 0 <= i < s.len() ==> dynamic_offset_allowed(#[trigger] s[i])
}

/// The entries' consumption from one stage stays within every per-stage
/// ceiling of the limit table.
pub open spec fn stage_within_limits(
    s: Seq<GPUBindGroupLayoutEntry>,
    stage: u32,
    lim: Limits,
) -> bool {
    &&& stage_use(s, stage, ResourceCategory::UniformBuffers)
        <= lim.max_uniform_buffers_per_shader_stage
    &&& stage_use(s, stage, ResourceCategory::StorageBuffers)
        <= lim.max_storage_buffers_per_shader_stage
    &&& stage_use(s, stage, ResourceCategory::SampledTextures)
        <= lim.max_sampled_textures_per_shader_stage
    &&& stage_use(s, stage, ResourceCategory::StorageTextures)
        <= lim.max_storage_textures_per_shader_stage
    &&& stage_use(s, stage, ResourceCategory::Samplers) <= lim.max_samplers_per_shader_stage
}

/// Full verdict on a bind-group layout: every visibility decodes, binding
/// slots are pairwise distinct, no dynamic-offset flag sits on a texture or
/// sampler kind, each stage stays within the per-stage ceilings, and the two
/// pipeline-wide dynamic-offset quotas are respected.
pub open spec fn bind_group_layout_valid(s: Seq<GPUBindGroupLayoutEntry>, lim: Limits) -> bool {
    &&& all_visibilities_known(s)
    &&& bindings_distinct(s)
    &&& dynamic_offsets_well_placed(s)
    &&& stage_within_limits(s, SHADER_STAGE_VERTEX, lim)
    &&& stage_within_limits(s, SHADER_STAGE_FRAGMENT, lim)
    &&& stage_within_limits(s, SHADER_STAGE_COMPUTE, lim)
    &&& dynamic_use(s, ResourceCategory::UniformBuffers)
        <= lim.max_dynamic_uniform_buffers_per_pipeline_layout
    &&& dynamic_use(s, ResourceCategory::StorageBuffers)
        <= lim.max_dynamic_storage_buffers_per_pipeline_layout
}

/// The backend binding kind an entry's declared kind decodes to.
pub open spec fn backend_binding_type(t: GPUBindingType) -> BindingType {
    match t {
        GPUBindingType::UniformBuffer => BindingType::UniformBuffer,
        GPUBindingType::StorageBuffer => BindingType::StorageBuffer,
        GPUBindingType::ReadonlyStorageBuffer => BindingType::ReadonlyStorageBuffer,
        GPUBindingType::SampledTexture => BindingType::SampledTexture,
        GPUBindingType::ReadonlyStorageTexture => BindingType::ReadonlyStorageTexture,
        GPUBindingType::WriteonlyStorageTexture => BindingType::WriteonlyStorageTexture,
        GPUBindingType::Sampler => BindingType::Sampler,
    }
}

/// The backend-ready form of one entry: visibility kept when it decodes and
/// emptied otherwise, the kind decoded, and the stand-in texture metadata
/// filled in.
pub open spec fn normalize_entry(e: GPUBindGroupLayoutEntry) -> BindGroupLayoutEntry {
    BindGroupLayoutEntry {
        binding: e.binding,
        visibility: if known_shader_stages(e.visibility) {
            e.visibility
        } else {
            0
        },
        ty: backend_binding_type(e.type_),
        has_dynamic_offset: e.has_dynamic_offset,
        multisampled: e.multisampled,
        texture_component_type: TextureComponentType::Float,
        storage_texture_format: TextureFormat::Rgba8UnormSrgb,
        view_dimension: TextureViewDimension::D2,
    }
}

/// Runtime decoding of one entry's kind.
pub fn backend_binding_type_exec(t: GPUBindingType) -> (r: BindingType)
    ensures
        r == backend_binding_type(t),
{
    match t {
        GPUBindingType::UniformBuffer => BindingType::UniformBuffer,
        GPUBindingType::StorageBuffer => BindingType::StorageBuffer,
        GPUBindingType::ReadonlyStorageBuffer => BindingType::ReadonlyStorageBuffer,
        GPUBindingType::SampledTexture => BindingType::SampledTexture,
        GPUBindingType::ReadonlyStorageTexture => BindingType::ReadonlyStorageTexture,
        GPUBindingType::WriteonlyStorageTexture => BindingType::WriteonlyStorageTexture,
        GPUBindingType::Sampler => BindingType::Sampler,
    }
}

/// Decode every entry into its backend-ready form, in order.
pub fn normalize_entries(entries: &Vec<GPUBindGroupLayoutEntry>) -> (r: Vec<BindGroupLayoutEntry>)
    ensures
        r@ == entries@.map_values(|e: GPUBindGroupLayoutEntry| normalize_entry(e)),
{
    let mut r: Vec<BindGroupLayoutEntry> = Vec::new();
    let mut i: usize = 0;
    while i < entries.len()
        invariant
            i <= entries@.len(),
            r@ == entries@.take(i as int).map_values(
                |e: GPUBindGroupLayoutEntry| normalize_entry(e),
            ),
        decreases entries@.len() - i,
    {
        let e = entries[i];
        let visibility = if shader_stages_decode(e.visibility) {
            e.visibility
        } else {
            0
        };
        r.push(
            BindGroupLayoutEntry {
                binding: e.binding,
                visibility,
                ty: backend_binding_type_exec(e.type_),
                has_dynamic_offset: e.has_dynamic_offset,
                multisampled: e.multisampled,
                texture_component_type: TextureComponentType::Float,
                storage_texture_format: TextureFormat::Rgba8UnormSrgb,
                view_dimension: TextureViewDimension::D2,
            },
        );
        proof {
            assert(entries@.take(i + 1).map_values(
                |e: GPUBindGroupLayoutEntry| normalize_entry(e),
            ) =~= entries@.take(i as int).map_values(
                |e: GPUBindGroupLayoutEntry| normalize_entry(e),
            ).push(normalize_entry(entries@[i as int])));
        }
        i = i + 1;
    }
    proof {
        assert(entries@.take(entries@.len() as int) =~= entries@);
    }
    r
}

/// Runtime check that the binding slot numbers are pairwise distinct.
pub fn bindings_are_distinct(entries: &Vec<GPUBindGroupLayoutEntry>) -> (b: bool)
    ensures
        b == bindings_distinct(entries@),
{
    let mut i: usize = 0;
    while i < entries.len()
        invariant
            i <= entries@.len(),
            forall|p: int, q: int|
                0 <= p < q < i ==> entries@[p].binding != entries@[q].binding,
        decreases entries@.len() - i,
    {
        let mut j: usize = 0;
        while j < i
            invariant
                j <= i < entries@.len(),
                forall|p: int, q: int|
                    0 <= p < q < i ==> entries@[p].binding != entries@[q].binding,
                forall|q: int| 0 <= q < j ==> entries@[q].binding != entries@[i as int].binding,
            decreases i - j,
        {
            if entries[j].binding == entries[i].binding {
                assert(!bindings_distinct(entries@));
                return false;
            }
            j = j + 1;
        }
        i = i + 1;
    }
    true
}

/// Runtime check that every visibility bitmask decodes.
pub fn visibilities_all_known(entries: &Vec<GPUBindGroupLayoutEntry>) -> (b: bool)
    ensures
        b == all_visibilities_known(entries@),
{
    let mut i: usize = 0;
    while i < entries.len()
        invariant
            i <= entries@.len(),
            forall|p: int| 0 <= p < i ==> known_shader_stages(#[trigger] entries@[p].visibility),
        decreases entries@.len() - i,
    {
        if !shader_stages_decode(entries[i].visibility) {
            return false;
        }
        i = i + 1;
    }
    true
}

/// Runtime check that no dynamic-offset flag sits on a texture or sampler
/// kind.
pub fn dynamic_offsets_placement_ok(entries: &Vec<GPUBindGroupLayoutEntry>) -> (b: bool)
    ensures
        b == dynamic_offsets_well_placed(entries@),
{
    let mut i: usize = 0;
    while i < entries.len()
        invariant
            i <= entries@.len(),
            forall|p: int| 0 <= p < i ==> dynamic_offset_allowed(#[trigger] entries@[p]),
        decreases entries@.len() - i,
    {
        let e = entries[i];
        if e.has_dynamic_offset {
            let buffer_kind = match e.type_ {
                GPUBindingType::UniformBuffer => true,
                GPUBindingType::StorageBuffer => true,
                GPUBindingType::ReadonlyStorageBuffer => true,
                _ => false,
            };
            if !buffer_kind {
                return false;
            }
        }
        i = i + 1;
    }
    true
}

/// Runtime check of one stage against every per-stage ceiling.
pub fn stage_usage_fits(
    entries: &Vec<GPUBindGroupLayoutEntry>,
    stage: u32,
    limits: &Limits,
) -> (b: bool)
    ensures
        b == stage_within_limits(entries@, stage, *limits),
{
    let uniform = count_stage_use(entries, stage, ResourceCategory::UniformBuffers);
    let storage = count_stage_use(entries, stage, ResourceCategory::StorageBuffers);
    let sampled = count_stage_use(entries, stage, ResourceCategory::SampledTextures);
    let storage_tex = count_stage_use(entries, stage, ResourceCategory::StorageTextures);
    let samplers = count_stage_use(entries, stage, ResourceCategory::Samplers);
    uniform <= limits.max_uniform_buffers_per_shader_stage as usize && storage
        <= limits.max_storage_buffers_per_shader_stage as usize && sampled
        <= limits.max_sampled_textures_per_shader_stage as usize && storage_tex
        <= limits.max_storage_textures_per_shader_stage as usize && samplers
        <= limits.max_samplers_per_shader_stage as usize
}

/// Check a bind-group-layout descriptor against the limit table and produce
/// the verdict together with the backend-ready entries.
pub fn validate_bind_group_layout(
    descriptor: &GPUBindGroupLayoutDescriptor,
    limits: &Limits,
) -> (r: (bool, Vec<BindGroupLayoutEntry>))
    ensures
        r.0 == bind_group_layout_valid(descriptor.entries@, *limits),
        r.1@ == descriptor.entries@.map_values(|e: GPUBindGroupLayoutEntry| normalize_entry(e)),
{
    let known = visibilities_all_known(&descriptor.entries);
    let distinct = bindings_are_distinct(&descriptor.entries);
    let placed = dynamic_offsets_placement_ok(&descriptor.entries);
    let vertex_ok = stage_usage_fits(&descriptor.entries, SHADER_STAGE_VERTEX, limits);
    let fragment_ok = stage_usage_fits(&descriptor.entries, SHADER_STAGE_FRAGMENT, limits);
    let compute_ok = stage_usage_fits(&descriptor.entries, SHADER_STAGE_COMPUTE, limits);
    let dynamic_uniform = count_dynamic_use(&descriptor.entries, ResourceCategory::UniformBuffers);
    let dynamic_storage = count_dynamic_use(&descriptor.entries, ResourceCategory::StorageBuffers);
    let valid = known && distinct && placed && vertex_ok && fragment_ok && compute_ok
        && dynamic_uniform <= limits.max_dynamic_uniform_buffers_per_pipeline_layout as usize
        && dynamic_storage <= limits.max_dynamic_storage_buffers_per_pipeline_layout as usize;
    let normalized = normalize_entries(&descriptor.entries);
    (valid, normalized)
}

/// Entries whose binding slots are pairwise distinct, whose visibilities
/// decode, whose dynamic-offset flags sit on buffer kinds only, and whose
/// per-stage and dynamic-offset consumption stays within the declared
/// limits, validate; nothing else is asked of them.
pub proof fn lemma_within_limits_valid(s: Seq<GPUBindGroupLayoutEntry>, lim: Limits)
    requires
        all_visibilities_known(s),
        bindings_distinct(s),
        dynamic_offsets_well_placed(s),
        stage_within_limits(s, SHADER_STAGE_VERTEX, lim),
        stage_within_limits(s, SHADER_STAGE_FRAGMENT, lim),
        stage_within_limits(s, SHADER_STAGE_COMPUTE, lim),
        dynamic_use(s, ResourceCategory::UniformBuffers)
            <= lim.max_dynamic_uniform_buffers_per_pipeline_layout,
        dynamic_use(s, ResourceCategory::StorageBuffers)
            <= lim.max_dynamic_storage_buffers_per_pipeline_layout,
    ensures
        bind_group_layout_valid(s, lim),
{
}

/// One duplicated binding slot number makes the layout invalid, whatever the
/// other fields of any entry say.
pub proof fn lemma_duplicate_binding_invalid(
    s: Seq<GPUBindGroupLayoutEntry>,
    lim: Limits,
    i: int,
    j: int,
)
    requires
        0 <= i < j < s.len(),
        s[i].binding == s[j].binding,
    ensures
        !bind_group_layout_valid(s, lim),
{
}

/// A dynamic-offset flag on a sampled-texture, storage-texture or sampler
/// entry makes the layout invalid, whatever the limits are.
pub proof fn lemma_dynamic_offset_on_texture_or_sampler_invalid(
    s: Seq<GPUBindGroupLayoutEntry>,
    lim: Limits,
    i: int,
)
    requires
        0 <= i < s.len(),
        s[i].has_dynamic_offset,
        s[i].type_ is SampledTexture || s[i].type_ is ReadonlyStorageTexture
            || s[i].type_ is WriteonlyStorageTexture || s[i].type_ is Sampler,
    ensures
        !bind_group_layout_valid(s, lim),
{
    assert(!dynamic_offset_allowed(s[i]));
}

} // verus!
