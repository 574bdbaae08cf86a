//! Bind-group creation: every supplied buffer binding is checked against the
//! referenced layout (slot match, required usage flag, offset alignment and
//! bounds), and the bindings are normalized for the backend request. Only
//! the two buffer binding kinds are supported here; any other kind in the
//! layout surfaces as an explicit unimplemented condition, never as a silent
//! verdict.

use vstd::prelude::*;

use crate::bind_group_layout::{
    GPUBindGroupLayout, GPUBindGroupLayoutEntry, GPUBindingType,
};
use crate::buffer::GPUBuffer;
use crate::error::DeviceError;
use crate::flags::{usage_contains, usage_mask_contains, BUFFER_USAGE_STORAGE, BUFFER_USAGE_UNIFORM};
use crate::ids::ResourceId;

verus! {

/// Byte alignment every buffer-binding offset must respect.
pub const BIND_BUFFER_ALIGNMENT: u64 = 256;

/// One caller-supplied buffer binding: the buffer handle, a byte offset into
/// it, and an optional explicit binding size. With no explicit size the
/// binding covers the whole remaining buffer.
#[derive(Clone, Copy, PartialEq, Eq, Structural, Debug)]
pub struct GPUBufferBinding {
    pub buffer: GPUBuffer,
    pub offset: u64,
    pub size: Option<u64>,
}

/// One caller-supplied bind-group entry: the binding slot it fills and the
/// buffer resource bound there.
#[derive(Clone, Copy, PartialEq, Eq, Structural, Debug)]
pub struct GPUBindGroupEntry {
    pub binding: u32,
    pub resource: GPUBufferBinding,
}

/// Caller-supplied description of a bind group: the layout it instantiates
/// and one resource binding per layout entry.
#[derive(Clone, PartialEq, Eq, Debug)]
pub struct GPUBindGroupDescriptor {
    pub layout: GPUBindGroupLayout,
    pub entries: Vec<GPUBindGroupEntry>,
}

/// Backend-ready buffer binding: the buffer's identifier, the offset, and
/// the effective size with the whole-remaining-buffer default resolved.
#[derive(Clone, Copy, PartialEq, Eq, Structural, Debug)]
pub struct BufferBinding {
    pub buffer: ResourceId,
    pub offset: u64,
    pub size: u64,
}

/// One backend-ready bind-group entry.
#[derive(Clone, Copy, PartialEq, Eq, Structural, Debug)]
pub struct BindGroupEntry {
    pub binding: u32,
    pub resource: BufferBinding,
}

/// The bind-group handle returned to the caller, with its permanent
/// validity verdict.
#[derive(Clone, Copy, PartialEq, Eq, Structural, Debug)]
pub struct GPUBindGroup {
    pub id: ResourceId,
    pub valid: bool,
}

impl GPUBindGroup {
    /// Wrap a backend acknowledgment and the verdict into the bind-group
    /// handle.
    pub fn new(id: ResourceId, valid: bool) -> (r: GPUBindGroup)
        ensures
            r == (GPUBindGroup { id, valid }),
    {
        GPUBindGroup { id, valid }
    }
}

/// The binding kinds this validator supports.
pub open spec fn supported_binding_kind(t: GPUBindingType) -> bool {
    t is UniformBuffer || t is StorageBuffer
}

/// Every entry of the layout has a supported binding kind.
pub open spec fn all_kinds_supported(lay: Seq<GPUBindGroupLayoutEntry>) -> bool {
    forall|i: int| 0 <= i < lay.len() ==> supported_binding_kind(#[trigger] lay[i].type_)
}

/// The usage flag a buffer must declare to be bound at an entry of the given
/// kind. Meaningful for the two supported kinds only; the validator rejects
/// a layout holding any other kind before this is consulted.
pub open spec fn required_usage(t: GPUBindingType) -> u32 {
    match t {
        GPUBindingType::UniformBuffer => BUFFER_USAGE_UNIFORM,
        GPUBindingType::StorageBuffer => BUFFER_USAGE_STORAGE,
        _ => 0,
    }
}

/// Runtime lookup of `required_usage`.
pub fn required_usage_exec(t: GPUBindingType) -> (r: u32)
    ensures
        r == required_usage(t),
{
    match t {
        GPUBindingType::UniformBuffer => BUFFER_USAGE_UNIFORM,
        GPUBindingType::StorageBuffer => BUFFER_USAGE_STORAGE,
        _ => 0,
    }
}

/// The binding's effective byte size: the explicit size when one is given,
/// the whole buffer otherwise.
pub open spec fn effective_size(b: GPUBufferBinding) -> u64 {
    match b.size {
        Some(s) => s,
        None => b.buffer.size,
    }
}

/// The binding lies within its buffer: offset plus effective size does not
/// overflow and does not pass the end of the buffer, the offset respects the
/// fixed alignment, and the offset lies strictly inside the buffer.
pub open spec fn binding_fits(e: GPUBindGroupEntry) -> bool {
    &&& e.resource.offset + effective_size(e.resource) <= e.resource.buffer.size
    &&& e.resource.offset % BIND_BUFFER_ALIGNMENT == 0
    &&& e.resource.offset < e.resource.buffer.size
}

/// Some layout entry declares the same binding slot, and the bound buffer's
/// usage flags contain the flag that entry's kind requires.
pub open spec fn binding_matches_layout(
    lay: Seq<GPUBindGroupLayoutEntry>,
    e: GPUBindGroupEntry,
) -> bool {
    exists|i: int|
        0 <= i < lay.len() && (#[trigger] lay[i]).binding == e.binding && usage_contains(
            e.resource.buffer.usage,
            required_usage(lay[i].type_),
        )
}

/// Full verdict on a bind group: exactly one supplied binding per layout
/// entry, and every supplied binding fits its buffer and matches a layout
/// entry of its slot with the required usage flag present.
pub open spec fn bind_group_valid(
    lay: Seq<GPUBindGroupLayoutEntry>,
    es: Seq<GPUBindGroupEntry>,
) -> bool {
    &&& lay.len() == es.len()
    &&& forall|i: int|
        0 <= i < es.len() ==> binding_fits(#[trigger] es[i]) && binding_matches_layout(lay, es[i])
}

/// Backend-ready form of one supplied binding.
pub open spec fn normalize_binding(e: GPUBindGroupEntry) -> BindGroupEntry {
    BindGroupEntry {
        binding: e.binding,
        resource: BufferBinding {
            buffer: e.resource.buffer.id,
            offset: e.resource.offset,
            size: effective_size(e.resource),
        },
    }
}

/// Runtime check that one supplied binding fits its buffer.
pub fn binding_fits_exec(e: &GPUBindGroupEntry) -> (b: bool)
    ensures
        b == binding_fits(*e),
{
    let size = match e.resource.size {
        Some(s) => s,
        None => e.resource.buffer.size,
    };
    let in_bounds = match e.resource.offset.checked_add(size) {
        Some(end) => end <= e.resource.buffer.size,
        None => false,
    };
    in_bounds && e.resource.offset % BIND_BUFFER_ALIGNMENT == 0 && e.resource.offset
        < e.resource.buffer.size
}

/// Runtime search for a layout entry matching one supplied binding.
pub fn binding_matches_layout_exec(
    lay: &Vec<GPUBindGroupLayoutEntry>,
    e: &GPUBindGroupEntry,
) -> (b: bool)
    ensures
        b == binding_matches_layout(lay@, *e),
{
    let mut j: usize = 0;
    while j < lay.len()
        invariant
            j <= lay@.len(),
            forall|q: int|
                0 <= q < j ==> !((#[trigger] lay@[q]).binding == e.binding && usage_contains(
                    e.resource.buffer.usage,
                    required_usage(lay@[q].type_),
                )),
        decreases lay@.len() - j,
    {
        let entry = lay[j];
        if entry.binding == e.binding && usage_mask_contains(
            e.resource.buffer.usage,
            required_usage_exec(entry.type_),
        ) {
            return true;
        }
        j = j + 1;
    }
    false
}

/// Check a bind-group descriptor against its layout. Fails with the
/// explicit unimplemented condition exactly when the layout declares a
/// binding kind other than the two buffer kinds; otherwise produces the
/// verdict together with the backend-ready bindings.
pub fn validate_bind_group(descriptor: &GPUBindGroupDescriptor) -> (r: Result<
    (bool, Vec<BindGroupEntry>),
    DeviceError,
>)
    ensures
        r is Err <==> !all_kinds_supported(descriptor.layout.bindings@),
        r matches Err(e) ==> e == DeviceError::UnimplementedBindingKind,
        r matches Ok(out) ==> out.0 == bind_group_valid(
            descriptor.layout.bindings@,
            descriptor.entries@,
        ) && out.1@ == descriptor.entries@.map_values(|e: GPUBindGroupEntry| normalize_binding(e)),
{
    let lay = &descriptor.layout.bindings;
    let entries = &descriptor.entries;

    let mut k: usize = 0;
    while k < lay.len()
        invariant
            lay@ == descriptor.layout.bindings@,
            k <= lay@.len(),
            forall|p: int| 0 <= p < k ==> supported_binding_kind(#[trigger] lay@[p].type_),
        decreases lay@.len() - k,
    {
        let supported = match lay[k].type_ {
            GPUBindingType::UniformBuffer => true,
            GPUBindingType::StorageBuffer => true,
            _ => false,
        };
        if !supported {
            assert(!supported_binding_kind(lay@[k as int].type_));
            assert(!all_kinds_supported(descriptor.layout.bindings@));
            return Err(DeviceError::UnimplementedBindingKind);
        }
        k = k + 1;
    }

    let mut ok = lay.len() == entries.len();
    let mut i: usize = 0;
    while i < entries.len()
        invariant
            i <= entries@.len(),
            ok == (lay@.len() == entries@.len() && forall|p: int|
                0 <= p < i ==> binding_fits(#[trigger] entries@[p]) && binding_matches_layout(
                    lay@,
                    entries@[p],
                )),
        decreases entries@.len() - i,
    {
        let e = &entries[i];
        let fits = binding_fits_exec(e);
        let matched = binding_matches_layout_exec(lay, e);
        ok = ok && fits && matched;
        i = i + 1;
    }

    let mut bindings: Vec<BindGroupEntry> = Vec::new();
    let mut m: usize = 0;
    while m < entries.len()
        invariant
            m <= entries@.len(),
            bindings@ == entries@.take(m as int).map_values(
                |e: GPUBindGroupEntry| normalize_binding(e),
            ),
        decreases entries@.len() - m,
    {
        let e = &entries[m];
        let size = match e.resource.size {
            Some(s) => s,
            None => e.resource.buffer.size,
        };
        bindings.push(
            BindGroupEntry {
                binding: e.binding,
                resource: BufferBinding {
                    buffer: e.resource.buffer.id,
                    offset: e.resource.offset,
                    size,
                },
            },
        );
        proof {
            assert(entries@.take(m + 1).map_values(|e: GPUBindGroupEntry| normalize_binding(e))
                =~= entries@.take(m as int).map_values(
                |e: GPUBindGroupEntry| normalize_binding(e),
            ).push(normalize_binding(entries@[m as int])));
        }
        m = m + 1;
    }
    proof {
        assert(entries@.take(entries@.len() as int) =~= entries@);
    }
    Ok((ok, bindings))
}

/// A bind group whose binding count differs from its layout's entry count is
/// invalid, whatever the bindings hold.
pub proof fn lemma_binding_count_mismatch_invalid(
    lay: Seq<GPUBindGroupLayoutEntry>,
    es: Seq<GPUBindGroupEntry>,
)
    requires
        lay.len() != es.len(),
    ensures
        !bind_group_valid(lay, es),
{
}

/// Matching counts with, for every binding, a correct slot/kind/usage match,
/// an offset that is a multiple of the fixed alignment, and offset plus
/// effective size within the buffer, give a valid bind group.
pub proof fn lemma_matching_bindings_valid(
    lay: Seq<GPUBindGroupLayoutEntry>,
    es: Seq<GPUBindGroupEntry>,
)
    requires
        lay.len() == es.len(),
        forall|i: int|
            0 <= i < es.len() ==> binding_fits(#[trigger] es[i]) && binding_matches_layout(
                lay,
                es[i],
            ),
    ensures
        bind_group_valid(lay, es),
{
}

} // verus!
