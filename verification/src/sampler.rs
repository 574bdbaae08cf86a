//! Sampler creation: address modes, filter modes and the optional comparison
//! function decode through one-to-one mapping tables; a missing comparison
//! decodes to the undefined comparison. A sampler descriptor carries no
//! other invariant, so a sampler is always created valid.

use vstd::prelude::*;

use crate::ids::{DeviceId, ResourceId};

verus! {

/// Caller-facing texture address mode.
#[derive(Clone, Copy, PartialEq, Eq, Structural, Debug)]
pub enum GPUAddressMode {
    ClampToEdge,
    Repeat,
    MirrorRepeat,
}

/// Caller-facing texel filter mode.
#[derive(Clone, Copy, PartialEq, Eq, Structural, Debug)]
pub enum GPUFilterMode {
    Nearest,
    Linear,
}

/// Caller-facing comparison function for comparison samplers.
#[derive(Clone, Copy, PartialEq, Eq, Structural, Debug)]
pub enum GPUCompareFunction {
    Never,
    Less,
    Equal,
    LessEqual,
    Greater,
    NotEqual,
    GreaterEqual,
    Always,
}

/// Backend address mode.
#[derive(Clone, Copy, PartialEq, Eq, Structural, Debug)]
pub enum AddressMode {
    ClampToEdge,
    Repeat,
    MirrorRepeat,
}

/// Backend filter mode.
#[derive(Clone, Copy, PartialEq, Eq, Structural, Debug)]
pub enum FilterMode {
    Nearest,
    Linear,
}

/// Backend comparison function; `Undefined` stands for "no comparison
/// requested".
#[derive(Clone, Copy, PartialEq, Eq, Structural, Debug)]
pub enum CompareFunction {
    Undefined,
    Never,
    Less,
    Equal,
    LessEqual,
    Greater,
    NotEqual,
    GreaterEqual,
    Always,
}

/// Caller-supplied description of a sampler: three address modes, three
/// filter modes, and an optional comparison function. The level-of-detail
/// clamp range rides along outside this core and is passed through to the
/// backend untouched.
#[derive(Clone, Copy, PartialEq, Eq, Structural, Debug)]
pub struct GPUSamplerDescriptor {
    pub address_mode_u: GPUAddressMode,
    pub address_mode_v: GPUAddressMode,
    pub address_mode_w: GPUAddressMode,
    pub mag_filter: GPUFilterMode,
    pub min_filter: GPUFilterMode,
    pub mipmap_filter: GPUFilterMode,
    pub compare: Option<GPUCompareFunction>,
}

/// Backend-ready sampler descriptor with every enumeration decoded.
#[derive(Clone, Copy, PartialEq, Eq, Structural, Debug)]
pub struct SamplerDescriptor {
    pub address_mode_u: AddressMode,
    pub address_mode_v: AddressMode,
    pub address_mode_w: AddressMode,
    pub mag_filter: FilterMode,
    pub min_filter: FilterMode,
    pub mipmap_filter: FilterMode,
    pub compare: CompareFunction,
}

/// The sampler handle returned to the caller: the device it belongs to,
/// whether a comparison function was requested, the allocated identifier,
/// and the (always valid) verdict.
#[derive(Clone, Copy, PartialEq, Eq, Structural, Debug)]
pub struct GPUSampler {
    pub device: DeviceId,
    pub compare_enable: bool,
    pub id: ResourceId,
    pub valid: bool,
}

impl GPUSampler {
    /// Wrap a backend acknowledgment into the sampler handle.
    pub fn new(device: DeviceId, compare_enable: bool, id: ResourceId, valid: bool) -> (r:
        GPUSampler)
        ensures
            r == (GPUSampler { device, compare_enable, id, valid }),
    {
        GPUSampler { device, compare_enable, id, valid }
    }
}

/// Decoding table for address modes.
pub open spec fn address_mode_decoded(m: GPUAddressMode) -> AddressMode {
    match m {
        GPUAddressMode::ClampToEdge => AddressMode::ClampToEdge,
        GPUAddressMode::Repeat => AddressMode::Repeat,
        GPUAddressMode::MirrorRepeat => AddressMode::MirrorRepeat,
    }
}

/// Decoding table for filter modes.
pub open spec fn filter_mode_decoded(m: GPUFilterMode) -> FilterMode {
    match m {
        GPUFilterMode::Nearest => FilterMode::Nearest,
        GPUFilterMode::Linear => FilterMode::Linear,
    }
}

/// Decoding table for the optional comparison function: absence decodes to
/// the undefined comparison.
pub open spec fn compare_function_decoded(c: Option<GPUCompareFunction>) -> CompareFunction {
    match c {
        Some(GPUCompareFunction::Never) => CompareFunction::Never,
        Some(GPUCompareFunction::Less) => CompareFunction::Less,
        Some(GPUCompareFunction::Equal) => CompareFunction::Equal,
        Some(GPUCompareFunction::LessEqual) => CompareFunction::LessEqual,
        Some(GPUCompareFunction::Greater) => CompareFunction::Greater,
        Some(GPUCompareFunction::NotEqual) => CompareFunction::NotEqual,
        Some(GPUCompareFunction::GreaterEqual) => CompareFunction::GreaterEqual,
        Some(GPUCompareFunction::Always) => CompareFunction::Always,
        None => CompareFunction::Undefined,
    }
}

/// The backend-ready form of a sampler descriptor.
pub open spec fn normalized_sampler_descriptor(d: GPUSamplerDescriptor) -> SamplerDescriptor {
    SamplerDescriptor {
        address_mode_u: address_mode_decoded(d.address_mode_u),
        address_mode_v: address_mode_decoded(d.address_mode_v),
        address_mode_w: address_mode_decoded(d.address_mode_w),
        mag_filter: filter_mode_decoded(d.mag_filter),
        min_filter: filter_mode_decoded(d.min_filter),
        mipmap_filter: filter_mode_decoded(d.mipmap_filter),
        compare: compare_function_decoded(d.compare),
    }
}

/// Runtime decoding of one address mode.
pub fn assign_address_mode(address_mode: GPUAddressMode) -> (r: AddressMode)
    ensures
        r == address_mode_decoded(address_mode),
{
    match address_mode {
        GPUAddressMode::ClampToEdge => AddressMode::ClampToEdge,
        GPUAddressMode::Repeat => AddressMode::Repeat,
        GPUAddressMode::MirrorRepeat => AddressMode::MirrorRepeat,
    }
}

/// Runtime decoding of one filter mode.
pub fn assign_filter_mode(filter_mode: GPUFilterMode) -> (r: FilterMode)
    ensures
        r == filter_mode_decoded(filter_mode),
{
    match filter_mode {
        GPUFilterMode::Nearest => FilterMode::Nearest,
        GPUFilterMode::Linear => FilterMode::Linear,
    }
}

/// Runtime decoding of the optional comparison function.
pub fn assign_compare_function(compare: Option<GPUCompareFunction>) -> (r: CompareFunction)
    ensures
        r == compare_function_decoded(compare),
{
    match compare {
        Some(GPUCompareFunction::Never) => CompareFunction::Never,
        Some(GPUCompareFunction::Less) => CompareFunction::Less,
        Some(GPUCompareFunction::Equal) => CompareFunction::Equal,
        Some(GPUCompareFunction::LessEqual) => CompareFunction::LessEqual,
        Some(GPUCompareFunction::Greater) => CompareFunction::Greater,
        Some(GPUCompareFunction::NotEqual) => CompareFunction::NotEqual,
        Some(GPUCompareFunction::GreaterEqual) => CompareFunction::GreaterEqual,
        Some(GPUCompareFunction::Always) => CompareFunction::Always,
        None => CompareFunction::Undefined,
    }
}

/// Decode a sampler descriptor into its backend-ready form, and report
/// whether a comparison function was requested.
pub fn decode_sampler_descriptor(d: &GPUSamplerDescriptor) -> (r: (SamplerDescriptor, bool))
    ensures
        r.0 == normalized_sampler_descriptor(*d),
        r.1 == (d.compare is Some),
{
    let compare_enable = d.compare.is_some();
    let desc = SamplerDescriptor {
        address_mode_u: assign_address_mode(d.address_mode_u),
        address_mode_v: assign_address_mode(d.address_mode_v),
        address_mode_w: assign_address_mode(d.address_mode_w),
        mag_filter: assign_filter_mode(d.mag_filter),
        min_filter: assign_filter_mode(d.min_filter),
        mipmap_filter: assign_filter_mode(d.mipmap_filter),
        compare: assign_compare_function(d.compare),
    };
    (desc, compare_enable)
}

} // verus!
