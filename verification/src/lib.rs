//! Validation-and-dispatch core of a GPU command-submission API.
//!
//! The library validates resource-creation descriptors (buffers, bind-group
//! layouts, pipeline layouts, bind groups, shader modules, compute pipelines,
//! samplers) against device capability limits, allocates stable resource
//! identifiers, and builds the creation requests that a host sends to an
//! out-of-process GPU backend. The host side owns the channel: it sends each
//! request, waits for the backend's acknowledgment, and wraps the outcome in
//! the typed handles this library defines.

pub mod bind_group;
pub mod bind_group_layout;
pub mod buffer;
pub mod command_encoder;
pub mod compute_pipeline;
pub mod device;
pub mod error;
pub mod flags;
pub mod ids;
pub mod limits;
pub mod pipeline_layout;
pub mod sampler;
pub mod shader;
