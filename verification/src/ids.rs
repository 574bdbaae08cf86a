//! Identifier allocation. A hub issues backend-scoped resource identifiers,
//! one counter per resource kind; an identifier is never reused for the
//! lifetime of the hub. The host keeps one hub per process behind a lock, so
//! concurrent creation calls serialize on it; every interleaving of calls is
//! one sequence of `allocate` steps, which is what the contracts below
//! describe.

use vstd::prelude::*;

use crate::error::DeviceError;

verus! {

/// The backend flavour a device runs on. Identifiers are scoped to it.
#[derive(Clone, Copy, PartialEq, Eq, Structural, Debug)]
pub enum Backend {
    Empty,
    Vulkan,
    Metal,
    Dx12,
    Dx11,
    Gl,
}

/// The resource kinds that receive allocated identifiers.
#[derive(Clone, Copy, PartialEq, Eq, Structural, Debug)]
pub enum IdKind {
    Buffer,
    BindGroupLayout,
    PipelineLayout,
    BindGroup,
    ShaderModule,
    ComputePipeline,
    Sampler,
    CommandEncoder,
}

/// An opaque token naming one backend-side resource: the kind it was minted
/// for, the backend it is scoped to, and a serial number unique within the
/// kind.
#[derive(Clone, Copy, PartialEq, Eq, Structural, Debug)]
pub struct ResourceId {
    pub kind: IdKind,
    pub backend: Backend,
    pub serial: u64,
}

/// The backend identifier of a device, fixed at device creation.
#[derive(Clone, Copy, PartialEq, Eq, Structural, Debug)]
pub struct DeviceId {
    pub backend: Backend,
    pub raw: u64,
}

/// The backend identifier of a device's default queue.
#[derive(Clone, Copy, PartialEq, Eq, Structural, Debug)]
pub struct QueueId {
    pub backend: Backend,
    pub raw: u64,
}

/// Issues resource identifiers: one monotone counter per resource kind,
/// plus a ghost record of everything issued so far. The well-formedness
/// invariant ties the record to the counters and carries the uniqueness
/// guarantee.
pub struct IdHub {
    next_buffer: u64,
    next_bind_group_layout: u64,
    next_pipeline_layout: u64,
    next_bind_group: u64,
    next_shader_module: u64,
    next_compute_pipeline: u64,
    next_sampler: u64,
    next_command_encoder: u64,
    issued: Ghost<Seq<ResourceId>>,
}

impl IdHub {
    /// The counter that serves a given kind.
    pub closed spec fn next_of(&self, kind: IdKind) -> u64 {
        match kind {
            IdKind::Buffer => self.next_buffer,
            IdKind::BindGroupLayout => self.next_bind_group_layout,
            IdKind::PipelineLayout => self.next_pipeline_layout,
            IdKind::BindGroup => self.next_bind_group,
            IdKind::ShaderModule => self.next_shader_module,
            IdKind::ComputePipeline => self.next_compute_pipeline,
            IdKind::Sampler => self.next_sampler,
            IdKind::CommandEncoder => self.next_command_encoder,
        }
    }

    /// Every identifier the hub has issued, in order of issue.
    pub closed spec fn issued_ids(&self) -> Seq<ResourceId> {
        self.issued@
    }

    /// Well-formedness: issued identifiers are pairwise distinct, and each
    /// one's serial lies below the counter of its kind, so the next
    /// allocation can never collide with it.
    pub closed spec fn wf(&self) -> bool {
        &&& forall|i: int, j: int|
            0 <= i < j < self.issued@.len() ==> self.issued@[i] != self.issued@[j]
        &&& forall|i: int|
            0 <= i < self.issued@.len() ==> #[trigger] self.issued@[i].serial < self.next_of(
                self.issued@[i].kind,
            )
    }

    /// A fresh hub: nothing issued, every counter at zero.
    pub fn new() -> (r: IdHub)
        ensures
            r.wf(),
            r.issued_ids() == Seq::<ResourceId>::empty(),
            forall|k: IdKind| r.next_of(k) == 0,
    {
        IdHub {
            next_buffer: 0,
            next_bind_group_layout: 0,
            next_pipeline_layout: 0,
            next_bind_group: 0,
            next_shader_module: 0,
            next_compute_pipeline: 0,
            next_sampler: 0,
            next_command_encoder: 0,
            issued: Ghost(Seq::empty()),
        }
    }

    /// Mint one identifier of the given kind for the given backend. Never
    /// recycles: the result differs from everything issued before. Fails
    /// only on counter exhaustion, the fatal resource-exhaustion class.
    pub fn allocate(&mut self, kind: IdKind, backend: Backend) -> (r: Result<
        ResourceId,
        DeviceError,
    >)
        requires
            old(self).wf(),
        ensures
            final(self).wf(),
            match r {
                Ok(id) => {
                    &&& old(self).next_of(kind) < u64::MAX
                    &&& id == (ResourceId { kind, backend, serial: old(self).next_of(kind) })
                    &&& !old(self).issued_ids().contains(id)
                    &&& final(self).issued_ids() == old(self).issued_ids().push(id)
                    &&& final(self).next_of(kind) == old(self).next_of(kind) + 1
                    &&& forall|k: IdKind|
                        k != kind ==> final(self).next_of(k) == old(self).next_of(k)
                },
                Err(e) => {
                    &&& e == DeviceError::IdentifiersExhausted
                    &&& old(self).next_of(kind) == u64::MAX
                    &&& *final(self) == *old(self)
                },
            },
    {
        let serial: u64;
        match kind {
            IdKind::Buffer => {
                if self.next_buffer == u64::MAX {
                    return Err(DeviceError::IdentifiersExhausted);
                }
                serial = self.next_buffer;
                self.next_buffer = self.next_buffer + 1;
            },
            IdKind::BindGroupLayout => {
                if self.next_bind_group_layout == u64::MAX {
                    return Err(DeviceError::IdentifiersExhausted);
                }
                serial = self.next_bind_group_layout;
                self.next_bind_group_layout = self.next_bind_group_layout + 1;
            },
            IdKind::PipelineLayout => {
                if self.next_pipeline_layout == u64::MAX {
                    return Err(DeviceError::IdentifiersExhausted);
                }
                serial = self.next_pipeline_layout;
                self.next_pipeline_layout = self.next_pipeline_layout + 1;
            },
            IdKind::BindGroup => {
                if self.next_bind_group == u64::MAX {
                    return Err(DeviceError::IdentifiersExhausted);
                }
                serial = self.next_bind_group;
                self.next_bind_group = self.next_bind_group + 1;
            },
            IdKind::ShaderModule => {
                if self.next_shader_module == u64::MAX {
                    return Err(DeviceError::IdentifiersExhausted);
                }
                serial = self.next_shader_module;
                self.next_shader_module = self.next_shader_module + 1;
            },
            IdKind::ComputePipeline => {
                if self.next_compute_pipeline == u64::MAX {
                    return Err(DeviceError::IdentifiersExhausted);
                }
                serial = self.next_compute_pipeline;
                self.next_compute_pipeline = self.next_compute_pipeline + 1;
            },
            IdKind::Sampler => {
                if self.next_sampler == u64::MAX {
                    return Err(DeviceError::IdentifiersExhausted);
                }
                serial = self.next_sampler;
                self.next_sampler = self.next_sampler + 1;
            },
            IdKind::CommandEncoder => {
                if self.next_command_encoder == u64::MAX {
                    return Err(DeviceError::IdentifiersExhausted);
                }
                serial = self.next_command_encoder;
                self.next_command_encoder = self.next_command_encoder + 1;
            },
        }
        let id = ResourceId { kind, backend, serial };
        proof {
            assert forall|i: int| 0 <= i < old(self).issued@.len() implies old(self).issued@[i]
                != id by {
                if old(self).issued@[i].kind == kind {
                    assert(old(self).issued@[i].serial < old(self).next_of(kind));
                }
            }
        }
        self.issued = Ghost(self.issued@.push(id));
        Ok(id)
    }
}

/// The identifier a hub in a given state mints next for a kind and backend.
pub open spec fn minted_id(h: IdHub, kind: IdKind, backend: Backend) -> ResourceId {
    ResourceId { kind, backend, serial: h.next_of(kind) }
}

/// How one successful allocation of the given kind moves a hub from state
/// `h0` to state `h1`: the minted identifier is recorded and that kind's
/// counter steps forward, everything else untouched.
pub open spec fn allocated_one(h0: IdHub, h1: IdHub, kind: IdKind, backend: Backend) -> bool {
    &&& h0.next_of(kind) < u64::MAX
    &&& h1.issued_ids() == h0.issued_ids().push(minted_id(h0, kind, backend))
    &&& h1.next_of(kind) == h0.next_of(kind) + 1
    &&& forall|k: IdKind| k != kind ==> h1.next_of(k) == h0.next_of(k)
}

/// Identifiers issued by one hub are pairwise distinct: however many
/// creation calls draw from the same hub, and for whatever device and
/// backend, no two of the identifiers they receive are equal.
pub proof fn lemma_issued_identifiers_distinct(hub: &IdHub, i: int, j: int)
    requires
        hub.wf(),
        0 <= i < hub.issued_ids().len(),
        0 <= j < hub.issued_ids().len(),
        i != j,
    ensures
        hub.issued_ids()[i] != hub.issued_ids()[j],
{
}

} // verus!
