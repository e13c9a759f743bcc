//! Typed invalidation events. A retirement is reported before the native
//! object is deleted.

use vstd::prelude::*;
use crate::api::identity::{
    BufferId, ContextStamp, FramebufferId, ProgramId, QueryId, RenderbufferId, SamplerId, TextureId,
    VertexArrayId,
};
use crate::state::knowledge::{DirtyDomains, StateDomain};

verus! {

/// Something that happened to the context or to one of its objects.
#[derive(Clone, Copy, Debug, PartialEq, Eq, Structural)]
pub enum StateEvent {
    BufferRetired(BufferId),
    TextureRetired(TextureId),
    RenderbufferRetired(RenderbufferId),
    FramebufferRetired(FramebufferId),
    QueryRetired(QueryId),
    SamplerRetired(SamplerId),
    ProgramRetired(ProgramId),
    VertexArrayRetired(VertexArrayId),
    /// A native failure half way makes the named domain unknown.
    DomainFailed(StateDomain),
    ScopedRawAccess(ScopedRawAccess),
    ContextLost,
    ContextRestored(ContextStamp),
    DeviceReplaced(ContextStamp),
}

/// The set with one domain.
pub open spec fn only(domain: StateDomain) -> Set<StateDomain> {
    Set::<StateDomain>::empty().insert(domain)
}

impl StateEvent {
    /// The domains that the event makes unusable.
    pub open spec fn spec_domains(self) -> Set<StateDomain> {
        match self {
            StateEvent::BufferRetired(_) => only(StateDomain::Geometry),
            StateEvent::TextureRetired(_) => only(StateDomain::Bindings),
            StateEvent::SamplerRetired(_) => only(StateDomain::Bindings),
            StateEvent::RenderbufferRetired(_) => only(StateDomain::PassFramebuffer),
            StateEvent::FramebufferRetired(_) => only(StateDomain::PassFramebuffer),
            StateEvent::QueryRetired(_) => only(StateDomain::Query),
            StateEvent::ProgramRetired(_) => only(StateDomain::RasterPipeline),
            StateEvent::VertexArrayRetired(_) => only(StateDomain::Geometry),
            StateEvent::DomainFailed(domain) => only(domain),
            StateEvent::ScopedRawAccess(access) => access@,
            StateEvent::ContextLost => Set::full(),
            StateEvent::ContextRestored(_) => Set::full(),
            StateEvent::DeviceReplaced(_) => Set::full(),
        }
    }

    pub fn domains(self) -> (result: DirtyDomains)
        ensures
            result@ == self.spec_domains(),
    {
        match self {
            StateEvent::BufferRetired(_) => DirtyDomains::of(StateDomain::Geometry),
            StateEvent::TextureRetired(_) | StateEvent::SamplerRetired(_) => {
                DirtyDomains::of(StateDomain::Bindings)
            },
            StateEvent::RenderbufferRetired(_) | StateEvent::FramebufferRetired(_) => {
                DirtyDomains::of(StateDomain::PassFramebuffer)
            },
            StateEvent::QueryRetired(_) => DirtyDomains::of(StateDomain::Query),
            StateEvent::ProgramRetired(_) => DirtyDomains::of(StateDomain::RasterPipeline),
            StateEvent::VertexArrayRetired(_) => DirtyDomains::of(StateDomain::Geometry),
            StateEvent::DomainFailed(domain) => DirtyDomains::of(domain),
            StateEvent::ScopedRawAccess(access) => access.domains(),
            StateEvent::ContextLost | StateEvent::ContextRestored(_)
            | StateEvent::DeviceReplaced(_) => DirtyDomains::all(),
        }
    }
}

/// Raw use of the context by somebody else. What it touched is declared, or
/// everything counts as touched.
#[derive(Clone, Copy, Debug, PartialEq, Eq, Structural)]
pub struct ScopedRawAccess {
    declared: Option<DirtyDomains>,
}

impl View for ScopedRawAccess {
    type V = Set<StateDomain>;

    closed spec fn view(&self) -> Set<StateDomain> {
        match self.declared {
            Some(domains) => domains@,
            None => Set::full(),
        }
    }
}

impl ScopedRawAccess {
    pub fn declaring(domains: DirtyDomains) -> (result: Self)
        ensures
            result@ == domains@,
    {
        ScopedRawAccess { declared: Some(domains) }
    }

    /// Nothing is declared.
    pub fn all() -> (result: Self)
        ensures
            result@ == Set::<StateDomain>::full(),
    {
        ScopedRawAccess { declared: None }
    }

    pub fn domains(self) -> (result: DirtyDomains)
        ensures
            result@ == self@,
    {
        match self.declared {
            Some(value) => value,
            None => DirtyDomains::all(),
        }
    }
}

} // verus!
