//! Destroying objects.
//!
//! The state authority forgets an object before GL is asked to delete it, so a
//! failed delete never leaves a cached binding behind.

use vstd::prelude::*;
use crate::api::error;
use crate::api::error::{RhiError, RhiErrorKind};
use crate::api::identity::{BufferId, QueryId, TextureId, VertexArrayId};
use crate::exact::Keep;
use crate::native::link;
use crate::native::link::{
    CommandModel, NativeCommand, NativeObject, NativePlatformContext, NativeProvider, NativeStep,
};
use crate::native::owner::{
    GeometryModel, NativeGeometryKey, NativeOwnedProvider, NativeTextureView, Owner,
};
use crate::platform::object::{GlObjectKind, GlObjectName};
use crate::state::context::CanonicalBlockId;
use crate::state::event::StateEvent;
use crate::state::knowledge::StateDomain;

verus! {

/// Whether geometry does without a buffer.
pub open spec fn spares_buffer(key: GeometryModel, buffer: BufferId) -> bool {
    &&& forall|i: int| 0 <= i < key.vertices.len() ==> (#[trigger] key.vertices[i]).buffer != buffer
    &&& (key.index is Some ==> key.index->0.buffer != buffer)
}

/// The geometry that passes a test.
pub open spec fn geometry_where(
    blocks: Map<GeometryModel, CanonicalBlockId>,
    keep: spec_fn(GeometryModel) -> bool,
) -> Map<GeometryModel, CanonicalBlockId> {
    blocks.restrict(Set::new(|key: GeometryModel| blocks.contains_key(key) && keep(key)))
}

/// The views of other textures.
pub open spec fn views_of_others(views: Map<u64, NativeTextureView>, texture: TextureId) -> Map<
    u64,
    NativeTextureView,
> {
    views.restrict(
        Set::new(|key: u64| views.contains_key(key) && views[key].texture != texture),
    )
}

/// Keeps the geometry that has nothing to do with a buffer.
pub struct SparesBuffer {
    pub buffer: BufferId,
}

impl Keep<NativeGeometryKey> for SparesBuffer {
    open spec fn keeps(&self, value: NativeGeometryKey) -> bool {
        spares_buffer(value@, self.buffer)
    }

    fn test(&self, value: &NativeGeometryKey) -> (result: bool) {
        let mut at: usize = 0;
        while at < value.vertices.len()
            invariant
                at <= value.vertices@.len(),
                forall|i: int| 0 <= i < at ==> (#[trigger] value.vertices@[i]).buffer != self.buffer,
            decreases value.vertices@.len() - at,
        {
            if value.vertices[at].buffer == self.buffer {
                assert(value@.vertices[at as int].buffer == self.buffer);
                return false;
            }
            at += 1;
        }
        match value.index {
            Some(index) => index.buffer != self.buffer,
            None => true,
        }
    }
}

/// Keeps the geometry of other vertex arrays.
pub struct SparesArray {
    pub vertex_array: VertexArrayId,
}

impl Keep<NativeGeometryKey> for SparesArray {
    open spec fn keeps(&self, value: NativeGeometryKey) -> bool {
        value@.vertex_array != self.vertex_array
    }

    fn test(&self, value: &NativeGeometryKey) -> (result: bool) {
        value.vertex_array != self.vertex_array
    }
}

/// Keeps the views of other textures.
pub struct OfOthers {
    pub texture: TextureId,
}

impl Keep<NativeTextureView> for OfOthers {
    open spec fn keeps(&self, value: NativeTextureView) -> bool {
        value.texture != self.texture
    }

    fn test(&self, value: &NativeTextureView) -> (result: bool) {
        value.texture != self.texture
    }
}

impl Owner {
    /// The owner after the state authority took note of an event.
    pub open spec fn noting(self, event: StateEvent) -> Owner {
        Owner { state: self.state.after(event), ..self }
    }

    pub open spec fn destroy_buffer(self, name: GlObjectName, o: Seq<NativeStep>) -> (
        Owner,
        Result<(), RhiError>,
    ) {
        let operation = "NativeProviderOwner::destroy";
        let (found, outcome) = self.buffer_id(name, operation, o);
        match outcome {
            Err(error) => (found, Err(error)),
            Ok(id) => {
                let noted = found.noting(StateEvent::BufferRetired(id));
                Owner {
                    geometry_blocks: geometry_where(
                        noted.geometry_blocks,
                        |key: GeometryModel| spares_buffer(key, id),
                    ),
                    ..noted
                }.noting(StateEvent::DomainFailed(StateDomain::Bindings)).plain(
                    NativeCommand::Destroy(NativeObject::Buffer(id)),
                    operation,
                    o,
                )
            },
        }
    }

    pub open spec fn destroy_texture(self, name: GlObjectName, o: Seq<NativeStep>) -> (
        Owner,
        Result<(), RhiError>,
    ) {
        let operation = "NativeProviderOwner::destroy";
        let (found, outcome) = self.texture_id(name, operation, o);
        match outcome {
            Err(error) => (found, Err(error)),
            Ok(id) => {
                let (gone, outcome) = found.noting(StateEvent::TextureRetired(id)).noting(StateEvent::DomainFailed(StateDomain::Bindings)).plain(NativeCommand::Destroy(NativeObject::Texture(id)), operation, o);
                match outcome {
                    Err(error) => (gone, Err(error)),
                    Ok(_gone) => {
                        (
                            Owner {
                                texture_formats: gone.texture_formats.remove(id.slot as u64),
                                views: views_of_others(gone.views, id),
                                ..gone
                            },
                            Ok(()),
                        )
                    },
                }
            },
        }
    }

    pub open spec fn destroy_sampler(self, name: GlObjectName, o: Seq<NativeStep>) -> (
        Owner,
        Result<(), RhiError>,
    ) {
        let operation = "NativeProviderOwner::destroy";
        let (found, outcome) = self.sampler_handle(name, operation, o);
        match outcome {
            Err(error) => (found, Err(error)),
            Ok(id) => {
                found.noting(StateEvent::SamplerRetired(id)).noting(
                    StateEvent::DomainFailed(StateDomain::Bindings),
                ).plain(NativeCommand::Destroy(NativeObject::Sampler(id)), operation, o)
            },
        }
    }

    /// Destroys the queries of a set from a position on.
    pub open spec fn destroy_queries(self, queries: Seq<QueryId>, at: int, o: Seq<NativeStep>) -> (
        Owner,
        Result<(), RhiError>,
    )
        decreases queries.len() - at,
    {
        if at >= queries.len() {
            (self, Ok(()))
        } else {
            let (gone, outcome) = self.noting(StateEvent::QueryRetired(queries[at])).plain(
                NativeCommand::Destroy(NativeObject::Query(queries[at])),
                "NativeProviderOwner::destroy",
                o,
            );
            match outcome {
                Err(error) => (gone, Err(error)),
                Ok(_) => gone.destroy_queries(queries, at + 1, o),
            }
        }
    }

    pub open spec fn destroy_query_set(self, name: GlObjectName, o: Seq<NativeStep>) -> (
        Owner,
        Result<(), RhiError>,
    ) {
        let key = name@ as u64;
        if !self.query_sets.contains_key(key) {
            (
                self,
                Err(
                    error::rhi_error_at(
                        RhiErrorKind::WrongDevice,
                        "native GL query set is not live",
                        "NativeProviderOwner::destroy",
                    ),
                ),
            )
        } else {
            Owner { query_sets: self.query_sets.remove(key), ..self }.destroy_queries(
                self.query_sets[key].queries,
                0,
                o,
            )
        }
    }

    pub open spec fn destroy_raster_pipeline(self, name: GlObjectName, o: Seq<NativeStep>) -> Owner {
        let key = name@ as u64;
        if !self.raster_pipelines.contains_key(key) {
            self
        } else {
            let pipeline = self.raster_pipelines[key];
            let (gone, _) = Owner {
                raster_pipelines: self.raster_pipelines.remove(key),
                geometry_blocks: geometry_where(
                    self.geometry_blocks,
                    |other: GeometryModel| other.vertex_array != pipeline.vertex_array,
                ),
                ..self
            }.noting(StateEvent::VertexArrayRetired(pipeline.vertex_array)).noting(
                StateEvent::ProgramRetired(pipeline.program),
            ).command(
                CommandModel::Plain(
                    NativeCommand::Destroy(NativeObject::VertexArray(pipeline.vertex_array)),
                ),
                o,
            );
            let (both, _) = gone.command(
                CommandModel::Plain(
                    NativeCommand::Destroy(NativeObject::Program(pipeline.program)),
                ),
                o,
            );
            both
        }
    }

    pub open spec fn destroy_compute_pipeline(self, name: GlObjectName, o: Seq<NativeStep>) -> Owner {
        let key = name@ as u64;
        if !self.compute_pipelines.contains_key(key) {
            self
        } else {
            let program = self.compute_pipelines[key];
            let (gone, _) = Owner {
                compute_pipelines: self.compute_pipelines.remove(key),
                ..self
            }.noting(StateEvent::ProgramRetired(program)).command(
                CommandModel::Plain(NativeCommand::Destroy(NativeObject::Program(program))),
                o,
            );
            gone
        }
    }

    /// Destroys an object. What has no object of its own is forgotten.
    pub open spec fn destroy(self, kind: GlObjectKind, name: GlObjectName, o: Seq<NativeStep>) -> (
        Owner,
        Result<(), RhiError>,
    ) {
        let operation = "NativeProviderOwner::destroy";
        let key = name@ as u64;
        let (current, outcome) = self.ready(operation, o);
        match outcome {
            Err(error) => (current, Err(error)),
            Ok(_ready) => {
                match kind {
                    GlObjectKind::Buffer => current.destroy_buffer(name, o),
                    GlObjectKind::Texture => current.destroy_texture(name, o),
                    GlObjectKind::Sampler => current.destroy_sampler(name, o),
                    GlObjectKind::Shader => {
                        let (found, outcome) = current.shader_id(name, operation, o);
                        match outcome {
                            Err(error) => (found, Err(error)),
                            Ok(id) => found.plain(
                                NativeCommand::Destroy(NativeObject::Shader(id)),
                                operation,
                                o,
                            ),
                        }
                    },
                    GlObjectKind::QuerySet => current.destroy_query_set(name, o),
                    GlObjectKind::TextureView => (
                        Owner { views: current.views.remove(key), ..current }.noting(
                            StateEvent::DomainFailed(StateDomain::Bindings),
                        ),
                        Ok(()),
                    ),
                    GlObjectKind::BindGroup => (
                        Owner {
                            bind_groups: current.bind_groups.remove(key),
                            state: current.state.without_group(name),
                            ..current
                        },
                        Ok(()),
                    ),
                    GlObjectKind::RasterPipeline => (current.destroy_raster_pipeline(name, o), Ok(())),
                    GlObjectKind::ComputePipeline => (current.destroy_compute_pipeline(name, o), Ok(())),
                }
            },
        }
    }
}

/// After a texture is destroyed no view of it is left, and no view of another
/// texture is gone.
pub proof fn destroyed_textures_leave_no_views(
    owner: Owner,
    name: GlObjectName,
    o: Seq<NativeStep>,
)
    requires
        owner.destroy_texture(name, o).1 is Ok,
    ensures
        ({
            let id = owner.texture_id(name, "NativeProviderOwner::destroy", o).1->Ok_0;
            let after = owner.destroy_texture(name, o).0;
            &&& forall|key: u64| #[trigger]
                after.views.contains_key(key) ==> after.views[key].texture != id
            &&& forall|key: u64|
                owner.views.contains_key(key) && owner.views[key].texture != id
                    ==> #[trigger] after.views.contains_key(key) && after.views[key]
                    == owner.views[key]
            &&& !after.texture_formats.contains_key(id.slot as u64)
        }),
{
}

/// A destroyed bind group, view, query set or pipeline is found no longer.
pub proof fn destroyed_names_are_gone(
    owner: Owner,
    kind: GlObjectKind,
    name: GlObjectName,
    o: Seq<NativeStep>,
)
    requires
        owner.destroy(kind, name, o).1 is Ok,
    ensures
        ({
            let after = owner.destroy(kind, name, o).0;
            let key = name@ as u64;
            &&& (kind is BindGroup ==> !after.bind_groups.contains_key(key))
            &&& (kind is TextureView ==> !after.views.contains_key(key))
            &&& (kind is RasterPipeline ==> !after.raster_pipelines.contains_key(key))
            &&& (kind is ComputePipeline ==> !after.compute_pipelines.contains_key(key))
        }),
{
}

impl<C: NativePlatformContext, P: NativeProvider> NativeOwnedProvider<C, P> {
    fn destroy_buffer(&mut self, name: GlObjectName) -> (result: Result<(), RhiError>)
        requires
            old(self).wf(),
        ensures
            final(self).wf(),
            link::grows(old(self)@.log, final(self)@.log),
            forall|o: Seq<NativeStep>|
                link::grows(final(self)@.log, o) ==> #[trigger] old(self)@.destroy_buffer(name, o) == (
                    final(self)@,
                    result,
                ),
    {
        let operation = "NativeProviderOwner::destroy";
        let id = match self.buffer_id(name, operation) {
            Ok(value) => value,
            Err(error) => {
                return Err(error);
            },
        };
        self.context_state.event(StateEvent::BufferRetired(id));
        self.geometry_blocks.retain(
            &SparesBuffer { buffer: id },
            Ghost(|key: GeometryModel| spares_buffer(key, id)),
        );
        self.context_state.event(StateEvent::DomainFailed(StateDomain::Bindings));
        self.plain(NativeCommand::Destroy(NativeObject::Buffer(id)), operation)
    }

    fn destroy_texture(&mut self, name: GlObjectName) -> (result: Result<(), RhiError>)
        requires
            old(self).wf(),
        ensures
            final(self).wf(),
            link::grows(old(self)@.log, final(self)@.log),
            forall|o: Seq<NativeStep>|
                link::grows(final(self)@.log, o) ==> #[trigger] old(self)@.destroy_texture(name, o) == (
                    final(self)@,
                    result,
                ),
    {
        let operation = "NativeProviderOwner::destroy";
        let id = match self.texture_id(name, operation) {
            Ok(value) => value,
            Err(error) => {
                return Err(error);
            },
        };
        self.context_state.event(StateEvent::TextureRetired(id));
        self.context_state.event(StateEvent::DomainFailed(StateDomain::Bindings));
        match self.plain(NativeCommand::Destroy(NativeObject::Texture(id)), operation) {
            Ok(()) => {},
            Err(error) => {
                return Err(error);
            },
        }
        let _ = self.texture_formats.remove(id.slot as u64);
        let ghost before = self.views@;
        let others = OfOthers { texture: id };
        self.views.retain(&others);
        assert(self.views@ =~= views_of_others(before, id));
        Ok(())
    }

    fn destroy_sampler(&mut self, name: GlObjectName) -> (result: Result<(), RhiError>)
        requires
            old(self).wf(),
        ensures
            final(self).wf(),
            link::grows(old(self)@.log, final(self)@.log),
            forall|o: Seq<NativeStep>|
                link::grows(final(self)@.log, o) ==> #[trigger] old(self)@.destroy_sampler(name, o) == (
                    final(self)@,
                    result,
                ),
    {
        let operation = "NativeProviderOwner::destroy";
        let id = match self.sampler_handle(name, operation) {
            Ok(value) => value,
            Err(error) => {
                return Err(error);
            },
        };
        self.context_state.event(StateEvent::SamplerRetired(id));
        self.context_state.event(StateEvent::DomainFailed(StateDomain::Bindings));
        self.plain(NativeCommand::Destroy(NativeObject::Sampler(id)), operation)
    }

    fn destroy_queries(&mut self, queries: &Vec<QueryId>) -> (result: Result<(), RhiError>)
        requires
            old(self).wf(),
        ensures
            final(self).wf(),
            link::grows(old(self)@.log, final(self)@.log),
            forall|o: Seq<NativeStep>|
                link::grows(final(self)@.log, o) ==> #[trigger] old(self)@.destroy_queries(queries@, 0, o) == (
                    final(self)@,
                    result,
                ),
    {
        let mut at: usize = 0;
        while at < queries.len()
            invariant
                at <= queries@.len(),
                self.wf(),
                link::grows(old(self)@.log, self@.log),
                forall|o: Seq<NativeStep>|
                    link::grows(self@.log, o) ==> #[trigger] old(self)@.destroy_queries(
                        queries@,
                        0,
                        o,
                    ) == self@.destroy_queries(queries@, at as int, o),
            decreases queries@.len() - at,
        {
            self.context_state.event(StateEvent::QueryRetired(queries[at]));
            match self.plain(NativeCommand::Destroy(NativeObject::Query(queries[at])), "NativeProviderOwner::destroy") {
                Ok(()) => {},
                Err(error) => {
                    return Err(error);
                },
            }
            at += 1;
        }
        Ok(())
    }

    fn destroy_query_set(&mut self, name: GlObjectName) -> (result: Result<(), RhiError>)
        requires
            old(self).wf(),
        ensures
            final(self).wf(),
            link::grows(old(self)@.log, final(self)@.log),
            forall|o: Seq<NativeStep>|
                link::grows(final(self)@.log, o) ==> #[trigger] old(self)@.destroy_query_set(name, o) == (
                    final(self)@,
                    result,
                ),
    {
        match self.query_sets.remove(name.raw() as u64) {
            Some(set) => self.destroy_queries(&set.queries),
            None => Err(
                RhiError::new(RhiErrorKind::WrongDevice, "native GL query set is not live").at(
                    "NativeProviderOwner::destroy",
                ),
            ),
        }
    }

    fn destroy_raster_pipeline(&mut self, name: GlObjectName)
        requires
            old(self).wf(),
        ensures
            final(self).wf(),
            link::grows(old(self)@.log, final(self)@.log),
            forall|o: Seq<NativeStep>|
                link::grows(final(self)@.log, o) ==> #[trigger] old(self)@.destroy_raster_pipeline(
                    name,
                    o,
                ) == final(self)@,
    {
        match self.raster_pipelines.remove(name.raw() as u64) {
            None => {
                assert(self@ =~= old(self)@);
            },
            Some(record) => {
                let program = record.pipeline.program;
                let vertex_array = record.pipeline.vertex_array;
                self.geometry_blocks.retain(
                    &SparesArray { vertex_array },
                    Ghost(|other: GeometryModel| other.vertex_array != vertex_array),
                );
                self.context_state.event(StateEvent::VertexArrayRetired(vertex_array));
                self.context_state.event(StateEvent::ProgramRetired(program));
                let _ = self.give(
                    NativeCommand::Destroy(NativeObject::VertexArray(vertex_array)),
                );
                let _ = self.give(NativeCommand::Destroy(NativeObject::Program(program)));
            },
        }
    }

    fn destroy_compute_pipeline(&mut self, name: GlObjectName)
        requires
            old(self).wf(),
        ensures
            final(self).wf(),
            link::grows(old(self)@.log, final(self)@.log),
            forall|o: Seq<NativeStep>|
                link::grows(final(self)@.log, o) ==> #[trigger] old(self)@.destroy_compute_pipeline(
                    name,
                    o,
                ) == final(self)@,
    {
        match self.compute_pipelines.remove(name.raw() as u64) {
            None => {
                assert(self@ =~= old(self)@);
            },
            Some(program) => {
                self.context_state.event(StateEvent::ProgramRetired(program));
                let _ = self.give(NativeCommand::Destroy(NativeObject::Program(program)));
            },
        }
    }

    /// Destroys an object. Nobody can act on a failure: the object counts as
    /// gone in any case.
    pub fn destroy(&mut self, kind: GlObjectKind, name: GlObjectName) -> (result: Result<
        (),
        RhiError,
    >)
        requires
            old(self).wf(),
        ensures
            final(self).wf(),
            link::grows(old(self)@.log, final(self)@.log),
            forall|o: Seq<NativeStep>|
                link::grows(final(self)@.log, o) ==> #[trigger] old(self)@.destroy(kind, name, o) == (
                    final(self)@,
                    result,
                ),
    {
        let operation = "NativeProviderOwner::destroy";
        match self.ready(operation) {
            Ok(()) => {},
            Err(error) => {
                return Err(error);
            },
        }
        match kind {
            GlObjectKind::Buffer => self.destroy_buffer(name),
            GlObjectKind::Texture => self.destroy_texture(name),
            GlObjectKind::Sampler => self.destroy_sampler(name),
            GlObjectKind::Shader => {
                let id = match self.shader_id(name, operation) {
                    Ok(value) => value,
                    Err(error) => {
                        return Err(error);
                    },
                };
                self.plain(NativeCommand::Destroy(NativeObject::Shader(id)), operation)
            },
            GlObjectKind::QuerySet => self.destroy_query_set(name),
            GlObjectKind::TextureView => {
                let _ = self.views.remove(name.raw() as u64);
                self.context_state.event(StateEvent::DomainFailed(StateDomain::Bindings));
                Ok(())
            },
            GlObjectKind::BindGroup => {
                let _ = self.bind_groups.remove(name.raw() as u64);
                self.context_state.retire_bind_group(name);
                Ok(())
            },
            GlObjectKind::RasterPipeline => {
                self.destroy_raster_pipeline(name);
                Ok(())
            },
            GlObjectKind::ComputePipeline => {
                self.destroy_compute_pipeline(name);
                Ok(())
            },
        }
    }
}

} // verus!
