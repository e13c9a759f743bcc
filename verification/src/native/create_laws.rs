//! What is made when an object is asked for, and where it is found again.

use vstd::prelude::*;
use std::sync::Arc;
use crate::api::gl::{GlProgramKind, GlTextureDimension};
use crate::api::identity::QueryId;
use crate::api::pipeline::{ComputePipelineDescriptor, RasterPipelineDescriptor};
use crate::api::resource::{
    BufferDescriptor, QuerySetDescriptor, SamplerDescriptor, TextureDescriptor,
    TextureViewDescriptor,
};
use crate::api::shader::{ShaderArtifact, ShaderCode};
use crate::format_laws;
use crate::native::create;
use crate::native::link::NativeStep;
use crate::native::owner::Owner;
use crate::platform::object;
use crate::platform::object::{GlBindGroupPacket, GlShaderRef, GlTextureRef};
use crate::translate_laws;
use crate::translate_raster;

verus! {

/// Only the planes of a target have two sides and no depth; arrays have layers.
pub proof fn targets_are_their_dimensions(dimension: GlTextureDimension)
    ensures
        create::target_of(dimension) is Err <==> dimension is D1,
        create::target_of(dimension) is Ok ==> {
            let target = create::target_of(dimension)->Ok_0;
            &&& target is D2 <==> dimension is D2
            &&& target is D2Array <==> dimension is D2Array
            &&& target is Cube <==> dimension is Cube
            &&& target is D3 <==> dimension is D3
        },
{
}

/// A buffer that was made is named by the slot that the context made it in, and
/// the context was asked for what the descriptor says.
pub proof fn made_buffers_are_named_by_slot(
    owner: Owner,
    buffer: BufferDescriptor,
    o: Seq<NativeStep>,
)
    requires
        owner.create_buffer(buffer, o).1 is Ok,
    ensures
        ({
            let (made, name) = owner.create_buffer(buffer, o);
            match made.log.last() {
                NativeStep::CreateBuffer { desc, reply } => {
                    &&& reply is Ok
                    &&& reply->Ok_0.slot + 1 == name->Ok_0@
                    &&& desc.size == buffer.size
                    &&& desc.usage.vertex == buffer.usage.vertex
                    &&& desc.usage.index == buffer.usage.index
                    &&& desc.usage.uniform == buffer.usage.uniform
                },
                _ => false,
            }
        }),
{
    broadcast use object::names_have_their_values;

    translate_laws::buffers_are_kept(buffer);
    let made = owner.create_buffer(buffer, o).0;
    assert(made.log.last() is CreateBuffer);
}

/// The same of a texture, whose format is remembered under its slot.
pub proof fn made_textures_are_named_by_slot(
    owner: Owner,
    texture: TextureDescriptor,
    o: Seq<NativeStep>,
)
    requires
        owner.create_texture(texture, o).1 is Ok,
    ensures
        ({
            let (made, name) = owner.create_texture(texture, o);
            match made.log.last() {
                NativeStep::CreateTexture { desc, reply } => {
                    &&& reply is Ok
                    &&& reply->Ok_0.slot + 1 == name->Ok_0@
                    &&& desc.extent.width == texture.extent.width
                    &&& desc.extent.height == texture.extent.height
                    &&& desc.mip_level_count == texture.mip_levels
                    &&& desc.sample_count == texture.sample_count
                    &&& format_laws::gl_texel(desc.format) == format_laws::portable_texel(
                        texture.format,
                    )
                    &&& made.texture_formats.contains_key(reply->Ok_0.slot as u64)
                    &&& made.texture_formats[reply->Ok_0.slot as u64] == texture.format
                },
                _ => false,
            }
        }),
{
    broadcast use object::names_have_their_values;

    translate_laws::textures_are_kept(texture);
    let made = owner.create_texture(texture, o).0;
    assert(made.log.last() is CreateTexture);
}

/// The same of a sampler.
pub proof fn made_samplers_are_named_by_slot(
    owner: Owner,
    sampler: SamplerDescriptor,
    o: Seq<NativeStep>,
)
    requires
        owner.create_sampler(sampler, o).1 is Ok,
    ensures
        ({
            let (made, name) = owner.create_sampler(sampler, o);
            match made.log.last() {
                NativeStep::CreateSampler { desc, reply } => {
                    &&& reply is Ok
                    &&& reply->Ok_0.slot + 1 == name->Ok_0@
                    &&& desc.mag_filter is Linear <==> sampler.mag_filter is Linear
                    &&& desc.min_filter is Linear <==> sampler.min_filter is Linear
                    &&& desc.lod_min_bits == sampler.lod_min_bits
                    &&& desc.lod_max_bits == sampler.lod_max_bits
                },
                _ => false,
            }
        }),
{
    broadcast use object::names_have_their_values;

}

/// A shader that was made is text of its artifact.
pub proof fn made_shaders_are_of_their_artifact(
    owner: Owner,
    artifact: ShaderArtifact,
    o: Seq<NativeStep>,
)
    requires
        owner.create_shader(artifact, o).1 is Ok,
    ensures
        ({
            let (made, name) = owner.create_shader(artifact, o);
            match made.log.last() {
                NativeStep::CreateShader { source, reply } => {
                    &&& reply is Ok && reply->Ok_0.slot + 1 == name->Ok_0@
                    &&& source.entry_point == artifact.entry_point
                    &&& source.stage is Vertex <==> artifact.stage is Vertex
                    &&& source.stage is Fragment <==> artifact.stage is Fragment
                    &&& match artifact.code {
                        ShaderCode::Glsl { source: text, .. } => source.text == text,
                        ShaderCode::GlslEs { source: text, .. } => source.text == text,
                        ShaderCode::Other => false,
                    }
                },
                _ => false,
            }
        }),
{
    broadcast use object::names_have_their_values;

    translate_laws::shaders_are_kept(artifact);
    let made = owner.create_shader(artifact, o).0;
    assert(made.log.last() is CreateShader);
}

/// A view that was made stands for its texture: it is bound to the target of
/// the texture's dimension, read as the texture's format, and begins where the
/// descriptor says. No other view is touched.
pub proof fn made_views_show_their_texture(
    owner: Owner,
    texture: GlTextureRef,
    desc: TextureViewDescriptor,
    o: Seq<NativeStep>,
)
    requires
        owner.create_texture_view(texture, desc, o).1 is Ok,
    ensures
        ({
            let (made, name) = owner.create_texture_view(texture, desc, o);
            let view = made.views[name->Ok_0@ as u64];
            &&& made.views.contains_key(name->Ok_0@ as u64)
            &&& view.texture.slot + 1 == texture.name@
            &&& view.mip_level == desc.base_mip
            &&& view.base_layer == desc.base_layer
            &&& view.layer_count == desc.layer_count
            &&& owner.texture_formats.contains_key(view.texture.slot as u64)
            &&& format_laws::gl_texel(view.format) == format_laws::portable_texel(
                owner.texture_formats[view.texture.slot as u64],
            )
            &&& match made.log.last() {
                NativeStep::FindTexture { id, reply, .. } => {
                    &&& id == view.texture
                    &&& reply is Ok
                    &&& view.target is D2 <==> reply->Ok_0.dimension is D2
                    &&& view.target is D2Array <==> reply->Ok_0.dimension is D2Array
                    &&& view.target is Cube <==> reply->Ok_0.dimension is Cube
                    &&& view.target is D3 <==> reply->Ok_0.dimension is D3
                    &&& desc.mip_count == reply->Ok_0.mip_level_count
                    &&& desc.layer_count == reply->Ok_0.extent.depth_or_layers
                },
                _ => false,
            }
            &&& forall|key: u64|
                key != name->Ok_0@ as u64 && #[trigger] owner.views.contains_key(key)
                    ==> made.views.contains_key(key) && made.views[key] == owner.views[key]
        }),
{
}

proof fn lemma_queries(
    owner: Owner,
    made: Seq<QueryId>,
    count: u32,
    operation: &'static str,
    o: Seq<NativeStep>,
)
    requires
        made.len() <= count,
        made.len() <= owner.log.len(),
        forall|i: int|
            0 <= i < made.len() ==> (#[trigger] owner.log[owner.log.len() - made.len() + i])
                == (NativeStep::CreateQuery { reply: Ok(made[i]) }),
        owner.create_queries(made, count, operation, o).1 is Ok,
    ensures
        ({
            let (after, queries) = owner.create_queries(made, count, operation, o);
            &&& queries->Ok_0.len() == count
            &&& after.log.len() == owner.log.len() + count - made.len()
            &&& forall|i: int|
                0 <= i < count ==> (#[trigger] after.log[after.log.len() - count + i])
                    == (NativeStep::CreateQuery { reply: Ok(queries->Ok_0[i]) })
        }),
    decreases count - made.len(),
{
    if made.len() < count {
        let reply = owner.next(o)->CreateQuery_reply;
        let asked = owner.asked(NativeStep::CreateQuery { reply });
        let longer = made.push(reply->Ok_0);
        assert forall|i: int| 0 <= i < longer.len() implies (
        #[trigger] asked.log[asked.log.len() - longer.len() + i]) == (NativeStep::CreateQuery {
            reply: Ok(longer[i]),
        }) by {
            if i < made.len() {
                assert(asked.log[asked.log.len() - longer.len() + i] == owner.log[owner.log.len()
                    - made.len() + i]);
            }
        }
        lemma_queries(asked, longer, count, operation, o);
    }
}

/// A query set has as many queries as were asked for, each of them made for it,
/// in the order in which they were made, and the type that was asked for.
pub proof fn made_query_sets_have_their_queries(
    owner: Owner,
    desc: QuerySetDescriptor,
    o: Seq<NativeStep>,
)
    requires
        owner.create_query_set(desc, o).1 is Ok,
    ensures
        ({
            let (made, name) = owner.create_query_set(desc, o);
            let set = made.query_sets[name->Ok_0@ as u64];
            &&& made.query_sets.contains_key(name->Ok_0@ as u64)
            &&& set.ty == desc.ty
            &&& !(desc.ty is PipelineStatistics)
            &&& set.queries.len() == desc.count
            &&& made.log.len() >= desc.count
            &&& forall|i: int|
                0 <= i < desc.count ==> (#[trigger] made.log[made.log.len() - desc.count + i])
                    == (NativeStep::CreateQuery { reply: Ok(set.queries[i]) })
        }),
{
    let operation = "NativeProviderOwner::create_query_set";
    let current = owner.ready(operation, o).0;
    lemma_queries(current, Seq::empty(), desc.count, operation, o);
}

/// A bind group that was made is found under its name, as it was handed in.
pub proof fn made_groups_are_kept(owner: Owner, packet: Arc<GlBindGroupPacket>, o: Seq<NativeStep>)
    requires
        owner.create_bind_group(packet, o).1 is Ok,
    ensures
        ({
            let (made, name) = owner.create_bind_group(packet, o);
            &&& made.bind_groups.contains_key(name->Ok_0@ as u64)
            &&& made.bind_groups[name->Ok_0@ as u64] == packet
        }),
{
    let operation = "NativeProviderOwner::create_bind_group";
    let current = owner.ready(operation, o).0;
    let found = current.check_entries((*packet).entries@, 0, operation, o).0;
    let name = found.virtual_name(operation);
}

/// A raster pipeline that was linked is found under its name, with the program
/// and the vertex array that the context made for it and the state that it was
/// translated to.
pub proof fn linked_pipelines_are_kept(
    owner: Owner,
    packet: translate_raster::RasterPacketModel,
    operation: &'static str,
    o: Seq<NativeStep>,
)
    requires
        owner.link_pipeline(packet, operation, o).1 is Ok,
    ensures
        ({
            let (made, name) = owner.link_pipeline(packet, operation, o);
            let pipeline = made.raster_pipelines[name->Ok_0@ as u64];
            &&& made.raster_pipelines.contains_key(name->Ok_0@ as u64)
            &&& made.log.len() == owner.log.len() + 2
            &&& pipeline.state == packet.state
            &&& match (made.log[owner.log.len() as int], made.log.last()) {
                (
                    NativeStep::CreateProgram { program, reply: linked },
                    NativeStep::CreateVertexArray { layout, reply: arrayed },
                ) => {
                    &&& linked is Ok && arrayed is Ok
                    &&& pipeline.program == linked->Ok_0
                    &&& pipeline.vertex_array == arrayed->Ok_0
                    &&& program.kind == (GlProgramKind::Raster {
                        vertex: packet.vertex,
                        fragment: packet.fragment,
                    })
                    &&& program.bindings == 0
                    &&& program.debug_name == packet.debug_name
                    &&& layout.buffers == packet.buffers
                    &&& layout.attributes == packet.attributes
                },
                _ => false,
            }
        }),
{
}

/// A pipeline is translated to a vertex shader and a fragment shader of its
/// artifacts, and to a state with its own topology, faces, samples and masks;
/// until a draw says otherwise it draws to one pixel and to all depths, without
/// a scissor, with a constant of zero.
pub proof fn pipelines_are_of_their_descriptor(desc: RasterPipelineDescriptor)
    requires
        translate_raster::translated_pipeline(desc, create::unit_viewport()) is Ok,
    ensures
        ({
            let packet = translate_raster::translated_pipeline(desc, create::unit_viewport())->Ok_0;
            let state = packet.state;
            &&& desc.fragment is Some
            &&& packet.vertex.stage is Vertex && packet.fragment.stage is Fragment
            &&& packet.vertex.entry_point == desc.vertex.artifact.entry_point
            &&& packet.fragment.entry_point == desc.fragment->0.artifact.entry_point
            &&& packet.vertex.source_hash == desc.vertex.artifact.content_hash
            &&& packet.fragment.source_hash == desc.fragment->0.artifact.content_hash
            &&& packet.debug_name == desc.label
            &&& state.multisample.sample_count == desc.multisample.count
            &&& state.multisample.alpha_to_coverage_enabled
                == desc.multisample.alpha_to_coverage_enabled
            &&& state.multisample.sample_mask == desc.multisample.mask
            &&& state.cull_mode is Front <==> desc.primitive.cull_mode is Front
            &&& state.cull_mode is Back <==> desc.primitive.cull_mode is Back
            &&& state.front_face is Clockwise <==> desc.primitive.front_face is Cw
            &&& state.topology is Points <==> desc.primitive.topology is PointList
            &&& state.topology is Lines <==> desc.primitive.topology is LineList
            &&& state.topology is LineStrip <==> desc.primitive.topology is LineStrip
            &&& state.topology is Triangles <==> desc.primitive.topology is TriangleList
            &&& state.depth_stencil is Some <==> desc.depth_stencil is Some
            &&& translate_raster::gl_color_targets(desc.color_targets@) == Ok::<
                _,
                crate::api::error::RhiError,
            >(state.color_targets)
            &&& desc.depth_stencil is Some ==> translate_raster::gl_depth_stencil(
                desc.depth_stencil->0,
            ) == Ok::<_, crate::api::error::RhiError>(state.depth_stencil->0)
            &&& desc.primitive.polygon_mode is Fill
            &&& !desc.primitive.unclipped_depth && !desc.primitive.conservative
            &&& state.viewport.x == 0 && state.viewport.y == 0
            &&& state.viewport.width == 1 && state.viewport.height == 1
            &&& state.viewport.min_depth == 0 && state.viewport.max_depth == 0x3f80_0000
            &&& state.scissor is None
            &&& state.blend_constant.red == 0 && state.blend_constant.green == 0
            &&& state.blend_constant.blue == 0 && state.blend_constant.alpha == 0
        }),
{
}

/// A compute pipeline that was made is found under its name, with the program
/// that the context linked from its shader.
pub proof fn made_compute_pipelines_are_kept(
    owner: Owner,
    desc: ComputePipelineDescriptor,
    shader: GlShaderRef,
    o: Seq<NativeStep>,
)
    requires
        owner.create_compute_pipeline(desc, shader, o).1 is Ok,
    ensures
        ({
            let (made, name) = owner.create_compute_pipeline(desc, shader, o);
            &&& made.compute_pipelines.contains_key(name->Ok_0@ as u64)
            &&& match made.log.last() {
                NativeStep::CreateProgram { program, reply } => {
                    &&& reply is Ok
                    &&& made.compute_pipelines[name->Ok_0@ as u64] == reply->Ok_0
                    &&& program.debug_name == desc.label
                    &&& program.bindings == 0
                    &&& match program.kind {
                        GlProgramKind::Compute { shader: source } => source.source_hash
                            == desc.shader.artifact.content_hash && source.entry_point
                            == desc.shader.artifact.entry_point,
                        _ => false,
                    }
                },
                _ => false,
            }
        }),
{
}

} // verus!
