//! Lowering a submission: every portable object is resolved before the first
//! command is given. A refusal here proves that GL accepted nothing.

use vstd::prelude::*;
use std::sync::Arc;
use crate::api::command::{
    BoundGroupUse, BufferCopy, ColorAttachment, ColorAttachmentView, ColorClearValue,
    ComputeDispatch, CopyRecord, DrawInputs, FrameAttachment, GlAcquiredFramebuffer,
    GlSubmissionBatch, GlSubmissionPlan, IndexSpan, LoadOp, LocatedColor, PlanPoint, QueryPoint,
    RasterBegin, RasterDraw, RasterIndirect, RecordedCommand, RecordedPayload, ResourceUse,
    StoreOp, TextureCopy, UploadDescriptor, VertexBufferUse,
};
use crate::api::error;
use crate::api::error::{RhiError, RhiErrorKind};
use crate::api::format::{GlFormat, TextureFormat};
use crate::api::gl::{
    GlAdvancedRasterCapabilities, GlAttachmentTarget, GlBufferRange, GlColorAttachment, GlColorBits,
    GlDefaultFramebufferTarget, GlDispatchGroups, GlExtent3d, GlFramebufferDescriptor,
    GlIndexBinding, GlIndirectAbi, GlIndirectCommandRange, GlLoadOp, GlOrigin, GlPassAttachmentView,
    GlPixelFormat, GlPixelLayout, GlRasterPipeline, GlRasterState, GlRenderPassDescriptor,
    GlRenderTarget, GlStoreOp, GlTextureAspect, GlTextureRegion, GlTextureSubresource,
    GlTextureView, GlVertexBufferBinding, RasterStateModel,
};
use crate::api::identity::{FramebufferId, ProgramId};
use crate::api::resource::{
    Buffer, BufferUploadDescriptor, Extent3d, Origin3d, QueryType, ReadbackRequest, ReadbackTicket,
    Texture, TextureAspect, TextureSubresourceLayers, TextureUploadDescriptor,
};
use crate::native::execute;
use crate::native::execute::{
    ActionModel, BeginModel, DrawModel, NativePhaseBAction, NativeRasterBeginAction,
    NativeRasterDrawAction, SubmissionOutcome,
};
use crate::native::link;
use crate::native::link::{
    FramebufferModel, NativePlatformContext, NativeProvider, NativeStep,
};
use crate::native::owner::{GeometryModel, NativeGeometryKey, NativeOwnedProvider, Owner};
use crate::platform::backing;
use crate::platform::object::GlObjectName;
use crate::state::cache::DependencySet;
use crate::state::context::{BoundGroup, BoundGroupPacket, CanonicalBlockId, PassPacket};
use crate::translate;
use crate::translate_raster;
use crate::translate_raster::{GlFramebufferCarrier, GlRasterDrawScalars};

verus! {

/// Whether a use is a shader write. No barrier is emitted for those, so they
/// cannot be lowered.
pub open spec fn is_shader_write(resource: ResourceUse) -> bool {
    match resource {
        ResourceUse::Buffer(access) => access.shader_write,
        ResourceUse::Texture(access) => access.shader_write,
        _ => false,
    }
}

pub fn native_gl_unlowered_shader_write(resource: &ResourceUse) -> (result: bool)
    ensures
        result == is_shader_write(*resource),
{
    match resource {
        ResourceUse::Buffer(access) => access.shader_write,
        ResourceUse::Texture(access) => access.shader_write,
        ResourceUse::Frame | ResourceUse::AccelerationStructure => false,
    }
}

/// Whether one of the uses is a shader write.
pub open spec fn writes_in_shader(uses: Seq<ResourceUse>) -> bool {
    exists|i: int| 0 <= i < uses.len() && is_shader_write(#[trigger] uses[i])
}

fn any_shader_write(uses: &Vec<ResourceUse>) -> (result: bool)
    ensures
        result == writes_in_shader(uses@),
{
    let mut at: usize = 0;
    while at < uses.len()
        invariant
            at <= uses@.len(),
            forall|i: int| 0 <= i < at ==> !is_shader_write(#[trigger] uses@[i]),
        decreases uses@.len() - at,
    {
        if native_gl_unlowered_shader_write(&uses[at]) {
            return true;
        }
        at += 1;
    }
    false
}

/// Whether texels of a format and a plane can be moved as they are.
pub open spec fn is_plain_color(format: TextureFormat, aspect: TextureAspect) -> bool {
    (format == TextureFormat::Rgba8Unorm || format == TextureFormat::Rgba8UnormSrgb) && aspect
        == TextureAspect::Color
}

/// The largest alignment, up to eight, that rows of so many bytes have.
pub open spec fn row_alignment(bytes_per_row: u32) -> u32 {
    if bytes_per_row % 8 == 0 {
        8
    } else if bytes_per_row % 4 == 0 {
        4
    } else if bytes_per_row % 2 == 0 {
        2
    } else {
        1
    }
}

/// The plane of a texture, if copies reach it.
pub open spec fn gl_aspect(aspect: TextureAspect) -> Option<GlTextureAspect> {
    match aspect {
        TextureAspect::Color => Some(GlTextureAspect::Color),
        TextureAspect::Depth => Some(GlTextureAspect::DepthOnly),
        TextureAspect::Stencil => Some(GlTextureAspect::StencilOnly),
        _ => None,
    }
}

/// What an attachment holds after it was cleared.
pub open spec fn cleared_to(load: LoadOp) -> GlColorBits {
    match load {
        LoadOp::Load => GlColorBits { red: 0, green: 0, blue: 0, alpha: 0 },
        LoadOp::Clear(ColorClearValue::Float(value)) => value,
        LoadOp::Clear(ColorClearValue::Sint(value)) => value,
        LoadOp::Clear(ColorClearValue::Uint(value)) => value,
    }
}

/// An attachment of a pass.
pub open spec fn gl_attachment(view: GlPassAttachmentView, color: ColorAttachment) -> GlColorAttachment {
    GlColorAttachment {
        view,
        resolve_target: None,
        load: if color.load is Clear {
            GlLoadOp::Clear
        } else {
            GlLoadOp::Load
        },
        store: if color.store == StoreOp::Discard {
            GlStoreOp::Discard
        } else {
            GlStoreOp::Store
        },
        clear: cleared_to(color.load),
    }
}

/// The number of a linked program.
pub open spec fn program_epoch(program: ProgramId) -> u64 {
    (program.generation * 0x1_0000_0000 + program.slot) as u64
}

/// The raster state with the dynamic values of a draw.
pub open spec fn dynamic_state(state: RasterStateModel, scalars: GlRasterDrawScalars) -> RasterStateModel {
    RasterStateModel {
        viewport: match scalars.viewport {
            Some(viewport) => viewport,
            None => state.viewport,
        },
        scissor: scalars.scissor,
        blend_constant: scalars.blend_constant,
        depth_stencil: match state.depth_stencil {
            None => None,
            Some(depth) => Some(
                crate::api::gl::GlDepthStencilState {
                    stencil_reference: scalars.stencil_reference,
                    ..depth
                },
            ),
        },
        ..state
    }
}

/// Whether a draw sets a value that the pipeline was not made with.
pub open spec fn is_dynamic(state: RasterStateModel, scalars: GlRasterDrawScalars) -> bool {
    ||| scalars.viewport is Some
    ||| state.scissor != scalars.scissor
    ||| state.blend_constant != scalars.blend_constant
    ||| (state.depth_stencil is Some && state.depth_stencil->0.stencil_reference
        != scalars.stencil_reference)
}

/// The first object of a draw that GL does not back, as an error.
pub open spec fn unbacked_input(inputs: DrawInputs, arguments: Option<Buffer>) -> Option<RhiError> {
    if inputs.pipeline.native is None {
        Some(backing::unbacked("raster pipeline has no GL native backing"))
    } else if arguments is Some && arguments->0.native is None {
        Some(backing::unbacked("buffer has no GL native backing"))
    } else if exists|i: int|
        0 <= i < inputs.vertex_buffers@.len() && (
        #[trigger] inputs.vertex_buffers@[i]).buffer.native is None {
        Some(backing::unbacked("buffer has no GL native backing"))
    } else if inputs.index is Some && inputs.index->0.buffer.native is None {
        Some(backing::unbacked("buffer has no GL native backing"))
    } else {
        unbacked_group(inputs.groups@)
    }
}

/// The error for a bind group that GL does not back.
pub open spec fn unbacked_group(groups: Seq<BoundGroupUse>) -> Option<RhiError> {
    if exists|i: int| 0 <= i < groups.len() && (#[trigger] groups[i]).group.native is None {
        Some(backing::unbacked("bind group has no GL native backing"))
    } else {
        None
    }
}

/// The groups of a draw or a dispatch with a program.
pub open spec fn bound_groups(groups: Seq<BoundGroupUse>, program: ProgramId) -> Seq<BoundGroup> {
    groups.map_values(
        |group: BoundGroupUse|
            BoundGroup {
                group: group.group.id,
                name: group.group.native->0,
                index: group.index,
                dynamic_offsets: group.dynamic_offsets@,
                program_link_epoch: program_epoch(program),
                dependencies: Set::empty(),
            },
    )
}

/// What keeps the colors of an offscreen pass from being lowered: the first
/// that is a drawable, that resolves, or that GL does not back.
pub open spec fn color_refusal(colors: Seq<LocatedColor>) -> Option<RhiError>
    decreases colors.len(),
{
    if colors.len() == 0 {
        None
    } else {
        let color = colors.last().attachment;
        match color_refusal(colors.drop_last()) {
            Some(error) => Some(error),
            None => match color.view {
                ColorAttachmentView::Frame(_) => Some(
                    error::rhi_error_at(
                        RhiErrorKind::Unsupported,
                        "native GL default framebuffer raster passes require presentation lowering",
                        "NativeProviderOwner::submit phase A",
                    ),
                ),
                ColorAttachmentView::Texture(view) => if color.resolve is Some {
                    Some(
                        error::rhi_error_at(
                            RhiErrorKind::Unsupported,
                            "native GL raster resolve Phase-A lowering is not admitted yet",
                            "NativeProviderOwner::submit phase A",
                        ),
                    )
                } else if view.native is None {
                    Some(backing::unbacked("texture view has no GL native backing"))
                } else {
                    None
                },
            },
        }
    }
}

/// The dynamic values of an indirect draw. Its arguments hold the rest.
pub open spec fn indirect_scalars(inputs: DrawInputs) -> Result<GlRasterDrawScalars, RhiError> {
    translate_raster::scalars_of(
        inputs,
        IndexSpan { start: 0, end: 0 },
        IndexSpan { start: 0, end: 1 },
        0,
    )
}

/// Whether the facts of a frame are those of its drawable.
pub open spec fn frame_is_unchanged(frame: FrameAttachment, acquired: GlAcquiredFramebuffer) -> bool {
    &&& frame.extent.depth == 1
    &&& frame.sample_count == 1
    &&& frame.extent.width == acquired.extent.width
    &&& frame.extent.height == acquired.extent.height
}

impl Owner {
    pub open spec fn texture_region(
        self,
        name: GlObjectName,
        layers: TextureSubresourceLayers,
        origin: Origin3d,
        extent: Extent3d,
        operation: &'static str,
        o: Seq<NativeStep>,
    ) -> (Owner, Result<GlTextureRegion, RhiError>) {
        match gl_aspect(layers.aspect) {
            None => {
                (
                    self,
                    Err(
                        error::rhi_error_at(
                            RhiErrorKind::Unsupported,
                            "native GL has no multi-planar texture copy route",
                            operation,
                        ),
                    ),
                )
            },
            Some(aspect) => {
                let (found, outcome) = self.texture_id(name, operation, o);
                match outcome {
                    Err(error) => (found, Err(error)),
                    Ok(texture) => {
                        (
                            found,
                            Ok(
                                GlTextureRegion {
                                    subresource: GlTextureSubresource {
                                        texture,
                                        aspect,
                                        mip_level: layers.mip_level,
                                        base_layer: layers.base_layer,
                                        layer_count: layers.layer_count,
                                    },
                                    origin: GlOrigin { x: origin.x, y: origin.y, z: origin.z },
                                    extent: GlExtent3d {
                                        width: extent.width,
                                        height: extent.height,
                                        depth_or_layers: extent.depth,
                                    },
                                },
                            ),
                        )
                    },
                }
            },
        }
    }

    pub open spec fn attachment_view(
        self,
        name: GlObjectName,
        operation: &'static str,
        o: Seq<NativeStep>,
    ) -> (Owner, Result<GlTextureView, RhiError>) {
        if !self.views.contains_key(name@ as u64) {
            (
                self,
                Err(
                    error::rhi_error_at(
                        RhiErrorKind::WrongDevice,
                        "native GL texture-view carrier is not live",
                        operation,
                    ),
                ),
            )
        } else {
            let view = self.views[name@ as u64];
            let (found, outcome) = self.find_texture(operation, view.texture, o);
            match outcome {
                Err(error) => (found, Err(error)),
                Ok(desc) => {
                    match desc.spec_mip_extent(view.mip_level) {
                        None => {
                            (
                                found,
                                Err(
                                    error::rhi_error_at(
                                        RhiErrorKind::InvalidUsage,
                                        "native GL texture-view mip is outside its allocation",
                                        operation,
                                    ),
                                ),
                            )
                        },
                        Some(extent) => (
                            found,
                            Ok(
                                GlTextureView {
                                    target: GlAttachmentTarget::Texture(view.texture),
                                    format: view.format,
                                    mip_level: view.mip_level,
                                    array_layer: view.base_layer,
                                    layer_count: view.layer_count,
                                    width: extent.width,
                                    height: extent.height,
                                    sample_count: desc.sample_count,
                                },
                            ),
                        ),
                    }
                },
            }
        }
    }

    pub open spec fn lower_buffer_copy(self, copy: BufferCopy, o: Seq<NativeStep>) -> (
        Owner,
        Result<ActionModel, RhiError>,
    ) {
        let operation = "NativeProviderOwner::submit phase A copy-buffer";
        match (copy.src.native, copy.dst.native) {
            (Some(src), Some(dst)) => {
                let (current, outcome) = self.ready(operation, o);
                match outcome {
                    Err(error) => (current, Err(error)),
                    Ok(_ready) => {
                        let (read, outcome) = current.buffer_id(src, operation, o);
                        match outcome {
                            Err(error) => (read, Err(error)),
                            Ok(source) => {
                                let (both, outcome) = read.buffer_id(dst, operation, o);
                                match outcome {
                                    Err(error) => (both, Err(error)),
                                    Ok(destination) => {
                                        (
                                            both,
                                            Ok(
                                                ActionModel::CopyBuffer {
                                                    source: GlBufferRange {
                                                        buffer: source,
                                                        offset: copy.src_offset,
                                                        size: copy.size,
                                                    },
                                                    destination: GlBufferRange {
                                                        buffer: destination,
                                                        offset: copy.dst_offset,
                                                        size: copy.size,
                                                    },
                                                },
                                            ),
                                        )
                                    },
                                }
                            },
                        }
                    },
                }
            },
            _ => (self, Err(backing::unbacked("buffer has no GL native backing"))),
        }
    }

    pub open spec fn lower_texture_copy(self, copy: TextureCopy, o: Seq<NativeStep>) -> (
        Owner,
        Result<ActionModel, RhiError>,
    ) {
        let operation = "NativeProviderOwner::submit phase A copy-texture";
        match (copy.src.native, copy.dst.native) {
            (Some(src), Some(dst)) => {
                let (current, outcome) = self.ready(operation, o);
                match outcome {
                    Err(error) => (current, Err(error)),
                    Ok(_ready) => {
                        let (read, outcome) = current.texture_region(src, copy.src_subresource, copy.src_origin, copy.extent, operation, o);
                        match outcome {
                            Err(error) => (read, Err(error)),
                            Ok(source) => {
                                let (both, outcome) = read.texture_region(dst, copy.dst_subresource, copy.dst_origin, copy.extent, operation, o);
                                match outcome {
                                    Err(error) => (both, Err(error)),
                                    Ok(destination) => {
                                        (both, Ok(ActionModel::CopyTexture { source, destination }))
                                    },
                                }
                            },
                        }
                    },
                }
            },
            _ => (self, Err(backing::unbacked("texture has no GL native backing"))),
        }
    }

    pub open spec fn lower_buffer_upload(
        self,
        upload: BufferUploadDescriptor,
        o: Seq<NativeStep>,
    ) -> (Owner, Result<ActionModel, RhiError>) {
        let operation = "NativeProviderOwner::submit phase A upload-buffer";
        match upload.dst.native {
            None => (self, Err(backing::unbacked("buffer has no GL native backing"))),
            Some(name) => {
                let (current, outcome) = self.ready(operation, o);
                match outcome {
                    Err(error) => (current, Err(error)),
                    Ok(_ready) => {
                        let (found, outcome) = current.buffer_id(name, operation, o);
                        match outcome {
                            Err(error) => (found, Err(error)),
                            Ok(buffer) => {
                                (
                                    found,
                                    Ok(
                                        ActionModel::UploadBuffer {
                                            destination: GlBufferRange {
                                                buffer,
                                                offset: upload.dst_offset,
                                                size: upload.bytes@.len() as u64,
                                            },
                                            bytes: upload.bytes,
                                        },
                                    ),
                                )
                            },
                        }
                    },
                }
            },
        }
    }

    pub open spec fn lower_texture_upload(
        self,
        upload: TextureUploadDescriptor,
        o: Seq<NativeStep>,
    ) -> (Owner, Result<ActionModel, RhiError>) {
        let operation = "NativeProviderOwner::submit phase A upload-texture";
        let format = upload.dst.descriptor.format;
        let refusal = if translate::is_compressed(format) {
            match translate::checked_compressed_upload(upload, operation) {
                Ok(_) => None,
                Err(error) => Some(error),
            }
        } else if !is_plain_color(format, upload.subresource.aspect) {
            Some(
                error::rhi_error_at(
                    RhiErrorKind::Unsupported,
                    "native GL texture upload currently admits RGBA8 color textures",
                    "NativeProviderOwner::submit phase A",
                ),
            )
        } else {
            None
        };
        match (refusal, upload.dst.native) {
            (Some(error), _) => (self, Err(error)),
            (None, None) => (self, Err(backing::unbacked("texture has no GL native backing"))),
            (None, Some(name)) => {
                let (current, outcome) = self.ready(operation, o);
                match outcome {
                    Err(error) => (current, Err(error)),
                    Ok(_ready) => {
                        let (found, outcome) = current.texture_region(name, upload.subresource, upload.origin, upload.extent, operation, o);
                        match outcome {
                            Err(error) => (found, Err(error)),
                            Ok(destination) => {
                                (
                                    found,
                                    Ok(
                                        ActionModel::UploadTexture {
                                            destination,
                                            layout: GlPixelLayout {
                                                format: GlPixelFormat::Rgba8,
                                                bytes_per_row: upload.source_layout.bytes_per_row,
                                                rows_per_image: upload.source_layout.rows_per_image,
                                                offset: 0,
                                                alignment: row_alignment(upload.source_layout.bytes_per_row),
                                                repack_limit: upload.bytes@.len() as u64,
                                            },
                                            bytes: upload.bytes,
                                        },
                                    ),
                                )
                            },
                        }
                    },
                }
            },
        }
    }

    pub open spec fn lower_readback(self, ticket: ReadbackTicket, o: Seq<NativeStep>) -> (
        Owner,
        Result<ActionModel, RhiError>,
    ) {
        match ticket.request {
            ReadbackRequest::Buffer { src, range } => match src.native {
                None => (self, Err(backing::unbacked("buffer has no GL native backing"))),
                Some(name) => {
                    let operation = "NativeProviderOwner::submit phase A read-buffer";
                    let (current, outcome) = self.ready(operation, o);
                    match outcome {
                        Err(error) => (current, Err(error)),
                        Ok(_ready) => {
                            let (found, outcome) = current.buffer_id(name, operation, o);
                            match outcome {
                                Err(error) => (found, Err(error)),
                                Ok(buffer) => {
                                    (
                                        found,
                                        Ok(
                                            ActionModel::ReadBuffer {
                                                source: GlBufferRange {
                                                    buffer,
                                                    offset: range.offset,
                                                    size: range.size,
                                                },
                                                ticket,
                                            },
                                        ),
                                    )
                                },
                            }
                        },
                    }
                },
            },
            ReadbackRequest::Texture { src, subresource, origin, extent } => if !is_plain_color(
                src.descriptor.format,
                subresource.aspect,
            ) {
                (
                    self,
                    Err(
                        error::rhi_error_at(
                            RhiErrorKind::Unsupported,
                            "native GL texture readback currently admits RGBA8 color textures",
                            "NativeProviderOwner::submit phase A",
                        ),
                    ),
                )
            } else {
                match src.native {
                    None => (self, Err(backing::unbacked("texture has no GL native backing"))),
                    Some(name) => if extent.width * 4 > u32::MAX {
                        (
                            self,
                            Err(
                                error::rhi_error(
                                    RhiErrorKind::OutOfMemory,
                                    "native GL texture readback row size overflows",
                                ),
                            ),
                        )
                    } else {
                        let operation = "NativeProviderOwner::submit phase A read-texture";
                        let (current, outcome) = self.ready(operation, o);
                        match outcome {
                            Err(error) => (current, Err(error)),
                            Ok(_ready) => {
                                let (found, outcome) = current.texture_region(name, subresource, origin, extent, operation, o);
                                match outcome {
                                    Err(error) => (found, Err(error)),
                                    Ok(source) => {
                                        (
                                            found,
                                            Ok(
                                                ActionModel::ReadTexture {
                                                    source,
                                                    layout: GlPixelLayout {
                                                        format: GlPixelFormat::Rgba8,
                                                        bytes_per_row: (extent.width * 4) as u32,
                                                        rows_per_image: extent.height,
                                                        offset: 0,
                                                        alignment: 4,
                                                        repack_limit: u64::MAX,
                                                    },
                                                    ticket,
                                                },
                                            ),
                                        )
                                    },
                                }
                            },
                        }
                    },
                }
            },
        }
    }

    /// Three numbers for the framebuffer state of a pass.
    pub open spec fn number_pass(self, operation: &'static str) -> (
        Owner,
        Result<PassPacket, RhiError>,
    ) {
        let (one, outcome) = self.canonical(operation);
        match outcome {
            Err(error) => (one, Err(error)),
            Ok(draw_framebuffer) => {
                let (two, outcome) = one.canonical(operation);
                match outcome {
                    Err(error) => (two, Err(error)),
                    Ok(read_framebuffer) => {
                        let (three, outcome) = two.canonical(operation);
                        match outcome {
                            Err(error) => (three, Err(error)),
                            Ok(draw_buffers) => {
                                (three, Ok(PassPacket { draw_framebuffer, read_framebuffer, draw_buffers }))
                            },
                        }
                    },
                }
            },
        }
    }

    /// A pass on the drawable. The frame must be the one that is acquired, and
    /// the drawable must still have its size.
    pub open spec fn lower_default_begin(
        self,
        frame: FrameAttachment,
        color: ColorAttachment,
        location: u32,
        o: Seq<NativeStep>,
    ) -> (Owner, Result<ActionModel, RhiError>) {
        let refuser = "NativeProviderOwner::submit phase A raster-begin";
        let operation = "NativeProviderOwner::submit phase A raster-begin-default";
        if color.resolve is Some {
            (
                self,
                Err(
                    error::rhi_error_at(
                        RhiErrorKind::Unsupported,
                        "native GL default framebuffer resolve lowering is not admitted yet",
                        refuser,
                    ),
                ),
            )
        } else if location != 0 {
            (
                self,
                Err(
                    error::rhi_error_at(
                        RhiErrorKind::Unsupported,
                        "native GL default framebuffer admits color location zero only",
                        refuser,
                    ),
                ),
            )
        } else if frame.native is None {
            (
                self,
                Err(backing::unbacked("frame attachment has no GL default-framebuffer backing")),
            )
        } else if !frame_is_unchanged(frame, frame.native->0) {
            (
                self,
                Err(
                    error::rhi_error_at(
                        RhiErrorKind::InvalidUsage,
                        "native GL frame facts changed after acquisition",
                        refuser,
                    ),
                ),
            )
        } else {
            let acquired = frame.native->0;
            match translate::translated_format(frame.format) {
                Err(error) => (self, Err(error)),
                Ok(format) => {
                    let (current, outcome) = self.ready(operation, o);
                    match outcome {
                        Err(error) => (current, Err(error)),
                        Ok(_ready) => {
                            current.lower_acquired_begin(frame, acquired, format, color, operation, o)
                        },
                    }
                },
            }
        }
    }

    pub open spec fn lower_acquired_begin(
        self,
        frame: FrameAttachment,
        acquired: GlAcquiredFramebuffer,
        format: GlFormat,
        color: ColorAttachment,
        operation: &'static str,
        o: Seq<NativeStep>,
    ) -> (Owner, Result<ActionModel, RhiError>) {
        let held = if self.leases.contains_key(acquired.lease.id) {
            self.leases[acquired.lease.id]
        } else {
            None
        };
        match held {
            None => {
                (
                    self,
                    Err(
                        error::rhi_error_at(
                            RhiErrorKind::InvalidUsage,
                            "native GL frame lease is not currently acquired",
                            operation,
                        ),
                    ),
                )
            },
            Some((serial, image)) => if serial != acquired.serial || acquired.framebuffer != 0
                || image.size.width != acquired.extent.width || image.size.height
                != acquired.extent.height {
                (
                    self,
                    Err(
                        error::rhi_error_at(
                            RhiErrorKind::InvalidUsage,
                            "native GL acquired frame is stale or names a foreign default framebuffer",
                            operation,
                        ),
                    ),
                )
            } else {
                let (asked, outcome) = self.drawable_extent(o);
                match outcome {
                    Err(error) => (asked, Err(error)),
                    Ok(extent) => if extent != Some(acquired.extent) {
                        (
                            asked,
                            Err(
                                error::rhi_error_at(
                                    RhiErrorKind::InvalidUsage,
                                    "native GL drawable extent changed after acquisition",
                                    operation,
                                ),
                            ),
                        )
                    } else {
                        let (stamped, context) = asked.stamp(o);
                        let target = GlDefaultFramebufferTarget {
                            frame_serial: acquired.serial,
                            context,
                            width: frame.extent.width,
                            height: frame.extent.height,
                            sample_count: 1,
                            color_format: format,
                        };
                        let (numbered, outcome) = stamped.number_pass(operation);
                        match outcome {
                            Err(error) => (numbered, Err(error)),
                            Ok(pass) => (
                                numbered,
                                Ok(
                                    ActionModel::RasterBegin(
                                        BeginModel {
                                            framebuffer: None,
                                            target: GlRenderTarget::Default(target),
                                            colors: seq![
                                                gl_attachment(
                                                    GlPassAttachmentView::DefaultColor(target),
                                                    color,
                                                ),
                                            ],
                                            depth_stencil: None,
                                            pass,
                                        },
                                    ),
                                ),
                            ),
                        }
                    },
                }
            },
        }
    }

    /// The views of the colors of a pass, from a position on.
    pub open spec fn lower_colors(
        self,
        colors: Seq<LocatedColor>,
        at: int,
        views: Seq<GlTextureView>,
        operation: &'static str,
        o: Seq<NativeStep>,
    ) -> (Owner, Result<Seq<GlTextureView>, RhiError>)
        decreases colors.len() - at,
    {
        if at >= colors.len() {
            (self, Ok(views))
        } else {
            let (found, outcome) = self.attachment_view(
                colors[at].attachment.view->Texture_0.native->0,
                operation,
                o,
            );
            match outcome {
                Err(error) => (found, Err(error)),
                Ok(view) => found.lower_colors(colors, at + 1, views.push(view), operation, o),
            }
        }
    }

    /// A pass on textures.
    pub open spec fn lower_offscreen_begin(self, colors: Seq<LocatedColor>, o: Seq<NativeStep>) -> (
        Owner,
        Result<ActionModel, RhiError>,
    ) {
        let operation = "NativeProviderOwner::submit phase A raster-begin";
        match color_refusal(colors) {
            Some(error) => (self, Err(error)),
            None => {
                let (current, outcome) = self.ready(operation, o);
                match outcome {
                    Err(error) => (current, Err(error)),
                    Ok(_ready) => {
                        let (found, outcome) = current.lower_colors(colors, 0, Seq::empty(), operation, o);
                        match outcome {
                            Err(error) => (found, Err(error)),
                            Ok(views) => {
                                let (numbered, outcome) = found.number_pass(operation);
                                match outcome {
                                    Err(error) => (numbered, Err(error)),
                                    Ok(pass) => {
                                        let (stamped, context) = numbered.stamp(o);
                                        (
                                            stamped,
                                            Ok(
                                                ActionModel::RasterBegin(
                                                    BeginModel {
                                                        framebuffer: Some(
                                                            FramebufferModel {
                                                                colors: views,
                                                                depth_stencil: None,
                                                                draw_buffers: colors.map_values(
                                                                    |color: LocatedColor| color.location,
                                                                ),
                                                            },
                                                        ),
                                                        target: GlRenderTarget::Offscreen(
                                                            FramebufferId { stamp: context, slot: 0, generation: 0 },
                                                        ),
                                                        colors: Seq::new(
                                                            colors.len(),
                                                            |i: int|
                                                                gl_attachment(
                                                                    GlPassAttachmentView::Allocated(views[i]),
                                                                    colors[i].attachment,
                                                                ),
                                                        ),
                                                        depth_stencil: None,
                                                        pass,
                                                    },
                                                ),
                                            ),
                                        )
                                    },
                                }
                            },
                        }
                    },
                }
            },
        }
    }

    pub open spec fn lower_raster_begin(self, begin: RasterBegin, o: Seq<NativeStep>) -> (
        Owner,
        Result<ActionModel, RhiError>,
    ) {
        if begin.depth_stencil is Some {
            (
                self,
                Err(
                    error::rhi_error_at(
                        RhiErrorKind::Unsupported,
                        "native GL raster depth/stencil Phase-A lowering is not admitted yet",
                        "NativeProviderOwner::submit phase A",
                    ),
                ),
            )
        } else if begin.colors@.len() == 1 && begin.colors@[0].attachment.view is Frame {
            self.lower_default_begin(
                begin.colors@[0].attachment.view->Frame_0,
                begin.colors@[0].attachment,
                begin.colors@[0].location,
                o,
            )
        } else {
            self.lower_offscreen_begin(begin.colors@, o)
        }
    }

    /// The vertex buffers of a draw, from a position on.
    pub open spec fn lower_vertices(
        self,
        buffers: Seq<VertexBufferUse>,
        at: int,
        bindings: Seq<GlVertexBufferBinding>,
        operation: &'static str,
        o: Seq<NativeStep>,
    ) -> (Owner, Result<Seq<GlVertexBufferBinding>, RhiError>)
        decreases buffers.len() - at,
    {
        if at >= buffers.len() {
            (self, Ok(bindings))
        } else {
            let (found, outcome) = self.buffer_id(buffers[at].buffer.native->0, operation, o);
            match outcome {
                Err(error) => (found, Err(error)),
                Ok(buffer) => found.lower_vertices(
                    buffers,
                    at + 1,
                    bindings.push(
                        GlVertexBufferBinding {
                            slot: buffers[at].slot,
                            buffer,
                            offset: buffers[at].range.offset,
                        },
                    ),
                    operation,
                    o,
                ),
            }
        }
    }

    /// The index buffer of a draw, if it has one.
    pub open spec fn lower_index(
        self,
        inputs: DrawInputs,
        operation: &'static str,
        o: Seq<NativeStep>,
    ) -> (Owner, Result<Option<GlIndexBinding>, RhiError>) {
        match inputs.index {
            None => (self, Ok(None)),
            Some(index) => {
                let (found, outcome) = self.buffer_id(index.buffer.native->0, operation, o);
                match outcome {
                    Err(error) => (found, Err(error)),
                    Ok(buffer) => {
                        (
                            found,
                            Ok(
                                Some(
                                    GlIndexBinding {
                                        buffer,
                                        format: translate::gl_index_format(index.format),
                                        offset: index.range.offset,
                                    },
                                ),
                            ),
                        )
                    },
                }
            },
        }
    }

    /// Whether all groups are alive.
    pub open spec fn has_groups(self, groups: Seq<BoundGroupUse>) -> bool {
        forall|i: int|
            0 <= i < groups.len() ==> self.bind_groups.contains_key(
                (#[trigger] groups[i]).group.native->0@ as u64,
            )
    }

    /// What direct and indirect draws have in common.
    pub open spec fn lower_draw(
        self,
        inputs: DrawInputs,
        scalars: GlRasterDrawScalars,
        operation: &'static str,
        o: Seq<NativeStep>,
    ) -> (Owner, Result<DrawModel, RhiError>) {
        let (current, outcome) = self.ready(operation, o);
        match outcome {
            Err(error) => (current, Err(error)),
            Ok(_ready) => {
                let key = inputs.pipeline.native->0@ as u64;
                if !current.raster_pipelines.contains_key(key) {
                    (
                        current,
                        Err(
                            error::rhi_error_at(
                                RhiErrorKind::WrongDevice,
                                "native GL raster pipeline backing is not live",
                                operation,
                            ),
                        ),
                    )
                } else {
                    let stored = current.raster_pipelines[key];
                    let (found, outcome) = current.lower_vertices(inputs.vertex_buffers@, 0, Seq::empty(), operation, o);
                    match outcome {
                        Err(error) => (found, Err(error)),
                        Ok(geometry) => {
                            let (indexed, outcome) = found.lower_index(inputs, operation, o);
                            match outcome {
                                Err(error) => (indexed, Err(error)),
                                Ok(index) => {
                                    if !indexed.has_groups(inputs.groups@) {
                                        (
                                            indexed,
                                            Err(
                                                error::rhi_error_at(
                                                    RhiErrorKind::WrongDevice,
                                                    "native GL bind group backing is not live",
                                                    operation,
                                                ),
                                            ),
                                        )
                                    } else {
                                        let (numbered, outcome) = indexed.geometry_canonical(GeometryModel { vertex_array: stored.vertex_array, vertices: geometry, index }, operation);
                                        match outcome {
                                            Err(error) => (numbered, Err(error)),
                                            Ok(geometry_key) => {
                                                (
                                                    numbered,
                                                    Ok(
                                                        DrawModel {
                                                            program: stored.program,
                                                            vertex_array: stored.vertex_array,
                                                            state: dynamic_state(stored.state, scalars),
                                                            packet: stored.packet,
                                                            has_dynamic_state: is_dynamic(stored.state, scalars),
                                                            draw: scalars.draw.draw,
                                                            geometry,
                                                            index,
                                                            geometry_key,
                                                            bind_groups: bound_groups(inputs.groups@, stored.program),
                                                        },
                                                    ),
                                                )
                                            },
                                        }
                                    }
                                },
                            }
                        },
                    }
                }
            },
        }
    }

    pub open spec fn lower_raster_draw(self, draw: RasterDraw, o: Seq<NativeStep>) -> (
        Owner,
        Result<ActionModel, RhiError>,
    ) {
        match translate_raster::drawn_scalars(draw) {
            Err(error) => (self, Err(error)),
            Ok(scalars) => if !scalars.draw.spec_is_within(
                GlAdvancedRasterCapabilities { base_vertex: false, first_instance: false },
            ) {
                (
                    self,
                    Err(
                        error::rhi_error_at(
                            RhiErrorKind::Unsupported,
                            "native GL baseline raster route has no base-vertex or first-instance lowering",
                            "NativeProviderOwner::submit phase A",
                        ),
                    ),
                )
            } else {
                match unbacked_input(draw.inputs, None) {
                    Some(error) => (self, Err(error)),
                    None => {
                        let (lowered, outcome) = self.lower_draw(draw.inputs, scalars, "NativeProviderOwner::submit phase A raster-draw", o);
                        match outcome {
                            Err(error) => (lowered, Err(error)),
                            Ok(action) => {
                                (lowered, Ok(ActionModel::RasterDraw(action)))
                            },
                        }
                    },
                }
            },
        }
    }

    pub open spec fn lower_raster_indirect(self, indirect: RasterIndirect, o: Seq<NativeStep>) -> (
        Owner,
        Result<ActionModel, RhiError>,
    ) {
        let operation = "NativeProviderOwner::submit phase A raster-indirect";
        if indirect.draw_count != 1 || indirect.count is Some {
            (
                self,
                Err(
                    error::rhi_error_at(
                        RhiErrorKind::Unsupported,
                        "native GL only lowers one-record raster indirect draws",
                        operation,
                    ),
                ),
            )
        } else {
            match indirect_scalars(indirect.inputs) {
                Err(error) => (self, Err(error)),
                Ok(scalars) => match unbacked_input(indirect.inputs, Some(indirect.arguments)) {
                    Some(error) => (self, Err(error)),
                    None => {
                        let (lowered, outcome) = self.lower_draw(indirect.inputs, scalars, operation, o);
                        match outcome {
                            Err(error) => (lowered, Err(error)),
                            Ok(draw) => {
                                let (found, outcome) = lowered.buffer_id(indirect.arguments.native->0, operation, o);
                                match outcome {
                                    Err(error) => (found, Err(error)),
                                    Ok(buffer) => {
                                        (
                                            found,
                                            Ok(
                                                ActionModel::RasterIndirect {
                                                    draw,
                                                    command: GlIndirectCommandRange {
                                                        range: GlBufferRange {
                                                            buffer,
                                                            offset: 0,
                                                            size: indirect.arguments.descriptor.size,
                                                        },
                                                        command_offset: indirect.arguments_offset,
                                                        draw_count: 1,
                                                        stride: indirect.stride,
                                                        abi: if indirect.inputs.index is Some {
                                                            GlIndirectAbi::Indexed
                                                        } else {
                                                            GlIndirectAbi::NonIndexed
                                                        },
                                                    },
                                                },
                                            ),
                                        )
                                    },
                                }
                            },
                        }
                    },
                },
            }
        }
    }

    pub open spec fn lower_compute_dispatch(
        self,
        dispatch: ComputeDispatch,
        o: Seq<NativeStep>,
    ) -> (Owner, Result<ActionModel, RhiError>) {
        let operation = "NativeProviderOwner::submit phase A compute-dispatch";
        if dispatch.immediates@.len() != 0 {
            (
                self,
                Err(
                    error::rhi_error_at(
                        RhiErrorKind::Unsupported,
                        "native GL has no verified immediate-data lowering",
                        operation,
                    ),
                ),
            )
        } else if dispatch.pipeline.native is None {
            (self, Err(backing::unbacked("compute pipeline has no GL native backing")))
        } else {
            match unbacked_group(dispatch.groups@) {
                Some(error) => (self, Err(error)),
                None => {
                    let (current, outcome) = self.ready(operation, o);
                    match outcome {
                        Err(error) => (current, Err(error)),
                        Ok(_ready) => {
                            let key = dispatch.pipeline.native->0@ as u64;
                            if !current.compute_pipelines.contains_key(key) {
                                (
                                    current,
                                    Err(
                                        error::rhi_error_at(
                                            RhiErrorKind::WrongDevice,
                                            "native GL compute pipeline backing is not live",
                                            operation,
                                        ),
                                    ),
                                )
                            } else if !current.has_groups(dispatch.groups@) {
                                (
                                    current,
                                    Err(
                                        error::rhi_error_at(
                                            RhiErrorKind::WrongDevice,
                                            "native GL bind group backing is not live",
                                            operation,
                                        ),
                                    ),
                                )
                            } else {
                                let program = current.compute_pipelines[key];
                                (
                                    current,
                                    Ok(
                                        ActionModel::ComputeDispatch {
                                            program,
                                            program_key: CanonicalBlockId::Program(program),
                                            groups: GlDispatchGroups {
                                                x: dispatch.x,
                                                y: dispatch.y,
                                                z: dispatch.z,
                                            },
                                            bind_groups: bound_groups(dispatch.groups@, program),
                                        },
                                    ),
                                )
                            }
                        },
                    }
                },
            }
        }
    }

    /// An occlusion query. Other queries have neither begin nor end.
    pub open spec fn lower_query(
        self,
        point: QueryPoint,
        operation: &'static str,
        o: Seq<NativeStep>,
    ) -> (Owner, Result<(crate::api::identity::QueryId, QueryType), RhiError>) {
        match point.set.native {
            None => (self, Err(backing::unbacked("query set has no GL native backing"))),
            Some(name) => {
                let (current, outcome) = self.ready(operation, o);
                match outcome {
                    Err(error) => (current, Err(error)),
                    Ok(_ready) => {
                        let (found, outcome) = current.query_id(name, point.index, None, operation, o);
                        match outcome {
                            Err(error) => (found, Err(error)),
                            Ok(query) => {
                                if query.1 != QueryType::Occlusion {
                                    (
                                        found,
                                        Err(
                                            error::rhi_error_at(
                                                RhiErrorKind::Unsupported,
                                                "native GL only lowers occlusion begin/end query sets",
                                                operation,
                                            ),
                                        ),
                                    )
                                } else {
                                    (found, Ok(query))
                                }
                            },
                        }
                    },
                }
            },
        }
    }

    pub open spec fn lower_query_begin(self, point: QueryPoint, o: Seq<NativeStep>) -> (
        Owner,
        Result<ActionModel, RhiError>,
    ) {
        let operation = "NativeProviderOwner::submit phase A query-begin";
        let (found, outcome) = self.lower_query(point, operation, o);
        match outcome {
            Err(error) => (found, Err(error)),
            Ok(query) => {
                let (numbered, outcome) = found.canonical(operation);
                match outcome {
                    Err(error) => (numbered, Err(error)),
                    Ok(state_key) => {
                        (numbered, Ok(ActionModel::QueryBegin { query: query.0, ty: query.1, state_key }))
                    },
                }
            },
        }
    }

    pub open spec fn lower_query_end(self, point: QueryPoint, o: Seq<NativeStep>) -> (
        Owner,
        Result<ActionModel, RhiError>,
    ) {
        let (found, outcome) = self.lower_query(point, "NativeProviderOwner::submit phase A query-end", o);
        match outcome {
            Err(error) => (found, Err(error)),
            Ok(query) => {
                (found, Ok(ActionModel::QueryEnd { ty: query.1 }))
            },
        }
    }

    pub open spec fn lower_timestamp(self, point: QueryPoint, o: Seq<NativeStep>) -> (
        Owner,
        Result<ActionModel, RhiError>,
    ) {
        let operation = "NativeProviderOwner::submit phase A timestamp";
        match point.set.native {
            None => (self, Err(backing::unbacked("query set has no GL native backing"))),
            Some(name) => {
                let (current, outcome) = self.ready(operation, o);
                match outcome {
                    Err(error) => (current, Err(error)),
                    Ok(_ready) => {
                        let (found, outcome) = current.query_id(name, point.index, Some(QueryType::Timestamp), operation, o);
                        match outcome {
                            Err(error) => (found, Err(error)),
                            Ok(query) => {
                                (found, Ok(ActionModel::Timestamp(query.0)))
                            },
                        }
                    },
                }
            },
        }
    }

    /// Lowers one command that asks for work.
    pub open spec fn lower_payload(self, payload: RecordedPayload, o: Seq<NativeStep>) -> (
        Owner,
        Result<ActionModel, RhiError>,
    ) {
        match payload {
            RecordedPayload::Copy(CopyRecord::Buffer(copy)) => self.lower_buffer_copy(copy, o),
            RecordedPayload::Copy(CopyRecord::Texture(copy)) => self.lower_texture_copy(copy, o),
            RecordedPayload::Upload(UploadDescriptor::Buffer(upload)) => self.lower_buffer_upload(
                upload,
                o,
            ),
            RecordedPayload::Upload(UploadDescriptor::Texture(upload)) => {
                self.lower_texture_upload(upload, o)
            },
            RecordedPayload::Readback(ticket) => self.lower_readback(ticket, o),
            RecordedPayload::RasterBegin(begin) => self.lower_raster_begin(begin, o),
            RecordedPayload::RasterEnd => (self, Ok(ActionModel::RasterEnd)),
            RecordedPayload::RasterDraw(draw) => self.lower_raster_draw(draw, o),
            RecordedPayload::RasterIndirect(indirect) => self.lower_raster_indirect(indirect, o),
            RecordedPayload::ComputeDispatch(dispatch) => self.lower_compute_dispatch(dispatch, o),
            RecordedPayload::QueryBegin(point) => self.lower_query_begin(point, o),
            RecordedPayload::QueryEnd(point) => self.lower_query_end(point, o),
            RecordedPayload::TimestampWrite(point) => self.lower_timestamp(point, o),
            RecordedPayload::QueryResolve => {
                (
                    self,
                    Err(
                        error::rhi_error_at(
                            RhiErrorKind::Unsupported,
                            "native GL baseline has no query-result-to-buffer route; query-buffer support is not universal across GL4/GLES3",
                            "NativeProviderOwner::submit phase A query-resolve",
                        ),
                    ),
                )
            },
            RecordedPayload::DebugPush | RecordedPayload::DebugPop
            | RecordedPayload::DebugMarker => {
                (
                    self,
                    Err(
                        error::rhi_error_at(
                            RhiErrorKind::Unsupported,
                            "native GL debug-marker commands require a verified KHR_debug entry-point executor",
                            "NativeProviderOwner::submit phase A debug-marker",
                        ),
                    ),
                )
            },
            _ => {
                (
                    self,
                    Err(
                        error::rhi_error_at(
                            RhiErrorKind::Unsupported,
                            "native GL v13 Phase A has no complete owned action for this recorded payload",
                            "NativeProviderOwner::submit phase A",
                        ),
                    ),
                )
            },
        }
    }

    /// Lowers one command. The bounds of a compute pass ask for no work.
    pub open spec fn lower_command(self, command: RecordedCommand, o: Seq<NativeStep>) -> (
        Owner,
        Result<Option<ActionModel>, RhiError>,
    ) {
        if writes_in_shader(command.uses@) {
            (
                self,
                Err(
                    error::rhi_error_at(
                        RhiErrorKind::Unsupported,
                        "native GL storage-write visibility requires a complete storage-binding and memory-barrier lowering",
                        "NativeProviderOwner::submit phase A resource visibility",
                    ),
                ),
            )
        } else if command.payload is ComputeBegin || command.payload is ComputeEnd {
            (self, Ok(None))
        } else {
            let (lowered, outcome) = self.lower_payload(command.payload, o);
            match outcome {
                Err(error) => (lowered, Err(error)),
                Ok(action) => {
                    (lowered, Ok(Some(action)))
                },
            }
        }
    }

    /// Lowers the commands of a batch, from a position on.
    pub open spec fn lower_commands(
        self,
        commands: Seq<Arc<RecordedCommand>>,
        at: int,
        actions: Seq<ActionModel>,
        o: Seq<NativeStep>,
    ) -> (Owner, Result<Seq<ActionModel>, RhiError>)
        decreases commands.len() - at,
    {
        if at >= commands.len() {
            (self, Ok(actions))
        } else {
            let (lowered, outcome) = self.lower_command(*commands[at], o);
            match outcome {
                Err(error) => (lowered, Err(error)),
                Ok(None) => lowered.lower_commands(commands, at + 1, actions, o),
                Ok(Some(action)) => lowered.lower_commands(
                    commands,
                    at + 1,
                    actions.push(action),
                    o,
                ),
            }
        }
    }

    /// Lowers the batches of a submission, from a position on.
    pub open spec fn lower_batches(
        self,
        batches: Seq<GlSubmissionBatch>,
        at: int,
        actions: Seq<ActionModel>,
        o: Seq<NativeStep>,
    ) -> (Owner, Result<Seq<ActionModel>, RhiError>)
        decreases batches.len() - at,
    {
        if at >= batches.len() {
            (self, Ok(actions))
        } else {
            let (lowered, outcome) = self.lower_commands(batches[at].commands@, 0, actions, o);
            match outcome {
                Err(error) => (lowered, Err(error)),
                Ok(actions) => lowered.lower_batches(batches, at + 1, actions, o),
            }
        }
    }

    /// The serial of the next submission.
    pub open spec fn next_serial(self) -> Result<u64, RhiError> {
        if self.completions.len() >= u64::MAX - 1 {
            Err(
                error::rhi_error_at(
                    RhiErrorKind::BackendFailure,
                    "native GL completion serial space exhausted",
                    "NativeProviderOwner::submit phase B",
                ),
            )
        } else {
            Ok((self.completions.len() + 1) as u64)
        }
    }

    /// Carries out what was lowered. From the first command on, an error ends
    /// the submission but does not refuse it.
    pub open spec fn commit(self, actions: Seq<ActionModel>, o: Seq<NativeStep>) -> (
        Owner,
        Result<u64, RhiError>,
    ) {
        let (current, outcome) = self.ready("NativeProviderOwner::submit phase B", o);
        match outcome {
            Err(error) => (current, Err(error)),
            Ok(_ready) => {
                match current.next_serial() {
                    Err(error) => (current, Err(error)),
                    Ok(serial) => {
                        let (done, outcome) = current.execute_submission_after_commit(actions, o);
                        match outcome {
                            Ok(_) => (done, Ok(serial)),
                            Err(error) => (
                                done.fail_submission_after_commit(
                                    execute::readback_tickets(actions),
                                    error,
                                ),
                                Ok(serial),
                            ),
                        }
                    },
                }
            },
        }
    }

    /// A whole submission.
    pub open spec fn submit(self, batches: Seq<GlSubmissionBatch>, o: Seq<NativeStep>) -> (
        Owner,
        Result<u64, RhiError>,
    ) {
        let (lowered, outcome) = self.lower_batches(batches, 0, Seq::empty(), o);
        match outcome {
            Err(error) => (lowered, Err(error)),
            Ok(actions) => {
                lowered.commit(actions, o)
            },
        }
    }
}

/// The points of a submission.
pub open spec fn plan_points(batches: Seq<GlSubmissionBatch>) -> Seq<PlanPoint> {
    batches.map_values(|batch: GlSubmissionBatch| batch.point)
}

/// Lowered work, by value.
pub open spec fn seen(result: Result<NativePhaseBAction, RhiError>) -> Result<
    ActionModel,
    RhiError,
> {
    match result {
        Ok(action) => Ok(action@),
        Err(error) => Err(error),
    }
}

/// A lowered draw, by value.
pub open spec fn seen_draw(result: Result<NativeRasterDrawAction, RhiError>) -> Result<
    DrawModel,
    RhiError,
> {
    match result {
        Ok(draw) => Ok(draw@),
        Err(error) => Err(error),
    }
}

/// A list, by value.
pub open spec fn seen_list<T>(result: Result<Vec<T>, RhiError>) -> Result<Seq<T>, RhiError> {
    match result {
        Ok(list) => Ok(list@),
        Err(error) => Err(error),
    }
}

/// A lowered command, by value.
pub open spec fn seen_option(result: Result<Option<NativePhaseBAction>, RhiError>) -> Result<
    Option<ActionModel>,
    RhiError,
> {
    match result {
        Ok(Some(action)) => Ok(Some(action@)),
        Ok(None) => Ok(None),
        Err(error) => Err(error),
    }
}

/// The serial of an accepted submission.
pub open spec fn serial_of(result: Result<SubmissionOutcome, RhiError>) -> Result<u64, RhiError> {
    match result {
        Ok(outcome) => Ok(outcome.completion),
        Err(error) => Err(error),
    }
}

fn alignment_of(bytes_per_row: u32) -> (result: u32)
    ensures
        result == row_alignment(bytes_per_row),
{
    if bytes_per_row % 8 == 0 {
        8
    } else if bytes_per_row % 4 == 0 {
        4
    } else if bytes_per_row % 2 == 0 {
        2
    } else {
        1
    }
}

fn plain_color(format: TextureFormat, aspect: TextureAspect) -> (result: bool)
    ensures
        result == is_plain_color(format, aspect),
{
    (format == TextureFormat::Rgba8Unorm || format == TextureFormat::Rgba8UnormSrgb) && aspect
        == TextureAspect::Color
}

fn attachment(view: GlPassAttachmentView, color: ColorAttachment) -> (result: GlColorAttachment)
    ensures
        result == gl_attachment(view, color),
{
    GlColorAttachment {
        view,
        resolve_target: None,
        load: match color.load {
            LoadOp::Clear(_) => GlLoadOp::Clear,
            LoadOp::Load => GlLoadOp::Load,
        },
        store: match color.store {
            StoreOp::Discard => GlStoreOp::Discard,
            StoreOp::Store => GlStoreOp::Store,
        },
        clear: match color.load {
            LoadOp::Load => GlColorBits { red: 0, green: 0, blue: 0, alpha: 0 },
            LoadOp::Clear(ColorClearValue::Float(value)) => value,
            LoadOp::Clear(ColorClearValue::Sint(value)) => value,
            LoadOp::Clear(ColorClearValue::Uint(value)) => value,
        },
    }
}

fn epoch_of(program: ProgramId) -> (result: u64)
    ensures
        result == program_epoch(program),
{
    (program.generation as u64) * 0x1_0000_0000 + program.slot as u64
}

fn with_dynamic_state(pipeline: &GlRasterPipeline, scalars: &GlRasterDrawScalars) -> (result:
    GlRasterPipeline)
    ensures
        result.program == pipeline.program,
        result.vertex_array == pipeline.vertex_array,
        result.state@ == dynamic_state(pipeline.state@, *scalars),
{
    let state = &pipeline.state;
    GlRasterPipeline {
        program: pipeline.program,
        vertex_array: pipeline.vertex_array,
        state: GlRasterState {
            topology: state.topology,
            cull_mode: state.cull_mode,
            front_face: state.front_face,
            depth_stencil: match state.depth_stencil {
                None => None,
                Some(depth) => Some(
                    crate::api::gl::GlDepthStencilState {
                        depth_write_enabled: depth.depth_write_enabled,
                        depth_compare: depth.depth_compare,
                        depth_bias: depth.depth_bias,
                        stencil_front: depth.stencil_front,
                        stencil_back: depth.stencil_back,
                        stencil_reference: scalars.stencil_reference,
                    },
                ),
            },
            color_targets: Arc::clone(&state.color_targets),
            multisample: state.multisample,
            viewport: match scalars.viewport {
                Some(viewport) => viewport,
                None => state.viewport,
            },
            scissor: scalars.scissor,
            blend_constant: scalars.blend_constant,
        },
    }
}

fn has_dynamic_state(state: &GlRasterState, scalars: &GlRasterDrawScalars) -> (result: bool)
    ensures
        result == is_dynamic(state@, *scalars),
{
    scalars.viewport.is_some() || state.scissor != scalars.scissor || state.blend_constant
        != scalars.blend_constant || (match state.depth_stencil {
        Some(depth) => depth.stencil_reference != scalars.stencil_reference,
        None => false,
    })
}

fn check_groups(groups: &Vec<BoundGroupUse>) -> (result: Result<(), RhiError>)
    ensures
        result == (match unbacked_group(groups@) {
            Some(error) => Err(error),
            None => Ok(()),
        }),
{
    let mut at: usize = 0;
    while at < groups.len()
        invariant
            at <= groups@.len(),
            forall|i: int| 0 <= i < at ==> (#[trigger] groups@[i]).group.native is Some,
        decreases groups@.len() - at,
    {
        match backing::bind_group_ref(&groups[at].group) {
            Ok(_) => {},
            Err(error) => {
                assert(groups@[at as int].group.native is None);
                return Err(error);
            },
        }
        at += 1;
    }
    Ok(())
}

fn check_inputs(inputs: &DrawInputs, arguments: Option<&Buffer>) -> (result: Result<(), RhiError>)
    ensures
        result == (match unbacked_input(
            *inputs,
            match arguments {
                Some(buffer) => Some(*buffer),
                None => None,
            },
        ) {
            Some(error) => Err(error),
            None => Ok(()),
        }),
{
    let _pipeline = match backing::raster_pipeline_ref(&inputs.pipeline) {
        Ok(value) => value,
        Err(error) => {
            return Err(error);
        },
    };
    match arguments {
        Some(buffer) => {
            let _arguments = match backing::buffer_ref(buffer) {
                Ok(value) => value,
                Err(error) => {
                    return Err(error);
                },
            };
        },
        None => {},
    }
    let mut at: usize = 0;
    while at < inputs.vertex_buffers.len()
        invariant
            at <= inputs.vertex_buffers@.len(),
            inputs.pipeline.native is Some,
            arguments is Some ==> arguments->0.native is Some,
            forall|i: int|
                0 <= i < at ==> (#[trigger] inputs.vertex_buffers@[i]).buffer.native is Some,
        decreases inputs.vertex_buffers@.len() - at,
    {
        match backing::buffer_ref(&inputs.vertex_buffers[at].buffer) {
            Ok(_) => {},
            Err(error) => {
                assert(inputs.vertex_buffers@[at as int].buffer.native is None);
                return Err(error);
            },
        }
        at += 1;
    }
    match &inputs.index {
        Some(index) => {
            let _index = match backing::buffer_ref(&index.buffer) {
                Ok(value) => value,
                Err(error) => {
                    return Err(error);
                },
            };
        },
        None => {},
    }
    check_groups(&inputs.groups)
}

fn bind(groups: &Vec<BoundGroupUse>, program: ProgramId) -> (result: Vec<BoundGroupPacket>)
    requires
        unbacked_group(groups@) is None,
    ensures
        execute::seen_groups(result@) == bound_groups(groups@, program),
{
    let mut result: Vec<BoundGroupPacket> = Vec::new();
    let mut at: usize = 0;
    while at < groups.len()
        invariant
            at <= groups@.len(),
            unbacked_group(groups@) is None,
            execute::seen_groups(result@) == bound_groups(groups@, program).take(at as int),
        decreases groups@.len() - at,
    {
        let group = &groups[at];
        assert(groups@[at as int].group.native is Some);
        match group.group.native {
            Some(name) => {
                let ghost before = result@;
                let packet = BoundGroupPacket {
                    group: group.group.id,
                    name,
                    index: group.index,
                    dynamic_offsets: copied(&group.dynamic_offsets),
                    program_link_epoch: epoch_of(program),
                    dependencies: DependencySet::new(),
                };
                assert(packet@ == bound_groups(groups@, program)[at as int]);
                result.push(packet);
                assert(execute::seen_groups(result@) =~= execute::seen_groups(before).push(
                    packet@,
                ));
            },
            None => {},
        }
        at += 1;
        assert(execute::seen_groups(result@) =~= bound_groups(groups@, program).take(at as int));
    }
    assert(bound_groups(groups@, program).take(at as int) =~= bound_groups(groups@, program));
    result
}

fn copied(offsets: &Vec<u32>) -> (result: Vec<u32>)
    ensures
        result@ == offsets@,
{
    let mut result: Vec<u32> = Vec::new();
    let mut at: usize = 0;
    while at < offsets.len()
        invariant
            at <= offsets@.len(),
            result@ == offsets@.take(at as int),
        decreases offsets@.len() - at,
    {
        result.push(offsets[at]);
        at += 1;
        assert(result@ =~= offsets@.take(at as int));
    }
    assert(result@ =~= offsets@);
    result
}

proof fn lemma_color_refusal_stops(colors: Seq<LocatedColor>, at: int)
    requires
        0 <= at <= colors.len(),
        color_refusal(colors.take(at)) is Some,
    ensures
        color_refusal(colors) == color_refusal(colors.take(at)),
    decreases colors.len(),
{
    if at == colors.len() {
        assert(colors.take(at) =~= colors);
    } else {
        assert(colors.drop_last().take(at) =~= colors.take(at));
        lemma_color_refusal_stops(colors.drop_last(), at);
    }
}

proof fn lemma_colors_backed(colors: Seq<LocatedColor>)
    requires
        color_refusal(colors) is None,
    ensures
        forall|i: int|
            0 <= i < colors.len() ==> (#[trigger] colors[i]).attachment.view is Texture
                && colors[i].attachment.view->Texture_0.native is Some,
    decreases colors.len(),
{
    if colors.len() > 0 {
        lemma_colors_backed(colors.drop_last());
        assert forall|i: int| 0 <= i < colors.len() implies (
        #[trigger] colors[i]).attachment.view is Texture
            && colors[i].attachment.view->Texture_0.native is Some by {
            if i < colors.len() - 1 {
                assert(colors.drop_last()[i] == colors[i]);
            }
        }
    }
}

fn check_colors(colors: &Vec<LocatedColor>) -> (result: Result<(), RhiError>)
    ensures
        result == (match color_refusal(colors@) {
            Some(error) => Err(error),
            None => Ok(()),
        }),
{
    let operation = "NativeProviderOwner::submit phase A";
    let mut at: usize = 0;
    while at < colors.len()
        invariant
            at <= colors@.len(),
            operation == "NativeProviderOwner::submit phase A",
            color_refusal(colors@.take(at as int)) is None,
        decreases colors@.len() - at,
    {
        proof {
            assert(colors@.take(at + 1).drop_last() =~= colors@.take(at as int));
            assert(colors@.take(at + 1).last() == colors@[at as int]);
            if color_refusal(colors@.take(at + 1)) is Some {
                lemma_color_refusal_stops(colors@, at + 1);
            }
        }
        let color = colors[at].attachment;
        match color.view {
            ColorAttachmentView::Frame(_) => {
                return Err(
                    RhiError::new(
                        RhiErrorKind::Unsupported,
                        "native GL default framebuffer raster passes require presentation lowering",
                    ).at(operation),
                );
            },
            ColorAttachmentView::Texture(view) => {
                if color.resolve.is_some() {
                    return Err(
                        RhiError::new(
                            RhiErrorKind::Unsupported,
                            "native GL raster resolve Phase-A lowering is not admitted yet",
                        ).at(operation),
                    );
                }
                let _view = match backing::view_ref(&view) {
                    Ok(value) => value,
                    Err(error) => {
                        return Err(error);
                    },
                };
            },
        }
        at += 1;
    }
    assert(colors@.take(at as int) =~= colors@);
    Ok(())
}

impl<C: NativePlatformContext, P: NativeProvider> NativeOwnedProvider<C, P> {
    pub fn texture_region(
        &mut self,
        name: GlObjectName,
        layers: TextureSubresourceLayers,
        origin: Origin3d,
        extent: Extent3d,
        operation: &'static str,
    ) -> (result: Result<GlTextureRegion, RhiError>)
        requires
            old(self).wf(),
        ensures
            final(self).wf(),
            link::grows(old(self)@.log, final(self)@.log),
            forall|o: Seq<NativeStep>|
                link::grows(final(self)@.log, o) ==> #[trigger] old(self)@.texture_region(name, layers, origin, extent, operation, o) == (
                    final(self)@,
                    result,
                ),
    {
        let aspect = match layers.aspect {
            TextureAspect::Color => GlTextureAspect::Color,
            TextureAspect::Depth => GlTextureAspect::DepthOnly,
            TextureAspect::Stencil => GlTextureAspect::StencilOnly,
            TextureAspect::Plane0 | TextureAspect::Plane1 | TextureAspect::Plane2 => {
                return Err(
                    RhiError::new(
                        RhiErrorKind::Unsupported,
                        "native GL has no multi-planar texture copy route",
                    ).at(operation),
                );
            },
        };
        let texture = match self.texture_id(name, operation) {
            Ok(value) => value,
            Err(error) => {
                return Err(error);
            },
        };
        Ok(
            GlTextureRegion {
                subresource: GlTextureSubresource {
                    texture,
                    aspect,
                    mip_level: layers.mip_level,
                    base_layer: layers.base_layer,
                    layer_count: layers.layer_count,
                },
                origin: GlOrigin { x: origin.x, y: origin.y, z: origin.z },
                extent: GlExtent3d {
                    width: extent.width,
                    height: extent.height,
                    depth_or_layers: extent.depth,
                },
            },
        )
    }

    pub fn attachment_view(&mut self, name: GlObjectName, operation: &'static str) -> (result:
        Result<GlTextureView, RhiError>)
        requires
            old(self).wf(),
        ensures
            final(self).wf(),
            link::grows(old(self)@.log, final(self)@.log),
            forall|o: Seq<NativeStep>|
                link::grows(final(self)@.log, o) ==> #[trigger] old(self)@.attachment_view(name, operation, o) == (
                    final(self)@,
                    result,
                ),
    {
        let view = match self.views.get(name.raw() as u64) {
            Some(view) => *view,
            None => {
                return Err(
                    RhiError::new(
                        RhiErrorKind::WrongDevice,
                        "native GL texture-view carrier is not live",
                    ).at(operation),
                );
            },
        };
        let desc = match self.find_texture(operation, view.texture) {
            Ok(value) => value,
            Err(error) => {
                return Err(error);
            },
        };
        let extent = match desc.mip_extent(view.mip_level) {
            Some(extent) => extent,
            None => {
                return Err(
                    RhiError::new(
                        RhiErrorKind::InvalidUsage,
                        "native GL texture-view mip is outside its allocation",
                    ).at(operation),
                );
            },
        };
        Ok(
            GlTextureView {
                target: GlAttachmentTarget::Texture(view.texture),
                format: view.format,
                mip_level: view.mip_level,
                array_layer: view.base_layer,
                layer_count: view.layer_count,
                width: extent.width,
                height: extent.height,
                sample_count: desc.sample_count,
            },
        )
    }

    fn lower_buffer_copy(&mut self, copy: &BufferCopy) -> (result: Result<
        NativePhaseBAction,
        RhiError,
    >)
        requires
            old(self).wf(),
        ensures
            final(self).wf(),
            link::grows(old(self)@.log, final(self)@.log),
            forall|o: Seq<NativeStep>|
                link::grows(final(self)@.log, o) ==> #[trigger] old(self)@.lower_buffer_copy(*copy, o) == (
                    final(self)@,
                    seen(result),
                ),
    {
        let operation = "NativeProviderOwner::submit phase A copy-buffer";
        let src = match backing::buffer_ref(&copy.src) {
            Ok(value) => value,
            Err(error) => {
                return Err(error);
            },
        };
        let dst = match backing::buffer_ref(&copy.dst) {
            Ok(value) => value,
            Err(error) => {
                return Err(error);
            },
        };
        match self.ready(operation) {
            Ok(()) => {},
            Err(error) => {
                return Err(error);
            },
        }
        let source = match self.buffer_id(src.name, operation) {
            Ok(value) => value,
            Err(error) => {
                return Err(error);
            },
        };
        let destination = match self.buffer_id(dst.name, operation) {
            Ok(value) => value,
            Err(error) => {
                return Err(error);
            },
        };
        Ok(
            NativePhaseBAction::CopyBuffer {
                source: GlBufferRange { buffer: source, offset: copy.src_offset, size: copy.size },
                destination: GlBufferRange {
                    buffer: destination,
                    offset: copy.dst_offset,
                    size: copy.size,
                },
            },
        )
    }

    fn lower_texture_copy(&mut self, copy: &TextureCopy) -> (result: Result<
        NativePhaseBAction,
        RhiError,
    >)
        requires
            old(self).wf(),
        ensures
            final(self).wf(),
            link::grows(old(self)@.log, final(self)@.log),
            forall|o: Seq<NativeStep>|
                link::grows(final(self)@.log, o) ==> #[trigger] old(self)@.lower_texture_copy(*copy, o) == (
                    final(self)@,
                    seen(result),
                ),
    {
        let operation = "NativeProviderOwner::submit phase A copy-texture";
        let src = match backing::texture_ref(&copy.src) {
            Ok(value) => value,
            Err(error) => {
                return Err(error);
            },
        };
        let dst = match backing::texture_ref(&copy.dst) {
            Ok(value) => value,
            Err(error) => {
                return Err(error);
            },
        };
        match self.ready(operation) {
            Ok(()) => {},
            Err(error) => {
                return Err(error);
            },
        }
        let source = match self.texture_region(src.name, copy.src_subresource, copy.src_origin, copy.extent, operation) {
            Ok(value) => value,
            Err(error) => {
                return Err(error);
            },
        };
        let destination = match self.texture_region(dst.name, copy.dst_subresource, copy.dst_origin, copy.extent, operation) {
            Ok(value) => value,
            Err(error) => {
                return Err(error);
            },
        };
        Ok(NativePhaseBAction::CopyTexture { source, destination })
    }

    fn lower_buffer_upload(&mut self, upload: &BufferUploadDescriptor) -> (result: Result<
        NativePhaseBAction,
        RhiError,
    >)
        requires
            old(self).wf(),
        ensures
            final(self).wf(),
            link::grows(old(self)@.log, final(self)@.log),
            forall|o: Seq<NativeStep>|
                link::grows(final(self)@.log, o) ==> #[trigger] old(self)@.lower_buffer_upload(*upload, o) == (
                    final(self)@,
                    seen(result),
                ),
    {
        let operation = "NativeProviderOwner::submit phase A upload-buffer";
        let dst = match backing::buffer_ref(&upload.dst) {
            Ok(value) => value,
            Err(error) => {
                return Err(error);
            },
        };
        let size: u64 = upload.bytes.len() as u64;
        match self.ready(operation) {
            Ok(()) => {},
            Err(error) => {
                return Err(error);
            },
        }
        let buffer = match self.buffer_id(dst.name, operation) {
            Ok(value) => value,
            Err(error) => {
                return Err(error);
            },
        };
        Ok(
            NativePhaseBAction::UploadBuffer {
                destination: GlBufferRange { buffer, offset: upload.dst_offset, size },
                bytes: Arc::clone(&upload.bytes),
            },
        )
    }

    fn lower_texture_upload(&mut self, upload: &TextureUploadDescriptor) -> (result: Result<
        NativePhaseBAction,
        RhiError,
    >)
        requires
            old(self).wf(),
        ensures
            final(self).wf(),
            link::grows(old(self)@.log, final(self)@.log),
            forall|o: Seq<NativeStep>|
                link::grows(final(self)@.log, o) ==> #[trigger] old(self)@.lower_texture_upload(*upload, o) == (
                    final(self)@,
                    seen(result),
                ),
    {
        let operation = "NativeProviderOwner::submit phase A upload-texture";
        let format = upload.dst.descriptor.format;
        if translate::is_compressed_texture_format(format) {
            match translate::validate_compressed_texture_upload(upload, operation) {
                Ok(()) => {},
                Err(error) => {
                    return Err(error);
                },
            }
        } else if !plain_color(format, upload.subresource.aspect) {
            return Err(
                RhiError::new(
                    RhiErrorKind::Unsupported,
                    "native GL texture upload currently admits RGBA8 color textures",
                ).at("NativeProviderOwner::submit phase A"),
            );
        }
        let dst = match backing::texture_ref(&upload.dst) {
            Ok(value) => value,
            Err(error) => {
                return Err(error);
            },
        };
        let bytes_per_row: u32 = upload.source_layout.bytes_per_row;
        let repack_limit: u64 = upload.bytes.len() as u64;
        match self.ready(operation) {
            Ok(()) => {},
            Err(error) => {
                return Err(error);
            },
        }
        let destination = match self.texture_region(dst.name, upload.subresource, upload.origin, upload.extent, operation) {
            Ok(value) => value,
            Err(error) => {
                return Err(error);
            },
        };
        // Compressed levels are handed over as they are: their layout is not
        // looked at.
        Ok(
            NativePhaseBAction::UploadTexture {
                destination,
                layout: GlPixelLayout {
                    format: GlPixelFormat::Rgba8,
                    bytes_per_row,
                    rows_per_image: upload.source_layout.rows_per_image,
                    offset: 0,
                    alignment: alignment_of(bytes_per_row),
                    repack_limit,
                },
                bytes: Arc::clone(&upload.bytes),
            },
        )
    }

    fn lower_readback(&mut self, ticket: &ReadbackTicket) -> (result: Result<
        NativePhaseBAction,
        RhiError,
    >)
        requires
            old(self).wf(),
        ensures
            final(self).wf(),
            link::grows(old(self)@.log, final(self)@.log),
            forall|o: Seq<NativeStep>|
                link::grows(final(self)@.log, o) ==> #[trigger] old(self)@.lower_readback(*ticket, o) == (
                    final(self)@,
                    seen(result),
                ),
    {
        match ticket.request {
            ReadbackRequest::Buffer { src, range } => {
                let operation = "NativeProviderOwner::submit phase A read-buffer";
                let source = match backing::buffer_ref(&src) {
                    Ok(value) => value,
                    Err(error) => {
                        return Err(error);
                    },
                };
                match self.ready(operation) {
                    Ok(()) => {},
                    Err(error) => {
                        return Err(error);
                    },
                }
                let buffer = match self.buffer_id(source.name, operation) {
                    Ok(value) => value,
                    Err(error) => {
                        return Err(error);
                    },
                };
                Ok(
                    NativePhaseBAction::ReadBuffer {
                        source: GlBufferRange { buffer, offset: range.offset, size: range.size },
                        ticket: *ticket,
                    },
                )
            },
            ReadbackRequest::Texture { src, subresource, origin, extent } => {
                if !plain_color(src.descriptor.format, subresource.aspect) {
                    return Err(
                        RhiError::new(
                            RhiErrorKind::Unsupported,
                            "native GL texture readback currently admits RGBA8 color textures",
                        ).at("NativeProviderOwner::submit phase A"),
                    );
                }
                let texture = match backing::texture_ref(&src) {
                    Ok(value) => value,
                    Err(error) => {
                        return Err(error);
                    },
                };
                let bytes_per_row: u32 = match extent.width.checked_mul(4) {
                    Some(bytes) => bytes,
                    None => {
                        return Err(
                            RhiError::new(
                                RhiErrorKind::OutOfMemory,
                                "native GL texture readback row size overflows",
                            ),
                        );
                    },
                };
                let operation = "NativeProviderOwner::submit phase A read-texture";
                match self.ready(operation) {
                    Ok(()) => {},
                    Err(error) => {
                        return Err(error);
                    },
                }
                let source = match self.texture_region(texture.name, subresource, origin, extent, operation) {
                    Ok(value) => value,
                    Err(error) => {
                        return Err(error);
                    },
                };
                Ok(
                    NativePhaseBAction::ReadTexture {
                        source,
                        layout: GlPixelLayout {
                            format: GlPixelFormat::Rgba8,
                            bytes_per_row,
                            rows_per_image: extent.height,
                            offset: 0,
                            alignment: 4,
                            repack_limit: u64::MAX,
                        },
                        ticket: *ticket,
                    },
                )
            },
        }
    }

    fn number_pass(&mut self, operation: &'static str) -> (result: Result<PassPacket, RhiError>)
        requires
            old(self).wf(),
        ensures
            final(self).wf(),
            (final(self)@, result) == old(self)@.number_pass(operation),
    {
        let draw_framebuffer = match self.canonical(operation) {
            Ok(value) => value,
            Err(error) => {
                return Err(error);
            },
        };
        let read_framebuffer = match self.canonical(operation) {
            Ok(value) => value,
            Err(error) => {
                return Err(error);
            },
        };
        let draw_buffers = match self.canonical(operation) {
            Ok(value) => value,
            Err(error) => {
                return Err(error);
            },
        };
        Ok(PassPacket { draw_framebuffer, read_framebuffer, draw_buffers })
    }

    fn lower_acquired_begin(
        &mut self,
        frame: &FrameAttachment,
        acquired: GlAcquiredFramebuffer,
        format: GlFormat,
        color: ColorAttachment,
        operation: &'static str,
    ) -> (result: Result<NativePhaseBAction, RhiError>)
        requires
            old(self).wf(),
        ensures
            final(self).wf(),
            link::grows(old(self)@.log, final(self)@.log),
            forall|o: Seq<NativeStep>|
                link::grows(final(self)@.log, o) ==> #[trigger] old(self)@.lower_acquired_begin(*frame, acquired, format, color, operation, o) == (
                    final(self)@,
                    seen(result),
                ),
    {
        let (serial, image) = match self.leases.get(acquired.lease.id) {
            Some(Some(held)) => *held,
            _ => {
                return Err(
                    RhiError::new(
                        RhiErrorKind::InvalidUsage,
                        "native GL frame lease is not currently acquired",
                    ).at(operation),
                );
            },
        };
        if serial != acquired.serial || acquired.framebuffer != 0 || image.size.width
            != acquired.extent.width || image.size.height != acquired.extent.height {
            return Err(
                RhiError::new(
                    RhiErrorKind::InvalidUsage,
                    "native GL acquired frame is stale or names a foreign default framebuffer",
                ).at(operation),
            );
        }
        let current = match self.link.drawable_extent() {
            Ok(current) => current,
            Err(error) => {
                return Err(error);
            },
        };
        if current != Some(acquired.extent) {
            return Err(
                RhiError::new(
                    RhiErrorKind::InvalidUsage,
                    "native GL drawable extent changed after acquisition",
                ).at(operation),
            );
        }
        let context = self.link.context_stamp();
        let target = GlDefaultFramebufferTarget {
            frame_serial: acquired.serial,
            context,
            width: frame.extent.width,
            height: frame.extent.height,
            sample_count: 1,
            color_format: format,
        };
        let pass = match self.number_pass(operation) {
            Ok(value) => value,
            Err(error) => {
                return Err(error);
            },
        };
        let mut colors: Vec<GlColorAttachment> = Vec::new();
        colors.push(attachment(GlPassAttachmentView::DefaultColor(target), color));
        assert(colors@ =~= seq![gl_attachment(GlPassAttachmentView::DefaultColor(target), color)]);
        let action = NativeRasterBeginAction {
            framebuffer: None,
            descriptor: GlRenderPassDescriptor {
                target: GlRenderTarget::Default(target),
                color_attachments: colors,
                depth_stencil_attachment: None,
            },
            pass,
        };
        assert(action@ == BeginModel {
            framebuffer: None,
            target: GlRenderTarget::Default(target),
            colors: seq![gl_attachment(GlPassAttachmentView::DefaultColor(target), color)],
            depth_stencil: None,
            pass,
        });
        Ok(NativePhaseBAction::RasterBegin(action))
    }

    fn lower_default_begin(
        &mut self,
        begin: &RasterBegin,
        frame: &FrameAttachment,
        color: ColorAttachment,
        location: u32,
    ) -> (result: Result<NativePhaseBAction, RhiError>)
        requires
            old(self).wf(),
            begin.colors@.len() == 1,
            begin.colors@[0].location == location,
            begin.depth_stencil is None,
        ensures
            final(self).wf(),
            link::grows(old(self)@.log, final(self)@.log),
            forall|o: Seq<NativeStep>|
                link::grows(final(self)@.log, o) ==> #[trigger] old(self)@.lower_default_begin(*frame, color, location, o) == (
                    final(self)@,
                    seen(result),
                ),
    {
        let refuser = "NativeProviderOwner::submit phase A raster-begin";
        if color.resolve.is_some() {
            return Err(
                RhiError::new(
                    RhiErrorKind::Unsupported,
                    "native GL default framebuffer resolve lowering is not admitted yet",
                ).at(refuser),
            );
        }
        let mut resolved: Vec<Option<GlTextureView>> = Vec::new();
        resolved.push(None);
        assert(resolved@[0] is None);
        match translate_raster::raster_begin_carrier(begin, &resolved, None) {
            Ok(GlFramebufferCarrier::Default { color_locations }) => {
                assert(color_locations@[0] == location);
                if color_locations[0] != 0 {
                    return Err(
                        RhiError::new(
                            RhiErrorKind::Unsupported,
                            "native GL default framebuffer admits color location zero only",
                        ).at(refuser),
                    );
                }
            },
            Ok(GlFramebufferCarrier::Offscreen(_)) => {
                assert(false);
            },
            Err(error) => {
                return Err(error);
            },
        }
        let acquired = match backing::framebuffer_ref(frame) {
            Ok(value) => value,
            Err(error) => {
                return Err(error);
            },
        };
        if frame.extent.depth != 1 || frame.sample_count != 1 || frame.extent.width
            != acquired.extent.width || frame.extent.height != acquired.extent.height {
            return Err(
                RhiError::new(
                    RhiErrorKind::InvalidUsage,
                    "native GL frame facts changed after acquisition",
                ).at(refuser),
            );
        }
        let format = match translate::texture_format(frame.format) {
            Ok(value) => value,
            Err(error) => {
                return Err(error);
            },
        };
        let operation = "NativeProviderOwner::submit phase A raster-begin-default";
        match self.ready(operation) {
            Ok(()) => {},
            Err(error) => {
                return Err(error);
            },
        }
        self.lower_acquired_begin(frame, acquired, format, color, operation)
    }

    fn lower_colors(&mut self, colors: &Vec<LocatedColor>, operation: &'static str) -> (result:
        Result<Vec<GlTextureView>, RhiError>)
        requires
            old(self).wf(),
            color_refusal(colors@) is None,
        ensures
            final(self).wf(),
            link::grows(old(self)@.log, final(self)@.log),
            result is Ok ==> result->Ok_0@.len() == colors@.len(),
            forall|o: Seq<NativeStep>|
                link::grows(final(self)@.log, o) ==> #[trigger] old(self)@.lower_colors(
                    colors@,
                    0,
                    Seq::empty(),
                    operation,
                    o,
                ) == (final(self)@, seen_list(result)),
    {
        let mut views: Vec<GlTextureView> = Vec::new();
        let mut at: usize = 0;
        assert(views@ =~= Seq::<GlTextureView>::empty());
        proof {
            lemma_colors_backed(colors@);
        }
        while at < colors.len()
            invariant
                at <= colors@.len(),
                views@.len() == at,
                forall|i: int|
                    0 <= i < colors@.len() ==> (#[trigger] colors@[i]).attachment.view is Texture
                        && colors@[i].attachment.view->Texture_0.native is Some,
                self.wf(),
                link::grows(old(self)@.log, self@.log),
                forall|o: Seq<NativeStep>|
                    link::grows(self@.log, o) ==> #[trigger] old(self)@.lower_colors(
                        colors@,
                        0,
                        Seq::empty(),
                        operation,
                        o,
                    ) == self@.lower_colors(colors@, at as int, views@, operation, o),
            decreases colors@.len() - at,
        {
            assert(colors@[at as int].attachment.view is Texture);
            match colors[at].attachment.view {
                ColorAttachmentView::Texture(texture) => match texture.native {
                    Some(name) => {
                        let view = match self.attachment_view(name, operation) {
                            Ok(value) => value,
                            Err(error) => {
                                return Err(error);
                            },
                        };
                        views.push(view);
                    },
                    None => {
                        assert(false);
                    },
                },
                ColorAttachmentView::Frame(_) => {
                    assert(false);
                },
            }
            at += 1;
        }
        Ok(views)
    }

    fn lower_offscreen_begin(&mut self, colors: &Vec<LocatedColor>) -> (result: Result<
        NativePhaseBAction,
        RhiError,
    >)
        requires
            old(self).wf(),
        ensures
            final(self).wf(),
            link::grows(old(self)@.log, final(self)@.log),
            forall|o: Seq<NativeStep>|
                link::grows(final(self)@.log, o) ==> #[trigger] old(self)@.lower_offscreen_begin(colors@, o) == (
                    final(self)@,
                    seen(result),
                ),
    {
        let operation = "NativeProviderOwner::submit phase A raster-begin";
        match check_colors(colors) {
            Ok(()) => {},
            Err(error) => {
                return Err(error);
            },
        }
        match self.ready(operation) {
            Ok(()) => {},
            Err(error) => {
                return Err(error);
            },
        }
        let views = match self.lower_colors(colors, operation) {
            Ok(value) => value,
            Err(error) => {
                return Err(error);
            },
        };
        let mut attachments: Vec<GlColorAttachment> = Vec::new();
        let mut locations: Vec<u32> = Vec::new();
        let mut at: usize = 0;
        let ghost goal = Seq::new(
            colors@.len(),
            |i: int|
                gl_attachment(
                    GlPassAttachmentView::Allocated(views@[i]),
                    colors@[i].attachment,
                ),
        );
        let ghost wanted = colors@.map_values(|color: LocatedColor| color.location);
        while at < colors.len()
            invariant
                at <= colors@.len(),
                views@.len() == colors@.len(),
                goal == Seq::new(
                    colors@.len(),
                    |i: int|
                        gl_attachment(
                            GlPassAttachmentView::Allocated(views@[i]),
                            colors@[i].attachment,
                        ),
                ),
                wanted == colors@.map_values(|color: LocatedColor| color.location),
                attachments@ == goal.take(at as int),
                locations@ == wanted.take(at as int),
            decreases colors@.len() - at,
        {
            attachments.push(
                attachment(GlPassAttachmentView::Allocated(views[at]), colors[at].attachment),
            );
            locations.push(colors[at].location);
            at += 1;
            assert(attachments@ =~= goal.take(at as int));
            assert(locations@ =~= wanted.take(at as int));
        }
        assert(goal.take(at as int) =~= goal);
        assert(wanted.take(at as int) =~= wanted);
        let pass = match self.number_pass(operation) {
            Ok(value) => value,
            Err(error) => {
                return Err(error);
            },
        };
        let context = self.link.context_stamp();
        let framebuffer = GlFramebufferDescriptor {
            color_attachments: views,
            depth_stencil_attachment: None,
            draw_buffers: locations,
        };
        assert(framebuffer@ == FramebufferModel {
            colors: views@,
            depth_stencil: None,
            draw_buffers: wanted,
        });
        let action = NativeRasterBeginAction {
            framebuffer: Some(framebuffer),
            descriptor: GlRenderPassDescriptor {
                target: GlRenderTarget::Offscreen(FramebufferId::new(context, 0, 0)),
                color_attachments: attachments,
                depth_stencil_attachment: None,
            },
            pass,
        };
        assert(action@ == BeginModel {
            framebuffer: Some(framebuffer@),
            target: GlRenderTarget::Offscreen(
                FramebufferId { stamp: context, slot: 0, generation: 0 },
            ),
            colors: goal,
            depth_stencil: None,
            pass,
        });
        Ok(NativePhaseBAction::RasterBegin(action))
    }

    fn lower_raster_begin(&mut self, begin: &RasterBegin) -> (result: Result<
        NativePhaseBAction,
        RhiError,
    >)
        requires
            old(self).wf(),
        ensures
            final(self).wf(),
            link::grows(old(self)@.log, final(self)@.log),
            forall|o: Seq<NativeStep>|
                link::grows(final(self)@.log, o) ==> #[trigger] old(self)@.lower_raster_begin(*begin, o) == (
                    final(self)@,
                    seen(result),
                ),
    {
        if begin.depth_stencil.is_some() {
            return Err(
                RhiError::new(
                    RhiErrorKind::Unsupported,
                    "native GL raster depth/stencil Phase-A lowering is not admitted yet",
                ).at("NativeProviderOwner::submit phase A"),
            );
        }
        // A drawable stays a drawable: it is never taken for a texture view.
        if begin.colors.len() == 1 {
            let color = begin.colors[0];
            match color.attachment.view {
                ColorAttachmentView::Frame(frame) => {
                    return self.lower_default_begin(
                        begin,
                        &frame,
                        color.attachment,
                        color.location,
                    );
                },
                ColorAttachmentView::Texture(_) => {},
            }
        }
        self.lower_offscreen_begin(&begin.colors)
    }

    fn lower_vertices(&mut self, buffers: &Vec<VertexBufferUse>, operation: &'static str) -> (result:
        Result<Vec<GlVertexBufferBinding>, RhiError>)
        requires
            old(self).wf(),
            forall|i: int| 0 <= i < buffers@.len() ==> (#[trigger] buffers@[i]).buffer.native is Some,
        ensures
            final(self).wf(),
            link::grows(old(self)@.log, final(self)@.log),
            forall|o: Seq<NativeStep>|
                link::grows(final(self)@.log, o) ==> #[trigger] old(self)@.lower_vertices(buffers@, 0, Seq::empty(), operation, o) == (
                    final(self)@,
                    seen_list(result),
                ),
    {
        let mut bindings: Vec<GlVertexBufferBinding> = Vec::new();
        let mut at: usize = 0;
        assert(bindings@ =~= Seq::<GlVertexBufferBinding>::empty());
        while at < buffers.len()
            invariant
                at <= buffers@.len(),
                forall|i: int|
                    0 <= i < buffers@.len() ==> (#[trigger] buffers@[i]).buffer.native is Some,
                self.wf(),
                link::grows(old(self)@.log, self@.log),
                forall|o: Seq<NativeStep>|
                    link::grows(self@.log, o) ==> #[trigger] old(self)@.lower_vertices(
                        buffers@,
                        0,
                        Seq::empty(),
                        operation,
                        o,
                    ) == self@.lower_vertices(buffers@, at as int, bindings@, operation, o),
            decreases buffers@.len() - at,
        {
            let item = buffers[at];
            assert(buffers@[at as int].buffer.native is Some);
            match item.buffer.native {
                Some(name) => {
                    let buffer = match self.buffer_id(name, operation) {
                        Ok(value) => value,
                        Err(error) => {
                            return Err(error);
                        },
                    };
                    bindings.push(
                        GlVertexBufferBinding {
                            slot: item.slot,
                            buffer,
                            offset: item.range.offset,
                        },
                    );
                },
                None => {
                    assert(false);
                },
            }
            at += 1;
        }
        Ok(bindings)
    }

    fn lower_index(&mut self, inputs: &DrawInputs, operation: &'static str) -> (result: Result<
        Option<GlIndexBinding>,
        RhiError,
    >)
        requires
            old(self).wf(),
            inputs.index is Some ==> inputs.index->0.buffer.native is Some,
        ensures
            final(self).wf(),
            link::grows(old(self)@.log, final(self)@.log),
            forall|o: Seq<NativeStep>|
                link::grows(final(self)@.log, o) ==> #[trigger] old(self)@.lower_index(*inputs, operation, o) == (
                    final(self)@,
                    result,
                ),
    {
        match inputs.index {
            None => Ok(None),
            Some(index) => match index.buffer.native {
                None => {
                    assert(false);
                    Ok(None)
                },
                Some(name) => {
                    let buffer = match self.buffer_id(name, operation) {
                        Ok(value) => value,
                        Err(error) => {
                            return Err(error);
                        },
                    };
                    Ok(
                        Some(
                            GlIndexBinding {
                                buffer,
                                format: translate::index_format(index.format),
                                offset: index.range.offset,
                            },
                        ),
                    )
                },
            },
        }
    }

    fn has_groups(&self, groups: &Vec<BoundGroupUse>) -> (result: bool)
        requires
            self.wf(),
            unbacked_group(groups@) is None,
        ensures
            result == self@.has_groups(groups@),
    {
        let mut at: usize = 0;
        while at < groups.len()
            invariant
                at <= groups@.len(),
                self.wf(),
                unbacked_group(groups@) is None,
                forall|i: int|
                    0 <= i < at ==> self@.bind_groups.contains_key(
                        (#[trigger] groups@[i]).group.native->0@ as u64,
                    ),
            decreases groups@.len() - at,
        {
            assert(groups@[at as int].group.native is Some);
            match groups[at].group.native {
                Some(name) => {
                    if !self.bind_groups.contains_key(name.raw() as u64) {
                        return false;
                    }
                },
                None => {
                    assert(false);
                },
            }
            at += 1;
        }
        true
    }

    fn lower_draw(
        &mut self,
        inputs: &DrawInputs,
        scalars: &GlRasterDrawScalars,
        operation: &'static str,
    ) -> (result: Result<NativeRasterDrawAction, RhiError>)
        requires
            old(self).wf(),
            unbacked_input(*inputs, None) is None,
        ensures
            final(self).wf(),
            link::grows(old(self)@.log, final(self)@.log),
            forall|o: Seq<NativeStep>|
                link::grows(final(self)@.log, o) ==> #[trigger] old(self)@.lower_draw(*inputs, *scalars, operation, o) == (
                    final(self)@,
                    seen_draw(result),
                ),
    {
        match self.ready(operation) {
            Ok(()) => {},
            Err(error) => {
                return Err(error);
            },
        }
        let name = match inputs.pipeline.native {
            Some(name) => name,
            None => {
                assert(false);
                return Err(
                    RhiError::new(
                        RhiErrorKind::Unsupported,
                        "raster pipeline has no GL native backing",
                    ),
                );
            },
        };
        let (pipeline, packet, dynamic) = match self.raster_pipelines.get(name.raw() as u64) {
            Some(stored) => (
                with_dynamic_state(&stored.pipeline, scalars),
                stored.packet,
                has_dynamic_state(&stored.pipeline.state, scalars),
            ),
            None => {
                return Err(
                    RhiError::new(
                        RhiErrorKind::WrongDevice,
                        "native GL raster pipeline backing is not live",
                    ).at(operation),
                );
            },
        };
        assert(forall|i: int|
            0 <= i < inputs.vertex_buffers@.len() ==> (
            #[trigger] inputs.vertex_buffers@[i]).buffer.native is Some);
        let bindings = match self.lower_vertices(&inputs.vertex_buffers, operation) {
            Ok(value) => value,
            Err(error) => {
                return Err(error);
            },
        };
        let index = match self.lower_index(inputs, operation) {
            Ok(value) => value,
            Err(error) => {
                return Err(error);
            },
        };
        if !self.has_groups(&inputs.groups) {
            return Err(
                RhiError::new(
                    RhiErrorKind::WrongDevice,
                    "native GL bind group backing is not live",
                ).at(operation),
            );
        }
        let bind_groups = bind(&inputs.groups, pipeline.program);
        let geometry = Arc::new(bindings);
        let key = NativeGeometryKey {
            vertex_array: pipeline.vertex_array,
            vertices: Arc::clone(&geometry),
            index,
        };
        assert(key@ == GeometryModel {
            vertex_array: pipeline.vertex_array,
            vertices: bindings@,
            index,
        });
        let geometry_key = match self.geometry_canonical(key, operation) {
            Ok(value) => value,
            Err(error) => {
                return Err(error);
            },
        };
        let action = NativeRasterDrawAction {
            pipeline,
            packet,
            has_dynamic_state: dynamic,
            draw: scalars.draw.draw,
            geometry,
            index,
            geometry_key,
            bind_groups,
        };
        assert(action@ == DrawModel {
            program: pipeline.program,
            vertex_array: pipeline.vertex_array,
            state: pipeline.state@,
            packet,
            has_dynamic_state: dynamic,
            draw: scalars.draw.draw,
            geometry: bindings@,
            index,
            geometry_key,
            bind_groups: bound_groups(inputs.groups@, pipeline.program),
        });
        Ok(action)
    }

    fn lower_raster_draw(&mut self, draw: &RasterDraw) -> (result: Result<
        NativePhaseBAction,
        RhiError,
    >)
        requires
            old(self).wf(),
        ensures
            final(self).wf(),
            link::grows(old(self)@.log, final(self)@.log),
            forall|o: Seq<NativeStep>|
                link::grows(final(self)@.log, o) ==> #[trigger] old(self)@.lower_raster_draw(*draw, o) == (
                    final(self)@,
                    seen(result),
                ),
    {
        let scalars = match translate_raster::raster_draw_scalars(draw) {
            Ok(value) => value,
            Err(error) => {
                return Err(error);
            },
        };
        if !scalars.draw.is_within(
            GlAdvancedRasterCapabilities { base_vertex: false, first_instance: false },
        ) {
            return Err(
                RhiError::new(
                    RhiErrorKind::Unsupported,
                    "native GL baseline raster route has no base-vertex or first-instance lowering",
                ).at("NativeProviderOwner::submit phase A"),
            );
        }
        match check_inputs(&draw.inputs, None) {
            Ok(()) => {},
            Err(error) => {
                return Err(error);
            },
        }
        let action = match self.lower_draw(&draw.inputs, &scalars, "NativeProviderOwner::submit phase A raster-draw") {
            Ok(value) => value,
            Err(error) => {
                return Err(error);
            },
        };
        Ok(NativePhaseBAction::RasterDraw(action))
    }

    fn lower_raster_indirect(&mut self, indirect: &RasterIndirect) -> (result: Result<
        NativePhaseBAction,
        RhiError,
    >)
        requires
            old(self).wf(),
        ensures
            final(self).wf(),
            link::grows(old(self)@.log, final(self)@.log),
            forall|o: Seq<NativeStep>|
                link::grows(final(self)@.log, o) ==> #[trigger] old(self)@.lower_raster_indirect(*indirect, o) == (
                    final(self)@,
                    seen(result),
                ),
    {
        let operation = "NativeProviderOwner::submit phase A raster-indirect";
        if indirect.draw_count != 1 || indirect.count.is_some() {
            return Err(
                RhiError::new(
                    RhiErrorKind::Unsupported,
                    "native GL only lowers one-record raster indirect draws",
                ).at(operation),
            );
        }
        let nothing = IndexSpan { start: 0, end: 0 };
        let once = IndexSpan { start: 0, end: 1 };
        let scalars = match translate_raster::input_scalars(&indirect.inputs, nothing, once, 0) {
            Ok(value) => value,
            Err(error) => {
                return Err(error);
            },
        };
        match check_inputs(&indirect.inputs, Some(&indirect.arguments)) {
            Ok(()) => {},
            Err(error) => {
                return Err(error);
            },
        }
        let draw = match self.lower_draw(&indirect.inputs, &scalars, operation) {
            Ok(value) => value,
            Err(error) => {
                return Err(error);
            },
        };
        let arguments = match backing::buffer_ref(&indirect.arguments) {
            Ok(value) => value,
            Err(error) => {
                return Err(error);
            },
        };
        let buffer = match self.buffer_id(arguments.name, operation) {
            Ok(value) => value,
            Err(error) => {
                return Err(error);
            },
        };
        Ok(
            NativePhaseBAction::RasterIndirect {
                draw,
                command: GlIndirectCommandRange {
                    range: GlBufferRange {
                        buffer,
                        offset: 0,
                        size: indirect.arguments.descriptor.size,
                    },
                    command_offset: indirect.arguments_offset,
                    draw_count: 1,
                    stride: indirect.stride,
                    abi: if indirect.inputs.index.is_some() {
                        GlIndirectAbi::Indexed
                    } else {
                        GlIndirectAbi::NonIndexed
                    },
                },
            },
        )
    }

    fn lower_compute_dispatch(&mut self, dispatch: &ComputeDispatch) -> (result: Result<
        NativePhaseBAction,
        RhiError,
    >)
        requires
            old(self).wf(),
        ensures
            final(self).wf(),
            link::grows(old(self)@.log, final(self)@.log),
            forall|o: Seq<NativeStep>|
                link::grows(final(self)@.log, o) ==> #[trigger] old(self)@.lower_compute_dispatch(*dispatch, o) == (
                    final(self)@,
                    seen(result),
                ),
    {
        let operation = "NativeProviderOwner::submit phase A compute-dispatch";
        if dispatch.immediates.len() != 0 {
            return Err(
                RhiError::new(
                    RhiErrorKind::Unsupported,
                    "native GL has no verified immediate-data lowering",
                ).at(operation),
            );
        }
        let pipeline = match backing::compute_pipeline_ref(&dispatch.pipeline) {
            Ok(value) => value,
            Err(error) => {
                return Err(error);
            },
        };
        match check_groups(&dispatch.groups) {
            Ok(()) => {},
            Err(error) => {
                return Err(error);
            },
        }
        match self.ready(operation) {
            Ok(()) => {},
            Err(error) => {
                return Err(error);
            },
        }
        let program = match self.compute_pipelines.get(pipeline.name.raw() as u64) {
            Some(program) => *program,
            None => {
                return Err(
                    RhiError::new(
                        RhiErrorKind::WrongDevice,
                        "native GL compute pipeline backing is not live",
                    ).at(operation),
                );
            },
        };
        if !self.has_groups(&dispatch.groups) {
            return Err(
                RhiError::new(
                    RhiErrorKind::WrongDevice,
                    "native GL bind group backing is not live",
                ).at(operation),
            );
        }
        Ok(
            NativePhaseBAction::ComputeDispatch {
                program,
                program_key: CanonicalBlockId::Program(program),
                groups: GlDispatchGroups { x: dispatch.x, y: dispatch.y, z: dispatch.z },
                bind_groups: bind(&dispatch.groups, program),
            },
        )
    }

    fn lower_query(&mut self, point: QueryPoint, operation: &'static str) -> (result: Result<
        (crate::api::identity::QueryId, QueryType),
        RhiError,
    >)
        requires
            old(self).wf(),
        ensures
            final(self).wf(),
            link::grows(old(self)@.log, final(self)@.log),
            forall|o: Seq<NativeStep>|
                link::grows(final(self)@.log, o) ==> #[trigger] old(self)@.lower_query(point, operation, o) == (
                    final(self)@,
                    result,
                ),
    {
        let set = match backing::query_set_ref(&point.set) {
            Ok(value) => value,
            Err(error) => {
                return Err(error);
            },
        };
        match self.ready(operation) {
            Ok(()) => {},
            Err(error) => {
                return Err(error);
            },
        }
        let query = match self.query_id(set.name, point.index, None, operation) {
            Ok(value) => value,
            Err(error) => {
                return Err(error);
            },
        };
        if query.1 != QueryType::Occlusion {
            return Err(
                RhiError::new(
                    RhiErrorKind::Unsupported,
                    "native GL only lowers occlusion begin/end query sets",
                ).at(operation),
            );
        }
        Ok(query)
    }

    fn lower_query_begin(&mut self, point: QueryPoint) -> (result: Result<
        NativePhaseBAction,
        RhiError,
    >)
        requires
            old(self).wf(),
        ensures
            final(self).wf(),
            link::grows(old(self)@.log, final(self)@.log),
            forall|o: Seq<NativeStep>|
                link::grows(final(self)@.log, o) ==> #[trigger] old(self)@.lower_query_begin(point, o) == (
                    final(self)@,
                    seen(result),
                ),
    {
        let operation = "NativeProviderOwner::submit phase A query-begin";
        let query = match self.lower_query(point, operation) {
            Ok(value) => value,
            Err(error) => {
                return Err(error);
            },
        };
        let state_key = match self.canonical(operation) {
            Ok(value) => value,
            Err(error) => {
                return Err(error);
            },
        };
        Ok(NativePhaseBAction::QueryBegin { query: query.0, ty: query.1, state_key })
    }

    fn lower_query_end(&mut self, point: QueryPoint) -> (result: Result<
        NativePhaseBAction,
        RhiError,
    >)
        requires
            old(self).wf(),
        ensures
            final(self).wf(),
            link::grows(old(self)@.log, final(self)@.log),
            forall|o: Seq<NativeStep>|
                link::grows(final(self)@.log, o) ==> #[trigger] old(self)@.lower_query_end(point, o) == (
                    final(self)@,
                    seen(result),
                ),
    {
        let query = match self.lower_query(point, "NativeProviderOwner::submit phase A query-end") {
            Ok(value) => value,
            Err(error) => {
                return Err(error);
            },
        };
        Ok(NativePhaseBAction::QueryEnd { ty: query.1 })
    }

    fn lower_timestamp(&mut self, point: QueryPoint) -> (result: Result<
        NativePhaseBAction,
        RhiError,
    >)
        requires
            old(self).wf(),
        ensures
            final(self).wf(),
            link::grows(old(self)@.log, final(self)@.log),
            forall|o: Seq<NativeStep>|
                link::grows(final(self)@.log, o) ==> #[trigger] old(self)@.lower_timestamp(point, o) == (
                    final(self)@,
                    seen(result),
                ),
    {
        let operation = "NativeProviderOwner::submit phase A timestamp";
        let set = match backing::query_set_ref(&point.set) {
            Ok(value) => value,
            Err(error) => {
                return Err(error);
            },
        };
        match self.ready(operation) {
            Ok(()) => {},
            Err(error) => {
                return Err(error);
            },
        }
        let query = match self.query_id(set.name, point.index, Some(QueryType::Timestamp), operation) {
            Ok(value) => value,
            Err(error) => {
                return Err(error);
            },
        };
        Ok(NativePhaseBAction::Timestamp(query.0))
    }

    fn lower_payload(&mut self, payload: &RecordedPayload) -> (result: Result<
        NativePhaseBAction,
        RhiError,
    >)
        requires
            old(self).wf(),
        ensures
            final(self).wf(),
            link::grows(old(self)@.log, final(self)@.log),
            forall|o: Seq<NativeStep>|
                link::grows(final(self)@.log, o) ==> #[trigger] old(self)@.lower_payload(*payload, o) == (
                    final(self)@,
                    seen(result),
                ),
    {
        match payload {
            RecordedPayload::Copy(CopyRecord::Buffer(copy)) => self.lower_buffer_copy(copy),
            RecordedPayload::Copy(CopyRecord::Texture(copy)) => self.lower_texture_copy(copy),
            RecordedPayload::Upload(UploadDescriptor::Buffer(upload)) => self.lower_buffer_upload(
                upload,
            ),
            RecordedPayload::Upload(UploadDescriptor::Texture(upload)) => {
                self.lower_texture_upload(upload)
            },
            RecordedPayload::Readback(ticket) => self.lower_readback(ticket),
            RecordedPayload::RasterBegin(begin) => self.lower_raster_begin(begin),
            RecordedPayload::RasterEnd => Ok(NativePhaseBAction::RasterEnd),
            RecordedPayload::RasterDraw(draw) => self.lower_raster_draw(draw),
            RecordedPayload::RasterIndirect(indirect) => self.lower_raster_indirect(indirect),
            RecordedPayload::ComputeDispatch(dispatch) => self.lower_compute_dispatch(dispatch),
            RecordedPayload::QueryBegin(point) => self.lower_query_begin(*point),
            RecordedPayload::QueryEnd(point) => self.lower_query_end(*point),
            RecordedPayload::TimestampWrite(point) => self.lower_timestamp(*point),
            RecordedPayload::QueryResolve => {
                return Err(
                    RhiError::new(
                        RhiErrorKind::Unsupported,
                        "native GL baseline has no query-result-to-buffer route; query-buffer support is not universal across GL4/GLES3",
                    ).at("NativeProviderOwner::submit phase A query-resolve"),
                );
            },
            RecordedPayload::DebugPush | RecordedPayload::DebugPop
            | RecordedPayload::DebugMarker => {
                return Err(
                    RhiError::new(
                        RhiErrorKind::Unsupported,
                        "native GL debug-marker commands require a verified KHR_debug entry-point executor",
                    ).at("NativeProviderOwner::submit phase A debug-marker"),
                );
            },
            _ => {
                return Err(
                    RhiError::new(
                        RhiErrorKind::Unsupported,
                        "native GL v13 Phase A has no complete owned action for this recorded payload",
                    ).at("NativeProviderOwner::submit phase A"),
                );
            },
        }
    }

    /// Lowers one command.
    pub fn lower_command(&mut self, command: &RecordedCommand) -> (result: Result<
        Option<NativePhaseBAction>,
        RhiError,
    >)
        requires
            old(self).wf(),
        ensures
            final(self).wf(),
            link::grows(old(self)@.log, final(self)@.log),
            forall|o: Seq<NativeStep>|
                link::grows(final(self)@.log, o) ==> #[trigger] old(self)@.lower_command(*command, o) == (
                    final(self)@,
                    seen_option(result),
                ),
    {
        if any_shader_write(&command.uses) {
            return Err(
                RhiError::new(
                    RhiErrorKind::Unsupported,
                    "native GL storage-write visibility requires a complete storage-binding and memory-barrier lowering",
                ).at("NativeProviderOwner::submit phase A resource visibility"),
            );
        }
        match &command.payload {
            // GL has no encoder to enter or leave: a dispatch carries all its
            // state.
            RecordedPayload::ComputeBegin | RecordedPayload::ComputeEnd => Ok(None),
            payload => {
                let action = match self.lower_payload(payload) {
                    Ok(value) => value,
                    Err(error) => {
                        return Err(error);
                    },
                };
                Ok(Some(action))
            },
        }
    }

    fn lower_commands(
        &mut self,
        commands: &Vec<Arc<RecordedCommand>>,
        actions: &mut Vec<NativePhaseBAction>,
    ) -> (result: Result<(), RhiError>)
        requires
            old(self).wf(),
        ensures
            final(self).wf(),
            link::grows(old(self)@.log, final(self)@.log),
            forall|o: Seq<NativeStep>|
                link::grows(final(self)@.log, o) ==> #[trigger] old(self)@.lower_commands(
                    commands@,
                    0,
                    execute::seen_actions(old(actions)@),
                    o,
                ) == (
                    final(self)@,
                    match result {
                        Ok(_) => Ok(execute::seen_actions(final(actions)@)),
                        Err(error) => Err(error),
                    },
                ),
    {
        let mut at: usize = 0;
        let ghost start = execute::seen_actions(actions@);
        while at < commands.len()
            invariant
                at <= commands@.len(),
                self.wf(),
                link::grows(old(self)@.log, self@.log),
                start == execute::seen_actions(old(actions)@),
                forall|o: Seq<NativeStep>|
                    link::grows(self@.log, o) ==> #[trigger] old(self)@.lower_commands(
                        commands@,
                        0,
                        start,
                        o,
                    ) == self@.lower_commands(
                        commands@,
                        at as int,
                        execute::seen_actions(actions@),
                        o,
                    ),
            decreases commands@.len() - at,
        {
            match self.lower_command(&commands[at]) {
                Ok(None) => {},
                Ok(Some(action)) => {
                    let ghost before = actions@;
                    actions.push(action);
                    assert(execute::seen_actions(actions@) =~= execute::seen_actions(before).push(
                        action@,
                    ));
                },
                Err(error) => {
                    return Err(error);
                },
            }
            at += 1;
        }
        Ok(())
    }

    /// Lowers a submission completely, before any command is given.
    pub fn lower_batches(&mut self, batches: &Vec<GlSubmissionBatch>) -> (result: Result<
        Vec<NativePhaseBAction>,
        RhiError,
    >)
        requires
            old(self).wf(),
        ensures
            final(self).wf(),
            link::grows(old(self)@.log, final(self)@.log),
            forall|o: Seq<NativeStep>|
                link::grows(final(self)@.log, o) ==> #[trigger] old(self)@.lower_batches(
                    batches@,
                    0,
                    Seq::empty(),
                    o,
                ) == (
                    final(self)@,
                    match result {
                        Ok(actions) => Ok(execute::seen_actions(actions@)),
                        Err(error) => Err(error),
                    },
                ),
    {
        let mut actions: Vec<NativePhaseBAction> = Vec::new();
        let mut at: usize = 0;
        assert(execute::seen_actions(actions@) =~= Seq::<ActionModel>::empty());
        while at < batches.len()
            invariant
                at <= batches@.len(),
                self.wf(),
                link::grows(old(self)@.log, self@.log),
                forall|o: Seq<NativeStep>|
                    link::grows(self@.log, o) ==> #[trigger] old(self)@.lower_batches(
                        batches@,
                        0,
                        Seq::empty(),
                        o,
                    ) == self@.lower_batches(
                        batches@,
                        at as int,
                        execute::seen_actions(actions@),
                        o,
                    ),
            decreases batches@.len() - at,
        {
            match self.lower_commands(&batches[at].commands, &mut actions) {
                Ok(()) => {},
                Err(error) => {
                    return Err(error);
                },
            }
            at += 1;
        }
        Ok(actions)
    }

    /// The serial of the next submission.
    pub fn reserve_completion_serial(&self) -> (result: Result<u64, RhiError>)
        requires
            self.wf(),
        ensures
            result == self@.next_serial(),
    {
        let count: u64 = self.completions.len() as u64;
        assert(self@.completions.len() == self.completions@.len());
        if count >= 0xffff_ffff_ffff_fffe {
            return Err(
                RhiError::new(
                    RhiErrorKind::BackendFailure,
                    "native GL completion serial space exhausted",
                ).at("NativeProviderOwner::submit phase B"),
            );
        }
        Ok(count + 1)
    }

    /// Carries out a submission. It is refused only while nothing was given to
    /// GL yet.
    pub fn submit(&mut self, plan: &GlSubmissionPlan) -> (result: Result<
        SubmissionOutcome,
        RhiError,
    >)
        requires
            old(self).wf(),
        ensures
            final(self).wf(),
            link::grows(old(self)@.log, final(self)@.log),
            result is Ok ==> result->Ok_0.points@ == execute::points_at(
                plan_points(plan.batches@),
                result->Ok_0.completion,
            ),
            forall|o: Seq<NativeStep>|
                link::grows(final(self)@.log, o) ==> #[trigger] old(self)@.submit(
                    plan.batches@,
                    o,
                ) == (final(self)@, serial_of(result)),
    {
        let actions = match self.lower_batches(&plan.batches) {
            Ok(value) => value,
            Err(error) => {
                return Err(error);
            },
        };
        match self.ready("NativeProviderOwner::submit phase B") {
            Ok(()) => {},
            Err(error) => {
                return Err(error);
            },
        }
        let serial = match self.reserve_completion_serial() {
            Ok(value) => value,
            Err(error) => {
                return Err(error);
            },
        };
        let tickets = execute::native_readback_tickets(&actions);
        match self.execute_submission_after_commit(&actions) {
            Ok(()) => {},
            Err(error) => {
                self.fail_submission_after_commit(&tickets, error);
            },
        }
        let points = number_points(&plan.batches, serial);
        Ok(SubmissionOutcome { completion: serial, points })
    }
}

fn number_points(batches: &Vec<GlSubmissionBatch>, serial: u64) -> (result: Vec<(PlanPoint, u64)>)
    ensures
        result@ == execute::points_at(plan_points(batches@), serial),
{
    let mut result: Vec<(PlanPoint, u64)> = Vec::new();
    let mut at: usize = 0;
    let ghost goal = execute::points_at(plan_points(batches@), serial);
    while at < batches.len()
        invariant
            at <= batches@.len(),
            goal == execute::points_at(plan_points(batches@), serial),
            result@ == goal.take(at as int),
        decreases batches@.len() - at,
    {
        result.push((batches[at].point, serial));
        at += 1;
        assert(result@ =~= goal.take(at as int));
    }
    assert(goal.take(at as int) =~= goal);
    result
}

} // verus!
