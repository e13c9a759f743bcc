//! Framebuffers, passes and blits.
//!
//! Loading and clearing happens once per pass. The clear commands honor the
//! scissor, so that a pass turns it off around them; the next pipeline sets it
//! again. Resolving is a blit of its own.

use vstd::prelude::*;
use crate::api::discovery::{FormatKey, GlFormatResourceKind};
use crate::api::error::GlError;
use crate::api::gl::{
    GlAttachmentTarget, GlColorAttachment, GlDepthStencilAttachment, GlFamilyProfile, GlFilterMode,
    GlFramebufferDescriptor, GlLoadOp, GlPassAttachmentView, GlRenderPassDescriptor,
    GlRenderTarget, GlStoreOp, GlTextureDimension, GlTextureView,
};
use crate::api::identity::FramebufferId;
use crate::native::call;
use crate::native::call::{GlCall, GlCalls, GlCorners, GlStep};
use crate::native::gl_const;
use crate::native::link::FramebufferModel;
use crate::native::provider;
use crate::native::provider::{
    depth_attachment_point, has_stencil_plane, validation, ActivePass, FramebufferRecord,
    NativeFramebuffer, NativeGlProvider, PassModel, Provider,
};

verus! {

/// The planes that a blit copies.
#[derive(Clone, Copy, Debug, PartialEq, Eq, Structural)]
pub struct GlBlitMask {
    pub color: bool,
    pub depth: bool,
    pub stencil: bool,
}

/// A place or a size in a framebuffer.
#[derive(Clone, Copy, Debug, PartialEq, Eq, Structural)]
pub struct GlPlanePoint {
    pub x: u32,
    pub y: u32,
}

/// The rectangles of a blit.
#[derive(Clone, Copy, Debug, PartialEq, Eq, Structural)]
pub struct GlBlitRegion {
    pub src_offset: GlPlanePoint,
    pub src_extent: GlPlanePoint,
    pub dst_offset: GlPlanePoint,
    pub dst_extent: GlPlanePoint,
}

/// The mask of the planes.
pub open spec fn mask_bits(masks: GlBlitMask) -> u32 {
    (if masks.color {
        gl_const::COLOR_BUFFER_BIT
    } else {
        0
    }) | (if masks.depth {
        gl_const::DEPTH_BUFFER_BIT
    } else {
        0
    }) | (if masks.stencil {
        gl_const::STENCIL_BUFFER_BIT
    } else {
        0
    })
}

pub fn blit_mask_bits(masks: GlBlitMask) -> (result: u32)
    ensures
        result == mask_bits(masks),
{
    let color: u32 = if masks.color {
        gl_const::COLOR_BUFFER_BIT
    } else {
        0
    };
    let depth: u32 = if masks.depth {
        gl_const::DEPTH_BUFFER_BIT
    } else {
        0
    };
    let stencil: u32 = if masks.stencil {
        gl_const::STENCIL_BUFFER_BIT
    } else {
        0
    };
    color | depth | stencil
}

pub open spec fn filter_token(filter: GlFilterMode) -> u32 {
    match filter {
        GlFilterMode::Nearest => gl_const::NEAREST,
        GlFilterMode::Linear => gl_const::LINEAR,
    }
}

pub fn blit_filter(filter: GlFilterMode) -> (result: u32)
    ensures
        result == filter_token(filter),
{
    match filter {
        GlFilterMode::Nearest => gl_const::NEAREST,
        GlFilterMode::Linear => gl_const::LINEAR,
    }
}

/// The token of a color attachment.
pub open spec fn color_token(index: u32) -> u32 {
    gl_const::COLOR_ATTACHMENT0.wrapping_add(index)
}

pub fn draw_buffer_constant(index: u32) -> (result: u32)
    ensures
        result == color_token(index),
{
    gl_const::COLOR_ATTACHMENT0.wrapping_add(index)
}

/// The size and the samples of a framebuffer.
pub open spec fn shape_of(descriptor: FramebufferModel) -> (u32, u32, u32) {
    if descriptor.colors.len() > 0 {
        let view = descriptor.colors[0];
        (view.width, view.height, view.sample_count)
    } else {
        match descriptor.depth_stencil {
            Some(view) => (view.width, view.height, view.sample_count),
            None => (0, 0, 1),
        }
    }
}

pub fn framebuffer_shape(descriptor: &GlFramebufferDescriptor) -> (result: (u32, u32, u32))
    ensures
        result == shape_of(descriptor@),
{
    if descriptor.color_attachments.len() > 0 {
        let view = descriptor.color_attachments[0];
        (view.width, view.height, view.sample_count)
    } else {
        match descriptor.depth_stencil_attachment {
            Some(view) => (view.width, view.height, view.sample_count),
            None => (0, 0, 1),
        }
    }
}

/// The target through which a texture is attached. It follows the samples of
/// the storage, for a multisample texture is another kind of object.
pub open spec fn texture_token(sample_count: u32) -> u32 {
    if sample_count > 1 {
        gl_const::TEXTURE_2D_MULTISAMPLE
    } else {
        gl_const::TEXTURE_2D
    }
}

pub fn attachment_target(sample_count: u32) -> (result: u32)
    ensures
        result == texture_token(sample_count),
{
    if sample_count > 1 {
        gl_const::TEXTURE_2D_MULTISAMPLE
    } else {
        gl_const::TEXTURE_2D
    }
}

/// Whether a context can be told that attachments are not needed any more.
pub open spec fn can_invalidate(profile: GlFamilyProfile) -> bool {
    match profile {
        GlFamilyProfile::Embedded { .. } => true,
        GlFamilyProfile::Desktop { major, minor } => major > 4 || (major == 4 && minor >= 3),
        GlFamilyProfile::WebGl2 => true,
    }
}

pub fn supports_framebuffer_invalidate(profile: GlFamilyProfile) -> (result: bool)
    ensures
        result == can_invalidate(profile),
{
    match profile {
        GlFamilyProfile::Embedded { .. } => true,
        GlFamilyProfile::Desktop { major, minor } => major > 4 || (major == 4 && minor >= 3),
        GlFamilyProfile::WebGl2 => true,
    }
}

/// Whether a view has this size and these samples.
pub open spec fn has_shape(view: GlTextureView, shape: (u32, u32, u32)) -> bool {
    view.width == shape.0 && view.height == shape.1 && view.sample_count == shape.2
}

/// Whether a framebuffer makes sense: it has an attachment, all of them have
/// one shape, there are not too many, and what is drawn to is attached.
pub open spec fn framebuffer_is_valid(
    descriptor: FramebufferModel,
    max_colors: u32,
    max_draw_buffers: u32,
) -> bool {
    &&& descriptor.colors.len() > 0 || descriptor.depth_stencil is Some
    &&& descriptor.colors.len() <= max_colors
    &&& descriptor.draw_buffers.len() <= max_draw_buffers
    &&& forall|i: int|
        0 <= i < descriptor.draw_buffers.len() ==> #[trigger] descriptor.draw_buffers[i]
            < descriptor.colors.len()
    &&& forall|i: int|
        0 <= i < descriptor.colors.len() ==> has_shape(
            #[trigger] descriptor.colors[i],
            shape_of(descriptor),
        )
    &&& descriptor.depth_stencil is Some ==> has_shape(
        descriptor.depth_stencil->0,
        shape_of(descriptor),
    )
}

fn shapes_agree(views: &Vec<GlTextureView>, shape: (u32, u32, u32)) -> (result: bool)
    ensures
        result == (forall|i: int|
            0 <= i < views@.len() ==> has_shape(#[trigger] views@[i], shape)),
{
    let mut at: usize = 0;
    while at < views.len()
        invariant
            at <= views@.len(),
            forall|i: int| 0 <= i < at ==> has_shape(#[trigger] views@[i], shape),
        decreases views@.len() - at,
    {
        let view = views[at];
        if view.width != shape.0 || view.height != shape.1 || view.sample_count != shape.2 {
            assert(!has_shape(views@[at as int], shape));
            return false;
        }
        at += 1;
    }
    true
}

fn all_below(indices: &Vec<u32>, count: usize) -> (result: bool)
    ensures
        result == (forall|i: int| 0 <= i < indices@.len() ==> #[trigger] indices@[i] < count),
{
    let mut at: usize = 0;
    while at < indices.len()
        invariant
            at <= indices@.len(),
            forall|i: int| 0 <= i < at ==> #[trigger] indices@[i] < count,
        decreases indices@.len() - at,
    {
        if indices[at] as u64 >= count as u64 {
            assert(indices@[at as int] >= count);
            return false;
        }
        at += 1;
    }
    true
}

/// Whether a framebuffer makes sense.
pub fn validate_framebuffer(
    descriptor: &GlFramebufferDescriptor,
    max_colors: u32,
    max_draw_buffers: u32,
) -> (result: bool)
    ensures
        result == framebuffer_is_valid(descriptor@, max_colors, max_draw_buffers),
{
    let shape = framebuffer_shape(descriptor);
    let count = descriptor.color_attachments.len();
    if count == 0 && descriptor.depth_stencil_attachment.is_none() {
        return false;
    }
    if count as u64 > max_colors as u64 || descriptor.draw_buffers.len() as u64
        > max_draw_buffers as u64 {
        return false;
    }
    let depth_agrees = match descriptor.depth_stencil_attachment {
        Some(view) => view.width == shape.0 && view.height == shape.1 && view.sample_count
            == shape.2,
        None => true,
    };
    all_below(&descriptor.draw_buffers, count) && shapes_agree(
        &descriptor.color_attachments,
        shape,
    ) && depth_agrees
}

/// Whether no attachment asks for more views than a context was seen to serve.
pub open spec fn views_are_proved(descriptor: FramebufferModel, max_views: u32) -> bool {
    &&& forall|i: int|
        0 <= i < descriptor.colors.len() ==> (#[trigger] descriptor.colors[i]).layer_count <= 1
            || descriptor.colors[i].layer_count <= max_views
    &&& descriptor.depth_stencil is Some ==> descriptor.depth_stencil->0.layer_count <= 1
        || descriptor.depth_stencil->0.layer_count <= max_views
}

/// Whether no attachment asks for more views than a context was seen to serve.
pub fn validate_multiview(descriptor: &GlFramebufferDescriptor, max_views: u32) -> (result: bool)
    ensures
        result == views_are_proved(descriptor@, max_views),
{
    let mut at: usize = 0;
    while at < descriptor.color_attachments.len()
        invariant
            at <= descriptor.color_attachments@.len(),
            forall|i: int|
                0 <= i < at ==> (#[trigger] descriptor.color_attachments@[i]).layer_count <= 1
                    || descriptor.color_attachments@[i].layer_count <= max_views,
        decreases descriptor.color_attachments@.len() - at,
    {
        let count = descriptor.color_attachments[at].layer_count;
        if count > 1 && count > max_views {
            assert(descriptor@.colors[at as int].layer_count == count);
            return false;
        }
        at += 1;
    }
    match descriptor.depth_stencil_attachment {
        Some(view) => view.layer_count <= 1 || view.layer_count <= max_views,
        None => true,
    }
}

/// The views that an attachment of a pass asks for.
pub open spec fn views_asked(view: GlPassAttachmentView) -> u32 {
    match view {
        GlPassAttachmentView::Allocated(view) => view.layer_count,
        GlPassAttachmentView::DefaultColor(_) => 1,
    }
}

/// Whether no attachment of a pass asks for more views than a context was seen
/// to serve.
pub open spec fn pass_views_are_proved(request: PassRequest, max_views: u32) -> bool {
    &&& forall|i: int|
        0 <= i < request.colors.len() ==> views_asked((#[trigger] request.colors[i]).view) <= 1
            || views_asked(request.colors[i].view) <= max_views
    &&& request.depth_stencil is Some ==> request.depth_stencil->0.view.layer_count <= 1
        || request.depth_stencil->0.view.layer_count <= max_views
}

fn validate_pass_multiview(descriptor: &GlRenderPassDescriptor, max_views: u32) -> (result: bool)
    ensures
        result == pass_views_are_proved(request_of(*descriptor), max_views),
{
    let mut at: usize = 0;
    while at < descriptor.color_attachments.len()
        invariant
            at <= descriptor.color_attachments@.len(),
            forall|i: int|
                0 <= i < at ==> views_asked((#[trigger] descriptor.color_attachments@[i]).view) <= 1
                    || views_asked(descriptor.color_attachments@[i].view) <= max_views,
        decreases descriptor.color_attachments@.len() - at,
    {
        let count: u32 = match descriptor.color_attachments[at].view {
            GlPassAttachmentView::Allocated(view) => view.layer_count,
            GlPassAttachmentView::DefaultColor(_) => 1,
        };
        if count > 1 && count > max_views {
            proof {
                let request = request_of(*descriptor);
                assert(request.colors[at as int] == descriptor.color_attachments@[at as int]);
                assert(!pass_views_are_proved(request, max_views));
            }
            return false;
        }
        at += 1;
    }
    match &descriptor.depth_stencil_attachment {
        Some(attachment) => attachment.view.layer_count <= 1 || attachment.view.layer_count
            <= max_views,
        None => true,
    }
}

/// A pass by value.
#[verifier::ext_equal]
pub struct PassRequest {
    pub target: GlRenderTarget,
    pub colors: Seq<GlColorAttachment>,
    pub depth_stencil: Option<GlDepthStencilAttachment>,
}

/// The pass that a descriptor asks for.
pub open spec fn request_of(descriptor: GlRenderPassDescriptor) -> PassRequest {
    PassRequest {
        target: descriptor.target,
        colors: descriptor.color_attachments@,
        depth_stencil: descriptor.depth_stencil_attachment,
    }
}

/// Whether a pass is one on its framebuffer: the same attachments at the same
/// places. A drawable has one color and no depth.
pub open spec fn pass_is_valid(
    request: PassRequest,
    framebuffer: Option<FramebufferModel>,
    max_colors: u32,
) -> bool {
    request.colors.len() <= max_colors && match request.target {
        GlRenderTarget::Offscreen(_) => {
            &&& framebuffer is Some
            &&& request.colors.len() == framebuffer->0.colors.len()
            &&& forall|i: int|
                0 <= i < request.colors.len() ==> (#[trigger] request.colors[i]).view
                    == GlPassAttachmentView::Allocated(framebuffer->0.colors[i])
            &&& match request.depth_stencil {
                Some(attachment) => framebuffer->0.depth_stencil == Some(attachment.view),
                None => framebuffer->0.depth_stencil is None,
            }
        },
        GlRenderTarget::Default(target) => {
            &&& request.colors.len() <= 1
            &&& forall|i: int|
                0 <= i < request.colors.len() ==> (#[trigger] request.colors[i]).view
                    == GlPassAttachmentView::DefaultColor(target)
            &&& request.depth_stencil is None
        },
    }
}

fn offscreen_matches(descriptor: &GlRenderPassDescriptor, framebuffer: &GlFramebufferDescriptor) -> (
result: bool)
    requires
        descriptor.target is Offscreen,
        descriptor.color_attachments@.len() <= u32::MAX,
    ensures
        result == pass_is_valid(request_of(*descriptor), Some(framebuffer@), u32::MAX),
{
    if descriptor.color_attachments.len() != framebuffer.color_attachments.len() {
        return false;
    }
    let mut at: usize = 0;
    while at < descriptor.color_attachments.len()
        invariant
            at <= descriptor.color_attachments@.len(),
            descriptor.target is Offscreen,
            descriptor.color_attachments@.len() == framebuffer.color_attachments@.len(),
            forall|i: int|
                0 <= i < at ==> (#[trigger] descriptor.color_attachments@[i]).view
                    == GlPassAttachmentView::Allocated(framebuffer.color_attachments@[i]),
        decreases descriptor.color_attachments@.len() - at,
    {
        if descriptor.color_attachments[at].view != GlPassAttachmentView::Allocated(
            framebuffer.color_attachments[at],
        ) {
            proof {
                let request = request_of(*descriptor);
                assert(request.colors[at as int] == descriptor.color_attachments@[at as int]);
                assert(framebuffer@.colors[at as int] == framebuffer.color_attachments@[at as int]);
                assert(!pass_is_valid(request, Some(framebuffer@), u32::MAX));
            }
            return false;
        }
        at += 1;
    }
    match (&descriptor.depth_stencil_attachment, &framebuffer.depth_stencil_attachment) {
        (Some(attachment), Some(view)) => attachment.view == *view,
        (None, None) => true,
        _ => false,
    }
}

fn default_matches(descriptor: &GlRenderPassDescriptor) -> (result: bool)
    requires
        descriptor.target is Default,
    ensures
        result == pass_is_valid(request_of(*descriptor), None, u32::MAX),
{
    if descriptor.color_attachments.len() > 1 || descriptor.depth_stencil_attachment.is_some() {
        return false;
    }
    match descriptor.target {
        GlRenderTarget::Default(target) => {
            if descriptor.color_attachments.len() == 1 {
                let agrees = descriptor.color_attachments[0].view
                    == GlPassAttachmentView::DefaultColor(target);
                assert(request_of(*descriptor).colors[0] == descriptor.color_attachments@[0]);
                agrees
            } else {
                true
            }
        },
        GlRenderTarget::Offscreen(_) => false,
    }
}

/// Whether an attachment is given up when its pass ends.
pub open spec fn discards(colors: Seq<GlColorAttachment>) -> Seq<bool> {
    colors.map_values(|attachment: GlColorAttachment| attachment.store is Discard)
}

/// The tokens of the attachments that are given up.
pub open spec fn discarded(discard: Seq<bool>) -> Seq<u32>
    decreases discard.len(),
{
    if discard.len() == 0 {
        Seq::empty()
    } else {
        let before = discarded(discard.drop_last());
        if discard.last() {
            before.push(color_token((discard.len() - 1) as u32))
        } else {
            before
        }
    }
}

/// All attachments that are given up when a pass ends.
pub open spec fn invalidated(pass: PassModel) -> Seq<u32> {
    let colors = discarded(pass.discard_color);
    if pass.discard_depth_stencil == Some(true) {
        colors.push(gl_const::DEPTH_ATTACHMENT)
    } else {
        colors
    }
}

/// The tokens of the buffers to draw to.
pub open spec fn draw_tokens(indices: Seq<u32>) -> Seq<u32> {
    indices.map_values(|index: u32| color_token(index))
}

fn draw_constants(indices: &Vec<u32>) -> (result: Vec<u32>)
    ensures
        result@ == draw_tokens(indices@),
{
    let mut result: Vec<u32> = Vec::new();
    let mut at: usize = 0;
    let ghost goal = draw_tokens(indices@);
    while at < indices.len()
        invariant
            at <= indices@.len(),
            goal == draw_tokens(indices@),
            result@ == goal.take(at as int),
        decreases indices@.len() - at,
    {
        result.push(draw_buffer_constant(indices[at]));
        at += 1;
        assert(result@ =~= goal.take(at as int));
    }
    assert(goal.take(at as int) =~= goal);
    result
}

fn invalidation(pass: &ActivePass) -> (result: Vec<u32>)
    ensures
        result@ == invalidated(pass@),
{
    let mut result: Vec<u32> = Vec::new();
    let mut at: usize = 0;
    while at < pass.discard_color.len()
        invariant
            at <= pass.discard_color@.len(),
            result@ == discarded(pass.discard_color@.take(at as int)),
        decreases pass.discard_color@.len() - at,
    {
        proof {
            assert(pass.discard_color@.take(at + 1).drop_last() =~= pass.discard_color@.take(
                at as int,
            ));
            assert(pass.discard_color@.take(at + 1).last() == pass.discard_color@[at as int]);
        }
        if pass.discard_color[at] {
            result.push(draw_buffer_constant(at as u32));
        }
        at += 1;
    }
    assert(pass.discard_color@.take(at as int) =~= pass.discard_color@);
    if let Some(discard) = pass.discard_depth_stencil {
        if discard {
            result.push(gl_const::DEPTH_ATTACHMENT);
        }
    }
    result
}

fn discard_flags(colors: &Vec<GlColorAttachment>) -> (result: Vec<bool>)
    ensures
        result@ == discards(colors@),
{
    let mut result: Vec<bool> = Vec::new();
    let mut at: usize = 0;
    let ghost goal = discards(colors@);
    while at < colors.len()
        invariant
            at <= colors@.len(),
            goal == discards(colors@),
            result@ == goal.take(at as int),
        decreases colors@.len() - at,
    {
        result.push(colors[at].store == GlStoreOp::Discard);
        at += 1;
        assert(result@ =~= goal.take(at as int));
    }
    assert(goal.take(at as int) =~= goal);
    result
}

fn copy_views(views: &Vec<GlTextureView>) -> (result: Vec<GlTextureView>)
    ensures
        result@ == views@,
{
    let mut result: Vec<GlTextureView> = Vec::new();
    let mut at: usize = 0;
    while at < views.len()
        invariant
            at <= views@.len(),
            result@ == views@.take(at as int),
        decreases views@.len() - at,
    {
        result.push(views[at]);
        at += 1;
        assert(result@ =~= views@.take(at as int));
    }
    assert(views@.take(at as int) =~= views@);
    result
}

fn copy_indices(indices: &Vec<u32>) -> (result: Vec<u32>)
    ensures
        result@ == indices@,
{
    let mut result: Vec<u32> = Vec::new();
    let mut at: usize = 0;
    while at < indices.len()
        invariant
            at <= indices@.len(),
            result@ == indices@.take(at as int),
        decreases indices@.len() - at,
    {
        result.push(indices[at]);
        at += 1;
        assert(result@ =~= indices@.take(at as int));
    }
    assert(indices@.take(at as int) =~= indices@);
    result
}

/// Whether a stretch lies inside a length.
pub open spec fn stretch_is_inside(offset: u32, extent: u32, length: u32) -> bool {
    offset + extent <= length
}

fn inside(offset: u32, extent: u32, length: u32) -> (result: bool)
    ensures
        result == stretch_is_inside(offset, extent, length),
{
    match offset.checked_add(extent) {
        Some(end) => end <= length,
        None => false,
    }
}

/// Whether a rectangle lies inside a framebuffer.
pub open spec fn is_within(
    offset: GlPlanePoint,
    extent: GlPlanePoint,
    shape: (u32, u32, u32),
) -> bool {
    stretch_is_inside(offset.x, extent.x, shape.0) && stretch_is_inside(offset.y, extent.y, shape.1)
}

/// The corners of a rectangle.
pub open spec fn corners(offset: GlPlanePoint, extent: GlPlanePoint) -> GlCorners {
    GlCorners {
        x0: offset.x as i32,
        y0: offset.y as i32,
        x1: (offset.x + extent.x) as u32 as i32,
        y1: (offset.y + extent.y) as u32 as i32,
    }
}

fn corners_of(offset: GlPlanePoint, extent: GlPlanePoint) -> (result: GlCorners)
    requires
        offset.x + extent.x <= u32::MAX,
        offset.y + extent.y <= u32::MAX,
    ensures
        result == corners(offset, extent),
{
    let right: u32 = offset.x + extent.x;
    let bottom: u32 = offset.y + extent.y;
    GlCorners { x0: offset.x as i32, y0: offset.y as i32, x1: right as i32, y1: bottom as i32 }
}

/// The refusal of something that a context lacks.
pub open spec fn lacking(operation: &'static str, reason: &'static str) -> GlError {
    GlError::Unsupported { operation, reason }
}

impl Provider {
    /// Whether the rows say that storage can be rendered to.
    pub open spec fn renders(self, kind: GlFormatResourceKind, view: GlTextureView) -> bool {
        let key = FormatKey { kind, format: view.format, samples: view.sample_count };
        self.formats.contains_key(key) && self.formats[key].renderable
    }

    /// Whether a view is one of the storage that it names: a live allocation of
    /// this context, with the same format, size and samples, that can be
    /// rendered to. A renderbuffer has neither levels nor layers.
    pub open spec fn validate_attachment(self, op: &'static str, view: GlTextureView) -> Result<
        (),
        GlError,
    > {
        match view.target {
            GlAttachmentTarget::Texture(texture) => match self.texture(op, texture) {
                Err(error) => Err(error),
                Ok(entry) => {
                    let mip = entry.desc.spec_mip_extent(view.mip_level);
                    if entry.desc.format != view.format {
                        Err(
                            provider::invalid(
                                op,
                                "attachment view format does not match the allocation",
                            ),
                        )
                    } else if mip is None {
                        Err(provider::invalid(op, "attachment mip level is invalid"))
                    } else if view.width != mip->0.width || view.height != mip->0.height {
                        Err(
                            provider::invalid(
                                op,
                                "attachment view extent does not match the allocation extent",
                            ),
                        )
                    } else if view.array_layer != 0 || !(entry.desc.dimension is D2) {
                        Err(
                            lacking(
                                op,
                                "layered attachments are not part of this framebuffer slice",
                            ),
                        )
                    } else if entry.desc.sample_count != view.sample_count {
                        Err(
                            provider::invalid(
                                op,
                                "attachment sample count does not match the allocation",
                            ),
                        )
                    } else if !self.renders(GlFormatResourceKind::Texture, view) {
                        Err(
                            lacking(
                                op,
                                "attachment format lacks renderable evidence on this context",
                            ),
                        )
                    } else {
                        Ok(())
                    }
                },
            },
            GlAttachmentTarget::Renderbuffer(renderbuffer) => match self.renderbuffer(
                op,
                renderbuffer,
            ) {
                Err(error) => Err(error),
                Ok(entry) => if entry.desc.format != view.format {
                    Err(
                        provider::invalid(
                            op,
                            "attachment view format does not match the allocation",
                        ),
                    )
                } else if view.mip_level != 0 {
                    Err(provider::invalid(op, "attachment mip level is invalid"))
                } else if view.width != entry.desc.width || view.height != entry.desc.height {
                    Err(
                        provider::invalid(
                            op,
                            "attachment view extent does not match the allocation extent",
                        ),
                    )
                } else if view.array_layer != 0 || view.layer_count != 1 {
                    Err(
                        lacking(
                            op,
                            "layered attachments are not part of this framebuffer slice",
                        ),
                    )
                } else if entry.desc.samples != view.sample_count {
                    Err(
                        provider::invalid(
                            op,
                            "attachment sample count does not match the allocation",
                        ),
                    )
                } else if !self.renders(GlFormatResourceKind::Renderbuffer, view) {
                    Err(
                        lacking(
                            op,
                            "attachment format lacks renderable evidence on this context",
                        ),
                    )
                } else {
                    Ok(())
                },
            },
        }
    }

    /// The first view that is not one of its storage.
    pub open spec fn validate_views(self, op: &'static str, views: Seq<GlTextureView>) -> Result<
        (),
        GlError,
    >
        decreases views.len(),
    {
        if views.len() == 0 {
            Ok(())
        } else {
            match self.validate_attachment(op, views[0]) {
                Err(error) => Err(error),
                Ok(_) => self.validate_views(op, views.skip(1)),
            }
        }
    }

    /// Whether all views of a framebuffer are those of their storage.
    pub open spec fn validate_all(self, op: &'static str, descriptor: FramebufferModel) -> Result<
        (),
        GlError,
    > {
        match self.validate_views(op, descriptor.colors) {
            Err(error) => Err(error),
            Ok(_) => match descriptor.depth_stencil {
                Some(view) => self.validate_attachment(op, view),
                None => Ok(()),
            },
        }
    }

    /// Attaches one view. Textures and renderbuffers are attached in their own
    /// ways.
    pub open spec fn attach_one(self, op: &'static str, point: u32, view: GlTextureView) -> (
        Provider,
        Result<(), GlError>,
    ) {
        match view.target {
            GlAttachmentTarget::Texture(texture) => match self.texture(op, texture) {
                Err(error) => (self, Err(error)),
                Ok(entry) => (
                    self.call(
                        GlCall::FramebufferTexture2d {
                            target: gl_const::FRAMEBUFFER,
                            attachment: point,
                            texture_target: texture_token(entry.desc.sample_count),
                            texture: entry.raw,
                            level: view.mip_level as i32,
                        },
                    ),
                    Ok(()),
                ),
            },
            GlAttachmentTarget::Renderbuffer(renderbuffer) => match self.renderbuffer(
                op,
                renderbuffer,
            ) {
                Err(error) => (self, Err(error)),
                Ok(entry) => (
                    self.call(
                        GlCall::FramebufferRenderbuffer {
                            target: gl_const::FRAMEBUFFER,
                            attachment: point,
                            renderbuffer_target: gl_const::RENDERBUFFER,
                            renderbuffer: entry.raw,
                        },
                    ),
                    Ok(()),
                ),
            },
        }
    }

    /// Attaches the colors from a position on.
    pub open spec fn attach_colors(
        self,
        op: &'static str,
        views: Seq<GlTextureView>,
        index: nat,
    ) -> (Provider, Result<(), GlError>)
        decreases views.len() - index,
    {
        if index >= views.len() {
            (self, Ok(()))
        } else {
            let (m, outcome) = self.attach_one(
                op,
                color_token(index as u32),
                views[index as int],
            );
            match outcome {
                Err(error) => (m, Err(error)),
                Ok(_) => m.attach_colors(op, views, index + 1),
            }
        }
    }

    /// Attaches all views of a framebuffer.
    pub open spec fn attach_all(
        self,
        op: &'static str,
        raw: u32,
        descriptor: FramebufferModel,
    ) -> (Provider, Result<(), GlError>) {
        let (m, outcome) = self.call(
            GlCall::BindFramebuffer { target: gl_const::FRAMEBUFFER, framebuffer: Some(raw) },
        ).attach_colors(op, descriptor.colors, 0);
        match outcome {
            Err(error) => (m, Err(error)),
            Ok(_) => match descriptor.depth_stencil {
                None => (m, Ok(())),
                Some(view) => match provider::attachment_point(view.format) {
                    None => (
                        m,
                        Err(
                            provider::invalid(
                                op,
                                "depth attachment format has no attachment point",
                            ),
                        ),
                    ),
                    Some(point) => m.attach_one(op, point, view),
                },
            },
        }
    }

    /// Selects the buffers to draw to. Without color nothing is drawn to.
    pub open spec fn select_draw_buffers(self, descriptor: FramebufferModel) -> Provider {
        if descriptor.colors.len() == 0 {
            self.asked(GlStep::DrawBuffers { buffers: seq![gl_const::NO_BUFFER] })
        } else if descriptor.draw_buffers.len() > 0 {
            self.asked(GlStep::DrawBuffers { buffers: draw_tokens(descriptor.draw_buffers) })
        } else {
            self
        }
    }

    /// Whether the bound framebuffer is complete.
    pub open spec fn require_complete(self, op: &'static str, o: Seq<GlStep>) -> (
        Provider,
        Result<(), GlError>,
    ) {
        let reply = self.next(o)->Status_reply;
        (
            self.asked(GlStep::Status { target: gl_const::FRAMEBUFFER, reply }),
            if reply == gl_const::FRAMEBUFFER_COMPLETE {
                Ok(())
            } else {
                Err(provider::invalid(op, "framebuffer is incomplete"))
            },
        )
    }

    /// Fills a new framebuffer. Whatever comes of it, nothing stays bound.
    pub open spec fn fill_framebuffer(
        self,
        op: &'static str,
        raw: u32,
        descriptor: FramebufferModel,
        o: Seq<GlStep>,
    ) -> (Provider, Result<(), GlError>) {
        let (m1, attached) = self.attach_all(op, raw, descriptor);
        let m2 = m1.select_draw_buffers(descriptor);
        let (m3, complete) = match attached {
            Err(error) => (m2, Err(error)),
            Ok(_) => m2.require_complete(op, o),
        };
        let (m4, outcome) = match complete {
            Err(error) => (m3, Err(error)),
            Ok(_) => m3.driver_error(op, o),
        };
        (
            m4.call(
                GlCall::BindFramebuffer { target: gl_const::FRAMEBUFFER, framebuffer: None },
            ),
            outcome,
        )
    }

    pub open spec fn create_framebuffer(self, descriptor: FramebufferModel, o: Seq<GlStep>) -> (
        Provider,
        Result<FramebufferId, GlError>,
    ) {
        let op = "create-framebuffer";
        match self.ready(op) {
            Err(error) => (self, Err(error)),
            Ok(_) => match self.validate_all(op, descriptor) {
                Err(error) => (self, Err(error)),
                Ok(_) => if !framebuffer_is_valid(
                    descriptor,
                    self.limits.max_color_attachments,
                    self.limits.max_draw_buffers,
                ) {
                    (self, Err(provider::invalid(op, "invalid framebuffer descriptor")))
                } else if !views_are_proved(descriptor, self.limits.max_multiview_view_count) {
                    (self, Err(provider::invalid(op, "multiview view count is not proved")))
                } else {
                    let reply = self.next(o)->CreateFramebuffer_reply;
                    let m = self.asked(GlStep::CreateFramebuffer { reply });
                    match reply {
                        Err(message) => (m, Err(GlError::Driver { operation: op, message })),
                        Ok(raw) => {
                            let (m, outcome) = m.fill_framebuffer(op, raw, descriptor, o);
                            match outcome {
                                Err(error) => (
                                    m.call(GlCall::DeleteFramebuffer { framebuffer: raw }),
                                    Err(error),
                                ),
                                Ok(_) => {
                                    let (m, slot) = m.slot(op);
                                    match slot {
                                        Err(error) => (
                                            m.call(GlCall::DeleteFramebuffer { framebuffer: raw }),
                                            Err(error),
                                        ),
                                        Ok(slot) => (
                                            Provider {
                                                framebuffers: m.framebuffers.insert(
                                                    slot as u64,
                                                    FramebufferRecord {
                                                        generation: 0,
                                                        raw,
                                                        descriptor,
                                                    },
                                                ),
                                                ..m
                                            },
                                            Ok(
                                                FramebufferId {
                                                    stamp: m.stamp,
                                                    slot,
                                                    generation: 0,
                                                },
                                            ),
                                        ),
                                    }
                                },
                            }
                        },
                    }
                },
            },
        }
    }

    pub open spec fn destroy_framebuffer(self, framebuffer: FramebufferId, o: Seq<GlStep>) -> (
        Provider,
        Result<(), GlError>,
    ) {
        let op = "destroy-framebuffer";
        match self.ready(op) {
            Err(error) => (self, Err(error)),
            Ok(_) => match self.framebuffer(op, framebuffer) {
                Err(error) => (self, Err(error)),
                Ok(entry) => Provider {
                    framebuffers: self.framebuffers.remove(framebuffer.slot as u64),
                    ..self
                }.call(GlCall::DeleteFramebuffer { framebuffer: entry.raw }).driver_error(op, o),
            },
        }
    }

    /// The framebuffer and the shape that a pass renders to.
    pub open spec fn pass_target(self, op: &'static str, target: GlRenderTarget) -> Result<
        (Option<FramebufferRecord>, (u32, u32, u32)),
        GlError,
    > {
        match target {
            GlRenderTarget::Offscreen(framebuffer) => match self.framebuffer(op, framebuffer) {
                Err(error) => Err(error),
                Ok(entry) => Ok((Some(entry), shape_of(entry.descriptor))),
            },
            GlRenderTarget::Default(target) => if target.width == 0 || target.height == 0
                || target.sample_count == 0 {
                Err(provider::invalid(op, "default framebuffer has an empty shape"))
            } else {
                Ok((None, (target.width, target.height, target.sample_count)))
            },
        }
    }

    /// Whether the color attachments of a pass are those of their storage.
    pub open spec fn validate_colors(
        self,
        op: &'static str,
        colors: Seq<GlColorAttachment>,
    ) -> Result<(), GlError>
        decreases colors.len(),
    {
        if colors.len() == 0 {
            Ok(())
        } else {
            let own = match colors[0].view {
                GlPassAttachmentView::Allocated(view) => self.validate_attachment(op, view),
                GlPassAttachmentView::DefaultColor(_) => Ok(()),
            };
            match own {
                Err(error) => Err(error),
                Ok(_) => {
                    let resolve = match colors[0].resolve_target {
                        Some(view) => self.validate_attachment(op, view),
                        None => Ok(()),
                    };
                    match resolve {
                        Err(error) => Err(error),
                        Ok(_) => self.validate_colors(op, colors.skip(1)),
                    }
                },
            }
        }
    }

    /// Whether all attachments of a pass are those of their storage.
    pub open spec fn validate_pass(self, op: &'static str, request: PassRequest) -> Result<
        (),
        GlError,
    > {
        match self.validate_colors(op, request.colors) {
            Err(error) => Err(error),
            Ok(_) => match request.depth_stencil {
                None => Ok(()),
                Some(attachment) => match self.validate_attachment(op, attachment.view) {
                    Err(error) => Err(error),
                    Ok(_) => if attachment.stencil_load is Clear && !provider::stencil_plane(
                        attachment.view.format,
                    ) {
                        Err(provider::invalid(op, "attachment has no stencil plane to clear"))
                    } else {
                        Ok(())
                    },
                },
            },
        }
    }

    /// Clears the color attachments from a position on.
    pub open spec fn clear_colors(self, colors: Seq<GlColorAttachment>, index: nat) -> Provider
        decreases colors.len() - index,
    {
        if index >= colors.len() {
            self
        } else {
            let attachment = colors[index as int];
            (if attachment.load is Clear {
                self.call(GlCall::ClearColor { index: index as u32, color: attachment.clear })
            } else {
                self
            }).clear_colors(colors, index + 1)
        }
    }

    /// Clears depth and stencil as a pass asks for.
    pub open spec fn clear_depth_stencil(self, attachment: GlDepthStencilAttachment) -> Provider {
        let depth = attachment.depth_load is Clear;
        let stencil = attachment.stencil_load is Clear && provider::stencil_plane(
            attachment.view.format,
        );
        if depth && stencil {
            self.call(
                GlCall::ClearDepthStencil {
                    depth: attachment.clear.depth,
                    stencil: attachment.clear.stencil as i32,
                },
            )
        } else if depth {
            self.call(GlCall::ClearDepth { depth: attachment.clear.depth })
        } else if stencil {
            self.call(GlCall::ClearStencil { stencil: attachment.clear.stencil })
        } else {
            self
        }
    }

    /// Opens a pass on what it renders to.
    pub open spec fn open_pass(
        self,
        request: PassRequest,
        record: Option<FramebufferRecord>,
    ) -> Provider {
        let m1 = self.call(
            GlCall::BindFramebuffer {
                target: gl_const::FRAMEBUFFER,
                framebuffer: match record {
                    Some(record) => Some(record.raw),
                    None => None,
                },
            },
        );
        let m2 = if record is Some && record->0.descriptor.draw_buffers.len() > 0 {
            m1.asked(
                GlStep::DrawBuffers { buffers: draw_tokens(record->0.descriptor.draw_buffers) },
            )
        } else {
            m1
        };
        let m3 = m2.call(GlCall::Disable { capability: gl_const::SCISSOR_TEST }).clear_colors(
            request.colors,
            0,
        );
        match request.depth_stencil {
            Some(attachment) => m3.clear_depth_stencil(attachment),
            None => m3,
        }
    }

    pub open spec fn begin_render_pass(self, request: PassRequest, o: Seq<GlStep>) -> (
        Provider,
        Result<(), GlError>,
    ) {
        let op = "begin-render-pass";
        match self.ready(op) {
            Err(error) => (self, Err(error)),
            Ok(_) => if self.pass is Some {
                (self, Err(provider::invalid(op, "render pass already active")))
            } else {
                match self.pass_target(op, request.target) {
                    Err(error) => (self, Err(error)),
                    Ok((record, shape)) => if !pass_is_valid(
                        request,
                        match record {
                            Some(record) => Some(record.descriptor),
                            None => None,
                        },
                        self.limits.max_color_attachments,
                    ) {
                        (
                            self,
                            Err(
                                provider::invalid(
                                    op,
                                    "render pass does not match its framebuffer descriptor",
                                ),
                            ),
                        )
                    } else if !pass_views_are_proved(
                        request,
                        self.limits.max_multiview_view_count,
                    ) {
                        (self, Err(provider::invalid(op, "multiview view count is not proved")))
                    } else {
                        match self.validate_pass(op, request) {
                            Err(error) => (self, Err(error)),
                            Ok(_) => {
                                let (m, outcome) = self.open_pass(request, record).driver_error(
                                    op,
                                    o,
                                );
                                match outcome {
                                    Err(error) => (
                                        m.call(
                                            GlCall::BindFramebuffer {
                                                target: gl_const::FRAMEBUFFER,
                                                framebuffer: None,
                                            },
                                        ),
                                        Err(error),
                                    ),
                                    Ok(_) => (
                                        Provider {
                                            pass: Some(
                                                PassModel {
                                                    target: request.target,
                                                    width: shape.0,
                                                    height: shape.1,
                                                    samples: shape.2,
                                                    discard_color: discards(request.colors),
                                                    discard_depth_stencil: match request.depth_stencil {
                                                        Some(attachment) => Some(
                                                            attachment.depth_store is Discard,
                                                        ),
                                                        None => None,
                                                    },
                                                },
                                            ),
                                            ..m
                                        },
                                        Ok(()),
                                    ),
                                }
                            },
                        }
                    },
                }
            },
        }
    }

    pub open spec fn end_render_pass(self, o: Seq<GlStep>) -> (Provider, Result<(), GlError>) {
        let op = "end-render-pass";
        match self.ready(op) {
            Err(error) => (self, Err(error)),
            Ok(_) => match self.pass {
                None => (self, Err(provider::invalid(op, "no active render pass"))),
                Some(pass) => {
                    let m1 = Provider { pass: None, raster: None, ..self };
                    let raw = match pass.target {
                        GlRenderTarget::Offscreen(framebuffer) => match m1.framebuffer(
                            op,
                            framebuffer,
                        ) {
                            Ok(entry) => Ok(Some(entry.raw)),
                            Err(error) => Err(error),
                        },
                        GlRenderTarget::Default(_) => Ok(None),
                    };
                    match raw {
                        Err(error) => (m1, Err(error)),
                        Ok(raw) => {
                            let m2 = m1.call(
                                GlCall::BindFramebuffer {
                                    target: gl_const::FRAMEBUFFER,
                                    framebuffer: raw,
                                },
                            );
                            let list = invalidated(pass);
                            let (m3, outcome) = if list.len() == 0 || !can_invalidate(
                                self.profile,
                            ) {
                                (m2, Ok(()))
                            } else {
                                m2.asked(
                                    GlStep::Invalidate {
                                        target: gl_const::FRAMEBUFFER,
                                        attachments: list,
                                    },
                                ).driver_error(op, o)
                            };
                            (
                                m3.call(
                                    GlCall::BindFramebuffer {
                                        target: gl_const::FRAMEBUFFER,
                                        framebuffer: None,
                                    },
                                ),
                                outcome,
                            )
                        },
                    }
                },
            },
        }
    }

    /// Why a blit is refused, or the objects that it works on.
    pub open spec fn blit_objects(
        self,
        source: FramebufferId,
        destination: FramebufferId,
        region: GlBlitRegion,
        filter: GlFilterMode,
        masks: GlBlitMask,
    ) -> Result<(u32, u32), GlError> {
        let op = "blit-framebuffer";
        if source == destination {
            Err(provider::invalid(op, "blit source and destination are identical"))
        } else if !masks.color && !masks.depth && !masks.stencil {
            Err(provider::invalid(op, "blit selects no color/depth/stencil plane"))
        } else if region.src_extent.x == 0 || region.src_extent.y == 0 || region.dst_extent.x == 0
            || region.dst_extent.y == 0 {
            Err(provider::invalid(op, "invalid blit region"))
        } else {
            match self.framebuffer(op, source) {
                Err(error) => Err(error),
                Ok(from) => match self.framebuffer(op, destination) {
                    Err(error) => Err(error),
                    Ok(to) => {
                        let a = shape_of(from.descriptor);
                        let b = shape_of(to.descriptor);
                        if !is_within(region.src_offset, region.src_extent, a) {
                            Err(provider::invalid(op, "blit source leaves its framebuffer"))
                        } else if !is_within(region.dst_offset, region.dst_extent, b) {
                            Err(provider::invalid(op, "blit destination leaves its framebuffer"))
                        } else if !(filter is Nearest) && (a.2 > 1 || b.2 > 1) {
                            Err(
                                provider::invalid(
                                    op,
                                    "multisampled blit targets only accept nearest filtering",
                                ),
                            )
                        } else if (masks.depth || masks.stencil) && (!(filter is Nearest)
                            || region.src_extent != region.dst_extent) {
                            Err(
                                provider::invalid(
                                    op,
                                    "depth/stencil blits require nearest filtering and identical extents",
                                ),
                            )
                        } else {
                            Ok((from.raw, to.raw))
                        }
                    },
                },
            }
        }
    }

    pub open spec fn blit_framebuffer(
        self,
        source: FramebufferId,
        destination: FramebufferId,
        region: GlBlitRegion,
        filter: GlFilterMode,
        masks: GlBlitMask,
        o: Seq<GlStep>,
    ) -> (Provider, Result<(), GlError>) {
        let op = "blit-framebuffer";
        match self.ready(op) {
            Err(error) => (self, Err(error)),
            Ok(_) => match self.blit_objects(source, destination, region, filter, masks) {
                Err(error) => (self, Err(error)),
                Ok((from, to)) => {
                    let m1 = self.call(
                        GlCall::BindFramebuffer {
                            target: gl_const::READ_FRAMEBUFFER,
                            framebuffer: Some(from),
                        },
                    );
                    let m2 = m1.call(
                        GlCall::BindFramebuffer {
                            target: gl_const::DRAW_FRAMEBUFFER,
                            framebuffer: Some(to),
                        },
                    );
                    let m3 = m2.call(
                        GlCall::BlitFramebuffer {
                            source: corners(region.src_offset, region.src_extent),
                            destination: corners(region.dst_offset, region.dst_extent),
                            mask: mask_bits(masks),
                            filter: filter_token(filter),
                        },
                    );
                    let (m4, outcome) = m3.driver_error(op, o);
                    let m5 = m4.call(
                        GlCall::BindFramebuffer {
                            target: gl_const::READ_FRAMEBUFFER,
                            framebuffer: None,
                        },
                    );
                    (
                        m5.call(
                            GlCall::BindFramebuffer {
                                target: gl_const::DRAW_FRAMEBUFFER,
                                framebuffer: None,
                            },
                        ),
                        outcome,
                    )
                },
            },
        }
    }
}

/// The command that leaves nothing bound.
pub open spec fn unbinds(step: GlStep) -> bool {
    step == GlStep::Call {
        call: GlCall::BindFramebuffer { target: gl_const::FRAMEBUFFER, framebuffer: None },
    }
}

/// A pass that was opened is open, and closing it leaves none open, nothing
/// bound and no pipeline installed, whatever the driver says.
pub proof fn passes_are_closed(context: Provider, request: PassRequest, o: Seq<GlStep>)
    ensures
        ({
            let (begun, result) = context.begin_render_pass(request, o);
            &&& result is Ok ==> begun.pass is Some && begun.pass->0.target == request.target
            &&& result is Err && context.pass is None ==> begun.pass is None
        }),
        ({
            let (ended, result) = context.end_render_pass(o);
            &&& context.ready("end-render-pass") is Ok ==> ended.pass is None
            &&& context.ready("end-render-pass") is Ok && context.pass is Some
                ==> ended.raster is None
            &&& result is Ok ==> unbinds(ended.log.last())
        }),
{
    clears_only_ask(context, request, None);
    match context.pass_target("begin-render-pass", request.target) {
        Ok((record, _)) => {
            clears_only_ask(context, request, record);
        },
        Err(_) => {},
    }
}

proof fn lemma_clears(context: Provider, colors: Seq<GlColorAttachment>, index: nat)
    ensures
        ({
            let after = context.clear_colors(colors, index);
            after == (Provider { log: after.log, ..context })
        }),
    decreases colors.len() - index,
{
    if index < colors.len() {
        let attachment = colors[index as int];
        let next = if attachment.load is Clear {
            context.call(GlCall::ClearColor { index: index as u32, color: attachment.clear })
        } else {
            context
        };
        lemma_clears(next, colors, index + 1);
    }
}

proof fn clears_only_ask(
    context: Provider,
    request: PassRequest,
    record: Option<FramebufferRecord>,
)
    ensures
        ({
            let after = context.open_pass(request, record);
            after == (Provider { log: after.log, ..context })
        }),
{
    let m1 = context.call(
        GlCall::BindFramebuffer {
            target: gl_const::FRAMEBUFFER,
            framebuffer: match record {
                Some(record) => Some(record.raw),
                None => None,
            },
        },
    );
    let m2 = if record is Some && record->0.descriptor.draw_buffers.len() > 0 {
        m1.asked(
            GlStep::DrawBuffers { buffers: draw_tokens(record->0.descriptor.draw_buffers) },
        )
    } else {
        m1
    };
    lemma_clears(
        m2.call(GlCall::Disable { capability: gl_const::SCISSOR_TEST }),
        request.colors,
        0,
    );
}

/// A framebuffer that could not be filled is deleted, and is not kept.
pub proof fn failed_framebuffers_are_deleted(
    context: Provider,
    descriptor: FramebufferModel,
    raw: u32,
    o: Seq<GlStep>,
)
    requires
        context.next(o) == (GlStep::CreateFramebuffer { reply: Ok(raw) }),
        context.log.len() < context.create_framebuffer(descriptor, o).0.log.len(),
        context.asked(GlStep::CreateFramebuffer { reply: Ok(raw) }).fill_framebuffer(
            "create-framebuffer",
            raw,
            descriptor,
            o,
        ).1 is Err,
    ensures
        ({
            let (after, result) = context.create_framebuffer(descriptor, o);
            &&& result is Err
            &&& after.log.last() == (GlStep::Call {
                call: GlCall::DeleteFramebuffer { framebuffer: raw },
            })
        }),
{
}

impl<G: GlCalls> NativeGlProvider<G> {
    fn renders(&self, kind: GlFormatResourceKind, view: &GlTextureView) -> (result: bool)
        requires
            self.wf(),
        ensures
            result == self@.renders(kind, *view),
    {
        match self.formats.get_for(kind, view.format, view.sample_count) {
            Some(row) => row.renderable,
            None => false,
        }
    }

    /// Whether a view is one of the storage that it names.
    pub fn validate_attachment(&self, op: &'static str, view: GlTextureView) -> (result: Result<
        (),
        GlError,
    >)
        requires
            self.wf(),
        ensures
            result == self@.validate_attachment(op, view),
    {
        match view.target {
            GlAttachmentTarget::Texture(texture) => {
                let entry = match self.texture(op, texture) {
                    Ok(value) => value,
                    Err(error) => {
                        return Err(error);
                    },
                };
                if entry.desc.format != view.format {
                    return Err(
                        validation(op, "attachment view format does not match the allocation"),
                    );
                }
                let mip = match entry.desc.mip_extent(view.mip_level) {
                    Some(mip) => mip,
                    None => {
                        return Err(validation(op, "attachment mip level is invalid"));
                    },
                };
                if view.width != mip.width || view.height != mip.height {
                    return Err(
                        validation(
                            op,
                            "attachment view extent does not match the allocation extent",
                        ),
                    );
                }
                if view.array_layer != 0 || entry.desc.dimension != GlTextureDimension::D2 {
                    return Err(
                        GlError::Unsupported {
                            operation: op,
                            reason: "layered attachments are not part of this framebuffer slice",
                        },
                    );
                }
                if entry.desc.sample_count != view.sample_count {
                    return Err(
                        validation(op, "attachment sample count does not match the allocation"),
                    );
                }
                if !self.renders(GlFormatResourceKind::Texture, &view) {
                    return Err(
                        GlError::Unsupported {
                            operation: op,
                            reason: "attachment format lacks renderable evidence on this context",
                        },
                    );
                }
                Ok(())
            },
            GlAttachmentTarget::Renderbuffer(renderbuffer) => {
                let entry = match self.renderbuffer(op, renderbuffer) {
                    Ok(value) => value,
                    Err(error) => {
                        return Err(error);
                    },
                };
                if entry.desc.format != view.format {
                    return Err(
                        validation(op, "attachment view format does not match the allocation"),
                    );
                }
                if view.mip_level != 0 {
                    return Err(validation(op, "attachment mip level is invalid"));
                }
                if view.width != entry.desc.width || view.height != entry.desc.height {
                    return Err(
                        validation(
                            op,
                            "attachment view extent does not match the allocation extent",
                        ),
                    );
                }
                if view.array_layer != 0 || view.layer_count != 1 {
                    return Err(
                        GlError::Unsupported {
                            operation: op,
                            reason: "layered attachments are not part of this framebuffer slice",
                        },
                    );
                }
                if entry.desc.samples != view.sample_count {
                    return Err(
                        validation(op, "attachment sample count does not match the allocation"),
                    );
                }
                if !self.renders(GlFormatResourceKind::Renderbuffer, &view) {
                    return Err(
                        GlError::Unsupported {
                            operation: op,
                            reason: "attachment format lacks renderable evidence on this context",
                        },
                    );
                }
                Ok(())
            },
        }
    }

    fn validate_all(&self, op: &'static str, descriptor: &GlFramebufferDescriptor) -> (result:
        Result<(), GlError>)
        requires
            self.wf(),
        ensures
            result == self@.validate_all(op, descriptor@),
    {
        let views = &descriptor.color_attachments;
        let mut at: usize = 0;
        assert(views@.skip(0) =~= views@);
        while at < views.len()
            invariant
                at <= views@.len(),
                self.wf(),
                self@.validate_views(op, views@) == self@.validate_views(op, views@.skip(at as int)),
                views@ == descriptor@.colors,
            decreases views@.len() - at,
        {
            assert(views@.skip(at as int).skip(1) =~= views@.skip(at + 1));
            match self.validate_attachment(op, views[at]) {
                Ok(()) => {},
                Err(error) => {
                    return Err(error);
                },
            }
            at += 1;
        }
        match descriptor.depth_stencil_attachment {
            Some(view) => self.validate_attachment(op, view),
            None => Ok(()),
        }
    }

    /// Attaches one view at one point of the bound framebuffer.
    pub fn attach_one(&mut self, op: &'static str, point: u32, view: GlTextureView) -> (result:
        Result<(), GlError>)
        requires
            old(self).wf(),
        ensures
            final(self).wf(),
            call::grows(old(self)@.log, final(self)@.log),
            (final(self)@, result) == old(self)@.attach_one(op, point, view),
    {
        match view.target {
            GlAttachmentTarget::Texture(texture) => {
                let entry = match self.texture(op, texture) {
                    Ok(value) => value,
                    Err(error) => {
                        return Err(error);
                    },
                };
                let level: i32 = view.mip_level as i32;
                self.link.call(
                    GlCall::FramebufferTexture2d {
                        target: gl_const::FRAMEBUFFER,
                        attachment: point,
                        texture_target: attachment_target(entry.desc.sample_count),
                        texture: entry.raw,
                        level,
                    },
                );
                Ok(())
            },
            GlAttachmentTarget::Renderbuffer(renderbuffer) => {
                let entry = match self.renderbuffer(op, renderbuffer) {
                    Ok(value) => value,
                    Err(error) => {
                        return Err(error);
                    },
                };
                self.link.call(
                    GlCall::FramebufferRenderbuffer {
                        target: gl_const::FRAMEBUFFER,
                        attachment: point,
                        renderbuffer_target: gl_const::RENDERBUFFER,
                        renderbuffer: entry.raw,
                    },
                );
                Ok(())
            },
        }
    }

    /// Attaches all views to a new framebuffer.
    pub fn attach_all(
        &mut self,
        op: &'static str,
        raw: u32,
        descriptor: &GlFramebufferDescriptor,
    ) -> (result: Result<(), GlError>)
        requires
            old(self).wf(),
        ensures
            final(self).wf(),
            call::grows(old(self)@.log, final(self)@.log),
            (final(self)@, result) == old(self)@.attach_all(op, raw, descriptor@),
    {
        self.link.call(
            GlCall::BindFramebuffer { target: gl_const::FRAMEBUFFER, framebuffer: Some(raw) },
        );
        let ghost bound = self@;
        let mut at: usize = 0;
        while at < descriptor.color_attachments.len()
            invariant
                at <= descriptor.color_attachments@.len(),
                self.wf(),
                call::grows(old(self)@.log, self@.log),
                bound == old(self)@.call(
                    GlCall::BindFramebuffer {
                        target: gl_const::FRAMEBUFFER,
                        framebuffer: Some(raw),
                    },
                ),
                bound.attach_colors(op, descriptor@.colors, 0) == self@.attach_colors(
                    op,
                    descriptor@.colors,
                    at as nat,
                ),
            decreases descriptor.color_attachments@.len() - at,
        {
            let view = descriptor.color_attachments[at];
            match self.attach_one(op, draw_buffer_constant(at as u32), view) {
                Ok(()) => {},
                Err(error) => {
                    return Err(error);
                },
            }
            at += 1;
        }
        match descriptor.depth_stencil_attachment {
            None => Ok(()),
            Some(view) => match depth_attachment_point(view.format) {
                None => Err(validation(op, "depth attachment format has no attachment point")),
                Some(point) => self.attach_one(op, point, view),
            },
        }
    }

    fn require_complete(&mut self, op: &'static str) -> (result: Result<(), GlError>)
        requires
            old(self).wf(),
        ensures
            final(self).wf(),
            call::grows(old(self)@.log, final(self)@.log),
            forall|o: Seq<GlStep>|
                call::grows(final(self)@.log, o) ==> #[trigger] old(self)@.require_complete(op, o) == (
                    final(self)@,
                    result,
                ),
    {
        let status = self.link.check_framebuffer_status(gl_const::FRAMEBUFFER);
        if status == gl_const::FRAMEBUFFER_COMPLETE {
            Ok(())
        } else {
            Err(validation(op, "framebuffer is incomplete"))
        }
    }

    fn fill_framebuffer(
        &mut self,
        op: &'static str,
        raw: u32,
        descriptor: &GlFramebufferDescriptor,
    ) -> (result: Result<(), GlError>)
        requires
            old(self).wf(),
        ensures
            final(self).wf(),
            call::grows(old(self)@.log, final(self)@.log),
            forall|o: Seq<GlStep>|
                call::grows(final(self)@.log, o) ==> #[trigger] old(self)@.fill_framebuffer(op, raw, descriptor@, o) == (
                    final(self)@,
                    result,
                ),
    {
        let attached = self.attach_all(op, raw, descriptor);
        if descriptor.color_attachments.len() == 0 {
            let mut nothing: Vec<u32> = Vec::new();
            nothing.push(gl_const::NO_BUFFER);
            assert(nothing@ =~= seq![gl_const::NO_BUFFER]);
            self.link.draw_buffers(&nothing);
        } else if descriptor.draw_buffers.len() > 0 {
            let constants = draw_constants(&descriptor.draw_buffers);
            self.link.draw_buffers(&constants);
        }
        let complete = match attached {
            Ok(()) => self.require_complete(op),
            Err(error) => Err(error),
        };
        let outcome = match complete {
            Ok(()) => self.driver_error(op),
            Err(error) => Err(error),
        };
        self.link.call(
            GlCall::BindFramebuffer { target: gl_const::FRAMEBUFFER, framebuffer: None },
        );
        outcome
    }

    /// Makes a framebuffer.
    pub fn create_framebuffer(&mut self, descriptor: &GlFramebufferDescriptor) -> (result: Result<
        FramebufferId,
        GlError,
    >)
        requires
            old(self).wf(),
        ensures
            final(self).wf(),
            call::grows(old(self)@.log, final(self)@.log),
            forall|o: Seq<GlStep>|
                call::grows(final(self)@.log, o) ==> #[trigger] old(self)@.create_framebuffer(descriptor@, o) == (
                    final(self)@,
                    result,
                ),
    {
        let op = "create-framebuffer";
        match self.assert_ready(op) {
            Ok(()) => {},
            Err(error) => {
                return Err(error);
            },
        }
        match self.validate_all(op, descriptor) {
            Ok(()) => {},
            Err(error) => {
                return Err(error);
            },
        }
        if !validate_framebuffer(
            descriptor,
            self.limits.max_color_attachments,
            self.limits.max_draw_buffers,
        ) {
            return Err(validation(op, "invalid framebuffer descriptor"));
        }
        if !validate_multiview(descriptor, self.limits.max_multiview_view_count) {
            return Err(validation(op, "multiview view count is not proved"));
        }
        let raw = match self.link.create_framebuffer() {
            Ok(raw) => raw,
            Err(message) => {
                return Err(GlError::Driver { operation: op, message });
            },
        };
        if let Err(error) = self.fill_framebuffer(op, raw, descriptor) {
            self.link.call(GlCall::DeleteFramebuffer { framebuffer: raw });
            return Err(error);
        }
        let slot = match self.slot(op) {
            Ok(value) => value,
            Err(error) => {
                self.link.call(GlCall::DeleteFramebuffer { framebuffer: raw });
                return Err(error);
            },
        };
        let id = FramebufferId::new(self.stamp, slot, 0);
        let entry = NativeFramebuffer {
            generation: 0,
            raw,
            descriptor: GlFramebufferDescriptor {
                color_attachments: copy_views(&descriptor.color_attachments),
                depth_stencil_attachment: descriptor.depth_stencil_attachment,
                draw_buffers: copy_indices(&descriptor.draw_buffers),
            },
        };
        assert(entry@ =~= FramebufferRecord { generation: 0, raw, descriptor: descriptor@ });
        self.framebuffers.insert(slot as u64, entry);
        Ok(id)
    }

    /// Destroys a framebuffer.
    pub fn destroy_framebuffer(&mut self, framebuffer: FramebufferId) -> (result: Result<
        (),
        GlError,
    >)
        requires
            old(self).wf(),
        ensures
            final(self).wf(),
            call::grows(old(self)@.log, final(self)@.log),
            forall|o: Seq<GlStep>|
                call::grows(final(self)@.log, o) ==> #[trigger] old(self)@.destroy_framebuffer(framebuffer, o) == (
                    final(self)@,
                    result,
                ),
    {
        let op = "destroy-framebuffer";
        match self.assert_ready(op) {
            Ok(()) => {},
            Err(error) => {
                return Err(error);
            },
        }
        let raw = match self.framebuffer(op, framebuffer) {
            Ok(entry) => entry.raw,
            Err(error) => {
                return Err(error);
            },
        };
        let _ = self.framebuffers.remove(framebuffer.slot as u64);
        self.link.call(GlCall::DeleteFramebuffer { framebuffer: raw });
        self.driver_error(op)
    }

    fn validate_colors(&self, op: &'static str, colors: &Vec<GlColorAttachment>) -> (result: Result<
        (),
        GlError,
    >)
        requires
            self.wf(),
        ensures
            result == self@.validate_colors(op, colors@),
    {
        let mut at: usize = 0;
        assert(colors@.skip(0) =~= colors@);
        while at < colors.len()
            invariant
                at <= colors@.len(),
                self.wf(),
                self@.validate_colors(op, colors@) == self@.validate_colors(
                    op,
                    colors@.skip(at as int),
                ),
            decreases colors@.len() - at,
        {
            assert(colors@.skip(at as int).skip(1) =~= colors@.skip(at + 1));
            let attachment = colors[at];
            if let GlPassAttachmentView::Allocated(view) = attachment.view {
                match self.validate_attachment(op, view) {
                    Ok(()) => {},
                    Err(error) => {
                        return Err(error);
                    },
                }
            }
            if let Some(view) = attachment.resolve_target {
                match self.validate_attachment(op, view) {
                    Ok(()) => {},
                    Err(error) => {
                        return Err(error);
                    },
                }
            }
            at += 1;
        }
        Ok(())
    }

    fn validate_pass(&self, op: &'static str, descriptor: &GlRenderPassDescriptor) -> (result:
        Result<(), GlError>)
        requires
            self.wf(),
        ensures
            result == self@.validate_pass(op, request_of(*descriptor)),
    {
        match self.validate_colors(op, &descriptor.color_attachments) {
            Ok(()) => {},
            Err(error) => {
                return Err(error);
            },
        }
        match &descriptor.depth_stencil_attachment {
            None => Ok(()),
            Some(attachment) => {
                match self.validate_attachment(op, attachment.view) {
                    Ok(()) => {},
                    Err(error) => {
                        return Err(error);
                    },
                }
                if attachment.stencil_load == GlLoadOp::Clear && !has_stencil_plane(
                    attachment.view.format,
                ) {
                    return Err(validation(op, "attachment has no stencil plane to clear"));
                }
                Ok(())
            },
        }
    }

    fn matches_target(&self, op: &'static str, descriptor: &GlRenderPassDescriptor) -> (result:
        Result<(bool, Option<u32>, Vec<u32>, (u32, u32, u32)), GlError>)
        requires
            self.wf(),
        ensures
            match self@.pass_target(op, descriptor.target) {
                Err(error) => result == Err::<
                    (bool, Option<u32>, Vec<u32>, (u32, u32, u32)),
                    _,
                >(error),
                Ok((record, shape)) => {
                    &&& result is Ok
                    &&& result->Ok_0.0 == pass_is_valid(
                        request_of(*descriptor),
                        match record {
                            Some(record) => Some(record.descriptor),
                            None => None,
                        },
                        self@.limits.max_color_attachments,
                    )
                    &&& result->Ok_0.1 == match record {
                        Some(record) => Some(record.raw),
                        None => None,
                    }
                    &&& result->Ok_0.2@ == match record {
                        Some(record) => record.descriptor.draw_buffers,
                        None => Seq::empty(),
                    }
                    &&& result->Ok_0.3 == shape
                },
            },
    {
        let few = descriptor.color_attachments.len() as u64
            <= self.limits.max_color_attachments as u64;
        match descriptor.target {
            GlRenderTarget::Offscreen(framebuffer) => match self.framebuffer(op, framebuffer) {
                Err(error) => Err(error),
                Ok(entry) => {
                    let matching = few && offscreen_matches(descriptor, &entry.descriptor);
                    Ok(
                        (
                            matching,
                            Some(entry.raw),
                            copy_indices(&entry.descriptor.draw_buffers),
                            framebuffer_shape(&entry.descriptor),
                        ),
                    )
                },
            },
            GlRenderTarget::Default(target) => {
                if target.width == 0 || target.height == 0 || target.sample_count == 0 {
                    return Err(validation(op, "default framebuffer has an empty shape"));
                }
                let matching = few && default_matches(descriptor);
                let nothing: Vec<u32> = Vec::new();
                assert(nothing@ =~= Seq::<u32>::empty());
                Ok(
                    (matching, None, nothing, (target.width, target.height, target.sample_count)),
                )
            },
        }
    }

    fn open_pass(
        &mut self,
        descriptor: &GlRenderPassDescriptor,
        raw: Option<u32>,
        draw_buffers: &Vec<u32>,
        record: Ghost<Option<FramebufferRecord>>,
    )
        requires
            old(self).wf(),
            raw == (match record@ {
                Some(record) => Some(record.raw),
                None => None,
            }),
            draw_buffers@ == (match record@ {
                Some(record) => record.descriptor.draw_buffers,
                None => Seq::empty(),
            }),
        ensures
            final(self).wf(),
            call::grows(old(self)@.log, final(self)@.log),
            final(self)@ == old(self)@.open_pass(request_of(*descriptor), record@),
    {
        self.link.call(
            GlCall::BindFramebuffer { target: gl_const::FRAMEBUFFER, framebuffer: raw },
        );
        if draw_buffers.len() > 0 {
            let constants = draw_constants(draw_buffers);
            self.link.draw_buffers(&constants);
        }
        self.link.call(GlCall::Disable { capability: gl_const::SCISSOR_TEST });
        let ghost start = self@;
        let mut at: usize = 0;
        while at < descriptor.color_attachments.len()
            invariant
                at <= descriptor.color_attachments@.len(),
                self.wf(),
                call::grows(start.log, self@.log),
                start.clear_colors(descriptor.color_attachments@, 0) == self@.clear_colors(
                    descriptor.color_attachments@,
                    at as nat,
                ),
            decreases descriptor.color_attachments@.len() - at,
        {
            let attachment = descriptor.color_attachments[at];
            if attachment.load == GlLoadOp::Clear {
                self.link.call(
                    GlCall::ClearColor { index: at as u32, color: attachment.clear },
                );
            }
            at += 1;
        }
        if let Some(attachment) = &descriptor.depth_stencil_attachment {
            let depth = attachment.depth_load == GlLoadOp::Clear;
            let stencil = attachment.stencil_load == GlLoadOp::Clear && has_stencil_plane(
                attachment.view.format,
            );
            if depth && stencil {
                let value: i32 = attachment.clear.stencil as i32;
                self.link.call(
                    GlCall::ClearDepthStencil { depth: attachment.clear.depth, stencil: value },
                );
            } else if depth {
                self.link.call(GlCall::ClearDepth { depth: attachment.clear.depth });
            } else if stencil {
                self.link.call(GlCall::ClearStencil { stencil: attachment.clear.stencil });
            }
        }
    }

    /// Begins a pass: binds its framebuffer and clears what it asks for.
    pub fn begin_render_pass(&mut self, descriptor: &GlRenderPassDescriptor) -> (result: Result<
        (),
        GlError,
    >)
        requires
            old(self).wf(),
        ensures
            final(self).wf(),
            call::grows(old(self)@.log, final(self)@.log),
            forall|o: Seq<GlStep>|
                call::grows(final(self)@.log, o) ==> #[trigger] old(self)@.begin_render_pass(request_of(*descriptor), o) == (
                    final(self)@,
                    result,
                ),
    {
        let op = "begin-render-pass";
        match self.assert_ready(op) {
            Ok(()) => {},
            Err(error) => {
                return Err(error);
            },
        }
        if self.pass.is_some() {
            return Err(validation(op, "render pass already active"));
        }
        let ghost record = match self@.pass_target(op, descriptor.target) {
            Ok((record, _)) => record,
            Err(_) => None,
        };
        let (matching, raw, draw_buffers, shape) = match self.matches_target(op, descriptor) {
            Ok(value) => value,
            Err(error) => {
                return Err(error);
            },
        };
        if !matching {
            return Err(validation(op, "render pass does not match its framebuffer descriptor"));
        }
        if !validate_pass_multiview(descriptor, self.limits.max_multiview_view_count) {
            return Err(validation(op, "multiview view count is not proved"));
        }
        match self.validate_pass(op, descriptor) {
            Ok(()) => {},
            Err(error) => {
                return Err(error);
            },
        }
        let discard_color = discard_flags(&descriptor.color_attachments);
        let discard_depth_stencil = match &descriptor.depth_stencil_attachment {
            Some(attachment) => Some(attachment.depth_store == GlStoreOp::Discard),
            None => None,
        };
        self.open_pass(descriptor, raw, &draw_buffers, Ghost(record));
        if let Err(error) = self.driver_error(op) {
            self.link.call(
                GlCall::BindFramebuffer { target: gl_const::FRAMEBUFFER, framebuffer: None },
            );
            return Err(error);
        }
        self.pass = Some(
            ActivePass {
                target: descriptor.target,
                width: shape.0,
                height: shape.1,
                samples: shape.2,
                discard_color,
                discard_depth_stencil,
            },
        );
        Ok(())
    }

    /// Ends the open pass. What is not needed any more is given up, where the
    /// context can be told.
    pub fn end_render_pass(&mut self) -> (result: Result<(), GlError>)
        requires
            old(self).wf(),
        ensures
            final(self).wf(),
            call::grows(old(self)@.log, final(self)@.log),
            forall|o: Seq<GlStep>|
                call::grows(final(self)@.log, o) ==> #[trigger] old(self)@.end_render_pass(o) == (
                    final(self)@,
                    result,
                ),
    {
        let op = "end-render-pass";
        match self.assert_ready(op) {
            Ok(()) => {},
            Err(error) => {
                return Err(error);
            },
        }
        let pass = match self.pass.take() {
            Some(pass) => pass,
            None => {
                return Err(validation(op, "no active render pass"));
            },
        };
        self.raster = None;
        let raw = match pass.target {
            GlRenderTarget::Offscreen(framebuffer) => match self.framebuffer(op, framebuffer) {
                Ok(entry) => Some(entry.raw),
                Err(error) => {
                    return Err(error);
                },
            },
            GlRenderTarget::Default(_) => None,
        };
        let list = invalidation(&pass);
        self.link.call(
            GlCall::BindFramebuffer { target: gl_const::FRAMEBUFFER, framebuffer: raw },
        );
        let outcome = if list.len() == 0 || !supports_framebuffer_invalidate(self.profile) {
            Ok(())
        } else {
            self.link.invalidate_framebuffer(gl_const::FRAMEBUFFER, &list);
            self.driver_error(op)
        };
        self.link.call(
            GlCall::BindFramebuffer { target: gl_const::FRAMEBUFFER, framebuffer: None },
        );
        outcome
    }

    fn blit_objects(
        &self,
        source: FramebufferId,
        destination: FramebufferId,
        region: &GlBlitRegion,
        filter: GlFilterMode,
        masks: GlBlitMask,
    ) -> (result: Result<(u32, u32), GlError>)
        requires
            self.wf(),
        ensures
            result == self@.blit_objects(source, destination, *region, filter, masks),
            result is Ok ==> region.src_offset.x + region.src_extent.x <= u32::MAX
                && region.src_offset.y + region.src_extent.y <= u32::MAX && region.dst_offset.x
                + region.dst_extent.x <= u32::MAX && region.dst_offset.y + region.dst_extent.y
                <= u32::MAX,
    {
        let op = "blit-framebuffer";
        if source == destination {
            return Err(validation(op, "blit source and destination are identical"));
        }
        if !masks.color && !masks.depth && !masks.stencil {
            return Err(validation(op, "blit selects no color/depth/stencil plane"));
        }
        if region.src_extent.x == 0 || region.src_extent.y == 0 || region.dst_extent.x == 0
            || region.dst_extent.y == 0 {
            return Err(validation(op, "invalid blit region"));
        }
        let (from, a) = match self.framebuffer(op, source) {
            Ok(entry) => (entry.raw, framebuffer_shape(&entry.descriptor)),
            Err(error) => {
                return Err(error);
            },
        };
        let (to, b) = match self.framebuffer(op, destination) {
            Ok(entry) => (entry.raw, framebuffer_shape(&entry.descriptor)),
            Err(error) => {
                return Err(error);
            },
        };
        if !inside(region.src_offset.x, region.src_extent.x, a.0) || !inside(
            region.src_offset.y,
            region.src_extent.y,
            a.1,
        ) {
            return Err(validation(op, "blit source leaves its framebuffer"));
        }
        if !inside(region.dst_offset.x, region.dst_extent.x, b.0) || !inside(
            region.dst_offset.y,
            region.dst_extent.y,
            b.1,
        ) {
            return Err(validation(op, "blit destination leaves its framebuffer"));
        }
        let nearest = filter == GlFilterMode::Nearest;
        if !nearest && (a.2 > 1 || b.2 > 1) {
            return Err(validation(op, "multisampled blit targets only accept nearest filtering"));
        }
        if (masks.depth || masks.stencil) && (!nearest || region.src_extent != region.dst_extent) {
            return Err(
                validation(
                    op,
                    "depth/stencil blits require nearest filtering and identical extents",
                ),
            );
        }
        Ok((from, to))
    }

    /// Copies a rectangle of one framebuffer to one of another.
    pub fn blit_framebuffer(
        &mut self,
        source: FramebufferId,
        destination: FramebufferId,
        region: GlBlitRegion,
        filter: GlFilterMode,
        masks: GlBlitMask,
    ) -> (result: Result<(), GlError>)
        requires
            old(self).wf(),
        ensures
            final(self).wf(),
            call::grows(old(self)@.log, final(self)@.log),
            forall|o: Seq<GlStep>|
                call::grows(final(self)@.log, o) ==> #[trigger] old(self)@.blit_framebuffer(source, destination, region, filter, masks, o) == (
                    final(self)@,
                    result,
                ),
    {
        let op = "blit-framebuffer";
        match self.assert_ready(op) {
            Ok(()) => {},
            Err(error) => {
                return Err(error);
            },
        }
        let (from, to) = match self.blit_objects(source, destination, &region, filter, masks) {
            Ok(value) => value,
            Err(error) => {
                return Err(error);
            },
        };
        self.link.call(
            GlCall::BindFramebuffer {
                target: gl_const::READ_FRAMEBUFFER,
                framebuffer: Some(from),
            },
        );
        self.link.call(
            GlCall::BindFramebuffer { target: gl_const::DRAW_FRAMEBUFFER, framebuffer: Some(to) },
        );
        self.link.call(
            GlCall::BlitFramebuffer {
                source: corners_of(region.src_offset, region.src_extent),
                destination: corners_of(region.dst_offset, region.dst_extent),
                mask: blit_mask_bits(masks),
                filter: blit_filter(filter),
            },
        );
        let outcome = self.driver_error(op);
        self.link.call(
            GlCall::BindFramebuffer { target: gl_const::READ_FRAMEBUFFER, framebuffer: None },
        );
        self.link.call(
            GlCall::BindFramebuffer { target: gl_const::DRAW_FRAMEBUFFER, framebuffer: None },
        );
        outcome
    }
}

} // verus!
