//! What framebuffers are made of, and what a pass makes of its attachments.

use vstd::prelude::*;
use crate::api::error::Message;
use crate::api::gl::{
    GlAttachmentTarget, GlColorAttachment, GlDepthStencilAttachment, GlFamilyProfile, GlFilterMode,
    GlPassAttachmentView, GlRenderTarget, GlTextureView,
};
use crate::api::identity::FramebufferId;
use crate::native::call::{GlCall, GlStep};
use crate::native::exec_framebuffer;
use crate::native::exec_framebuffer::{GlBlitMask, GlBlitRegion, PassRequest};
use crate::native::link::FramebufferModel;
use crate::native::machine;
use crate::native::machine::{Attached, Machine};
use crate::native::provider;
use crate::native::provider::Provider;

verus! {

/// The framebuffer of a target. The drawable has no name.
pub open spec fn framebuffer_of(context: Provider, target: GlRenderTarget) -> Option<u32> {
    match target {
        GlRenderTarget::Offscreen(id) => Some(context.framebuffers[id.slot as u64].raw),
        GlRenderTarget::Default(_) => None,
    }
}

/// The token of a color attachment.
pub open spec fn color_point(index: int) -> int {
    0x8CE0 + index
}

/// Whether two machines agree on the contents of a color buffer.
pub open spec fn same_color(m: Machine, n: Machine, at: (Option<u32>, u32)) -> bool {
    m.color.contains_key(at) == n.color.contains_key(at) && m.color[at] == n.color[at]
}

proof fn lemma_clears(
    context: Provider,
    colors: Seq<GlColorAttachment>,
    index: nat,
    start: Machine,
)
    requires
        colors.len() <= u32::MAX,
        start.run(context.log).clears_all(),
    ensures
        ({
            let after = context.clear_colors(colors, index);
            let m = start.run(after.log);
            let n = start.run(context.log);
            &&& after == (Provider { log: after.log, ..context })
            &&& m == (Machine { color: m.color, ..n })
            &&& forall|i: int|
                index <= i < colors.len() && (#[trigger] colors[i]).load is Clear
                    ==> m.color.contains_key((n.drawn->0, i as u32)) && m.color[(
                    n.drawn->0,
                    i as u32,
                )] == colors[i].clear
            &&& forall|at: (Option<u32>, u32)|
                !(at.0 == n.drawn->0 && index <= at.1 < colors.len()
                    && colors[at.1 as int].load is Clear) ==> #[trigger] same_color(m, n, at)
        }),
    decreases colors.len() - index,
{
    broadcast use machine::one_more_step;

    if index < colors.len() {
        let attachment = colors[index as int];
        let n = start.run(context.log);
        let next = if attachment.load is Clear {
            context.call(GlCall::ClearColor { index: index as u32, color: attachment.clear })
        } else {
            context
        };
        let k = start.run(next.log);
        lemma_clears(next, colors, index + 1, start);
        let m = start.run(context.clear_colors(colors, index).log);
        assert(next.clear_colors(colors, index + 1) == context.clear_colors(colors, index));
        assert(same_color(m, k, (n.drawn->0, index as u32)));
        assert forall|at: (Option<u32>, u32)|
            !(at.0 == n.drawn->0 && index <= at.1 < colors.len()
                && colors[at.1 as int].load is Clear) implies #[trigger] same_color(m, n, at) by {
            assert(same_color(m, k, at));
        }
    }
}

/// Whether depth and stencil have become what an attachment asks for: cleared
/// where it says so, and as they were where it does not.
pub open spec fn depth_is_ready(
    m: Machine,
    n: Machine,
    at: Option<u32>,
    attachment: GlDepthStencilAttachment,
) -> bool {
    &&& attachment.depth_load is Clear ==> m.depth.contains_key(at) && m.depth[at]
        == attachment.clear.depth
    &&& attachment.depth_load is Load ==> m.depth.contains_key(at) == n.depth.contains_key(at)
        && m.depth[at] == n.depth[at]
    &&& attachment.stencil_load is Clear && attachment.clear.stencil <= i32::MAX
        ==> m.stencil.contains_key(at) && m.stencil[at] == attachment.clear.stencil
    &&& attachment.stencil_load is Load ==> m.stencil.contains_key(at) == n.stencil.contains_key(
        at,
    ) && m.stencil[at] == n.stencil[at]
}

/// A pass that was begun renders to its target, and every attachment has become
/// what the pass asks for: a color that is to be cleared is cleared, wholly and
/// to its own value, and what is to be kept is as it was.
pub proof fn begun_passes_find_what_they_ask_for(
    context: Provider,
    request: PassRequest,
    o: Seq<GlStep>,
    start: Machine,
)
    requires
        context.begin_render_pass(request, o).1 is Ok,
    ensures
        ({
            let after = context.begin_render_pass(request, o).0;
            let m = start.run(after.log);
            let n = start.run(context.log);
            let target = framebuffer_of(context, request.target);
            &&& m.drawn == Some(target)
            &&& forall|i: int|
                0 <= i < request.colors.len() && (#[trigger] request.colors[i]).load is Clear
                    ==> m.color.contains_key((target, i as u32)) && m.color[(target, i as u32)]
                    == request.colors[i].clear
            &&& forall|i: int|
                0 <= i < request.colors.len() && (#[trigger] request.colors[i]).load is Load
                    ==> same_color(m, n, (target, i as u32))
            &&& forall|at: (Option<u32>, u32)|
                at.0 != target || at.1 >= request.colors.len() ==> #[trigger] same_color(m, n, at)
            &&& match request.depth_stencil {
                Some(attachment) => depth_is_ready(m, n, target, attachment),
                None => m.depth == n.depth && m.stencil == n.stencil,
            }
            &&& m.given_up == n.given_up
            &&& m.attached == n.attached
            &&& m.drawings == n.drawings
        }),
{
    broadcast use machine::one_more_step;

    let op = "begin-render-pass";
    let record = context.pass_target(op, request.target)->Ok_0.0;
    let m1 = context.call(
        GlCall::BindFramebuffer {
            target: 0x8D40,
            framebuffer: match record {
                Some(record) => Some(record.raw),
                None => None,
            },
        },
    );
    let m2 = if record is Some && record->0.descriptor.draw_buffers.len() > 0 {
        m1.asked(
            GlStep::DrawBuffers {
                buffers: exec_framebuffer::draw_tokens(record->0.descriptor.draw_buffers),
            },
        )
    } else {
        m1
    };
    let m3 = m2.call(GlCall::Disable { capability: 0x0C11 });
    lemma_clears(m3, request.colors, 0, start);
    let m4 = m3.clear_colors(request.colors, 0);
    let n = start.run(context.log);
    let k = start.run(m3.log);
    let p = start.run(m4.log);
    let target = framebuffer_of(context, request.target);
    assert(k.drawn == Some(target));
    let m = start.run(context.begin_render_pass(request, o).0.log);
    assert(m.color == p.color);
    assert forall|i: int|
        0 <= i < request.colors.len() && (
        #[trigger] request.colors[i]).load is Load implies same_color(m, n, (target, i as u32)) by {
        assert(same_color(p, k, (target, i as u32)));
    }
    assert forall|at: (Option<u32>, u32)|
        at.0 != target || at.1 >= request.colors.len() implies #[trigger] same_color(m, n, at) by {
        assert(same_color(p, k, at));
    }
}

/// A pass that was begun draws to the buffers that its framebuffer selects, and
/// remembers its size and what it gives up at its end.
pub proof fn begun_passes_are_remembered(
    context: Provider,
    request: PassRequest,
    o: Seq<GlStep>,
    start: Machine,
)
    requires
        context.begin_render_pass(request, o).1 is Ok,
    ensures
        ({
            let after = context.begin_render_pass(request, o).0;
            let m = start.run(after.log);
            let pass = after.pass->0;
            &&& after.pass is Some
            &&& pass.target == request.target
            &&& pass.discard_color.len() == request.colors.len()
            &&& forall|i: int|
                0 <= i < request.colors.len() ==> #[trigger] pass.discard_color[i] == (
                request.colors[i].store is Discard)
            &&& match request.depth_stencil {
                Some(attachment) => pass.discard_depth_stencil == Some(
                    attachment.depth_store is Discard,
                ),
                None => pass.discard_depth_stencil is None,
            }
            &&& match request.target {
                GlRenderTarget::Default(target) => pass.width == target.width && pass.height
                    == target.height && pass.samples == target.sample_count,
                GlRenderTarget::Offscreen(id) => {
                    let descriptor = context.framebuffers[id.slot as u64].descriptor;
                    let raw = context.framebuffers[id.slot as u64].raw;
                    &&& descriptor.colors.len() > 0 ==> pass.width == descriptor.colors[0].width
                        && pass.height == descriptor.colors[0].height && pass.samples
                        == descriptor.colors[0].sample_count
                    &&& descriptor.colors.len() == 0 && descriptor.depth_stencil is Some
                        ==> pass.width == descriptor.depth_stencil->0.width && pass.height
                        == descriptor.depth_stencil->0.height && pass.samples
                        == descriptor.depth_stencil->0.sample_count
                    &&& descriptor.draw_buffers.len() > 0 ==> {
                        let chosen = m.targets[Some(raw)];
                        &&& m.targets.contains_key(Some(raw))
                        &&& chosen.len() == descriptor.draw_buffers.len()
                        &&& forall|i: int|
                            0 <= i < chosen.len() && descriptor.draw_buffers[i] < 0x1_0000
                                ==> #[trigger] chosen[i] == color_point(
                                descriptor.draw_buffers[i] as int,
                            )
                    }
                },
            }
            &&& Provider { log: context.log, pass: None, ..after } == Provider {
                pass: None,
                ..context
            }
        }),
{
    broadcast use machine::one_more_step;

    begun_passes_find_what_they_ask_for(context, request, o, start);
    let op = "begin-render-pass";
    let record = context.pass_target(op, request.target)->Ok_0.0;
    let m1 = context.call(
        GlCall::BindFramebuffer {
            target: 0x8D40,
            framebuffer: match record {
                Some(record) => Some(record.raw),
                None => None,
            },
        },
    );
    let m2 = if record is Some && record->0.descriptor.draw_buffers.len() > 0 {
        m1.asked(
            GlStep::DrawBuffers {
                buffers: exec_framebuffer::draw_tokens(record->0.descriptor.draw_buffers),
            },
        )
    } else {
        m1
    };
    let m3 = m2.call(GlCall::Disable { capability: 0x0C11 });
    lemma_clears(m3, request.colors, 0, start);
}

/// Passes are begun only on what they fit: the same attachments at the same
/// places, and none that the storage behind it does not have.
pub proof fn passes_fit_their_framebuffer(
    context: Provider,
    request: PassRequest,
    o: Seq<GlStep>,
    i: int,
)
    requires
        context.begin_render_pass(request, o).1 is Ok,
    ensures
        context.pass is None,
        request.colors.len() <= context.limits.max_color_attachments,
        request.target is Default ==> request.colors.len() <= 1 && request.depth_stencil is None,
        request.target is Offscreen ==> {
            let descriptor = context.framebuffers[request.target->Offscreen_0.slot as u64].descriptor;
            &&& request.colors.len() == descriptor.colors.len()
            &&& 0 <= i < request.colors.len() ==> request.colors[i].view
                == GlPassAttachmentView::Allocated(descriptor.colors[i])
            &&& request.depth_stencil is Some <==> descriptor.depth_stencil is Some
            &&& request.depth_stencil is Some ==> request.depth_stencil->0.view
                == descriptor.depth_stencil->0
        },
{
}

/// Whether a context can be told that contents are not needed: OpenGL ES and
/// WebGL can, desktop OpenGL from 4.3 on.
pub open spec fn can_be_told(profile: GlFamilyProfile) -> bool {
    match profile {
        GlFamilyProfile::Desktop { major, minor } => major * 0x100 + minor >= 0x403,
        _ => true,
    }
}

proof fn lemma_discarded(discard: Seq<bool>, point: u32)
    requires
        discard.len() <= 0x1_0000,
    ensures
        exec_framebuffer::discarded(discard).contains(point) <==> exists|i: int|
            0 <= i < discard.len() && #[trigger] discard[i] && color_point(i) == point,
    decreases discard.len(),
{
    if discard.len() > 0 {
        let rest = discard.drop_last();
        let before = exec_framebuffer::discarded(rest);
        let last = exec_framebuffer::color_token((discard.len() - 1) as u32);
        lemma_discarded(rest, point);
        assert(last == color_point(discard.len() - 1));
        if discard.last() {
            assert(before.push(last).contains(point) <==> before.contains(point) || last == point)
                by {
                if before.contains(point) {
                    let j = choose|j: int| 0 <= j < before.len() && before[j] == point;
                    assert(before.push(last)[j] == point);
                }
                if last == point {
                    assert(before.push(last)[before.len() as int] == point);
                }
            }
        }
        if exists|i: int|
            0 <= i < discard.len() && #[trigger] discard[i] && color_point(i) == point {
            let i = choose|i: int|
                0 <= i < discard.len() && #[trigger] discard[i] && color_point(i) == point;
            if i < rest.len() {
                assert(rest[i]);
            }
        }
        if exists|i: int| 0 <= i < rest.len() && #[trigger] rest[i] && color_point(i) == point {
            let i = choose|i: int|
                0 <= i < rest.len() && #[trigger] rest[i] && color_point(i) == point;
            assert(discard[i]);
        }
        if discard.last() && last == point {
            assert(discard[discard.len() - 1]);
        }
    }
}

/// A pass that was ended gives up exactly what it was told to discard, on
/// contexts that can be told so. What is to be stored stays. Afterwards the
/// drawable is drawn to, and no pass is open.
pub proof fn ended_passes_give_up_what_they_discard(
    context: Provider,
    o: Seq<GlStep>,
    start: Machine,
    point: u32,
)
    requires
        context.end_render_pass(o).1 is Ok,
        context.pass->0.discard_color.len() <= 0x1_0000,
    ensures
        ({
            let after = context.end_render_pass(o).0;
            let m = start.run(after.log);
            let n = start.run(context.log);
            let pass = context.pass->0;
            let target = framebuffer_of(context, pass.target);
            let discarded = can_be_told(context.profile) && ((exists|i: int|
                0 <= i < pass.discard_color.len() && #[trigger] pass.discard_color[i]
                    && color_point(i) == point) || (pass.discard_depth_stencil == Some(true)
                && point == 0x8D00));
            &&& m.given_up.contains((target, point)) <==> n.given_up.contains((target, point))
                || discarded
            &&& forall|at: (Option<u32>, u32)|
                at.0 != target ==> (#[trigger] m.given_up.contains(at) <==> n.given_up.contains(at))
            &&& m.color == n.color
            &&& m.depth == n.depth
            &&& m.stencil == n.stencil
            &&& m.drawings == n.drawings
            &&& m.drawn == Some(None::<u32>)
            &&& after.pass is None
            &&& after.raster is None
        }),
{
    broadcast use machine::one_more_step;

    let pass = context.pass->0;
    let colors = exec_framebuffer::discarded(pass.discard_color);
    let list = exec_framebuffer::invalidated(pass);
    lemma_discarded(pass.discard_color, point);
    assert(list.contains(point) <==> colors.contains(point) || (pass.discard_depth_stencil == Some(
        true,
    ) && point == 0x8D00)) by {
        if pass.discard_depth_stencil == Some(true) {
            if colors.contains(point) {
                let j = choose|j: int| 0 <= j < colors.len() && colors[j] == point;
                assert(list[j] == point);
            }
            assert(list[colors.len() as int] == 0x8D00);
        }
    }
    if list.len() == 0 {
        assert(!list.contains(point));
    }
    assert(can_be_told(context.profile) == exec_framebuffer::can_invalidate(context.profile));
}

/// Whether a view is attached at a point: its own storage, and of a texture its
/// own level.
pub open spec fn holds_view(
    context: Provider,
    m: Machine,
    at: (Option<u32>, u32),
    view: GlTextureView,
) -> bool {
    m.attached.contains_key(at) && match view.target {
        GlAttachmentTarget::Texture(id) => {
            let texture = context.textures[id.slot as u64];
            m.attached[at] == Attached::Texture {
                target: if texture.desc.sample_count > 1 {
                    0x9100
                } else {
                    0x0DE1
                },
                texture: texture.raw,
                level: view.mip_level as i32,
            }
        },
        GlAttachmentTarget::Renderbuffer(id) => m.attached[at] == Attached::Renderbuffer {
            renderbuffer: context.renderbuffers[id.slot as u64].raw,
        },
    }
}

/// Whether two machines agree on an attachment.
pub open spec fn same_attachment(m: Machine, n: Machine, at: (Option<u32>, u32)) -> bool {
    m.attached.contains_key(at) == n.attached.contains_key(at) && m.attached[at] == n.attached[at]
}

proof fn lemma_one(
    context: Provider,
    op: &'static str,
    point: u32,
    view: GlTextureView,
    start: Machine,
)
    requires
        context.attach_one(op, point, view).1 is Ok,
    ensures
        ({
            let after = context.attach_one(op, point, view).0;
            let m = start.run(after.log);
            let n = start.run(context.log);
            &&& after == (Provider { log: after.log, ..context })
            &&& m == (Machine { attached: m.attached, ..n })
            &&& holds_view(context, m, (n.drawn->0, point), view)
            &&& forall|at: (Option<u32>, u32)|
                at != (n.drawn->0, point) ==> #[trigger] same_attachment(m, n, at)
        }),
{
    broadcast use machine::one_more_step;

}

proof fn lemma_colors(
    context: Provider,
    op: &'static str,
    views: Seq<GlTextureView>,
    index: nat,
    start: Machine,
)
    requires
        context.attach_colors(op, views, index).1 is Ok,
        views.len() <= 0x1_0000,
    ensures
        ({
            let after = context.attach_colors(op, views, index).0;
            let m = start.run(after.log);
            let n = start.run(context.log);
            &&& after == (Provider { log: after.log, ..context })
            &&& m == (Machine { attached: m.attached, ..n })
            &&& forall|i: int|
                index <= i < views.len() ==> holds_view(
                    context,
                    m,
                    (n.drawn->0, color_point(i) as u32),
                    #[trigger] views[i],
                )
            &&& forall|at: (Option<u32>, u32)|
                at.0 != n.drawn->0 || at.1 < color_point(index as int) || at.1 >= color_point(
                    views.len() as int,
                ) ==> #[trigger] same_attachment(m, n, at)
        }),
    decreases views.len() - index,
{
    if index < views.len() {
        let point = exec_framebuffer::color_token(index as u32);
        assert(point == color_point(index as int));
        lemma_one(context, op, point, views[index as int], start);
        let next = context.attach_one(op, point, views[index as int]).0;
        lemma_colors(next, op, views, index + 1, start);
        let n = start.run(context.log);
        let k = start.run(next.log);
        let m = start.run(context.attach_colors(op, views, index).0.log);
        assert(same_attachment(m, k, (n.drawn->0, point)));
        assert forall|i: int| index <= i < views.len() implies holds_view(
            context,
            m,
            (n.drawn->0, color_point(i) as u32),
            #[trigger] views[i],
        ) by {
            if i > index {
                assert(holds_view(next, m, (n.drawn->0, color_point(i) as u32), views[i]));
            }
        }
        assert forall|at: (Option<u32>, u32)|
            at.0 != n.drawn->0 || at.1 < color_point(index as int) || at.1 >= color_point(
                views.len() as int,
            ) implies #[trigger] same_attachment(m, n, at) by {
            assert(same_attachment(m, k, at));
            assert(same_attachment(k, n, at));
        }
    }
}

/// Where the planes of a view of depth and stencil are attached.
pub open spec fn depth_point(view: GlTextureView) -> u32 {
    if view.format is Stencil8 {
        0x8D20
    } else if view.format is Depth24PlusStencil8 || view.format is Depth32FloatStencil8 {
        0x821A
    } else {
        0x8D00
    }
}

/// A framebuffer that was made holds all its views, each at its own point, and
/// draws to the buffers that were selected. It is kept as it was asked for, and
/// the drawable is drawn to again.
pub proof fn made_framebuffers_hold_their_views(
    context: Provider,
    descriptor: FramebufferModel,
    o: Seq<GlStep>,
    start: Machine,
)
    requires
        context.create_framebuffer(descriptor, o).1 is Ok,
        descriptor.colors.len() <= 32,
    ensures
        ({
            let (after, id) = context.create_framebuffer(descriptor, o);
            let m = start.run(after.log);
            let record = after.framebuffers[id->Ok_0.slot as u64];
            let name = Some(record.raw);
            &&& context.next(o)->CreateFramebuffer_reply == Ok::<_, Message>(record.raw)
            &&& record.descriptor == descriptor
            &&& record.generation == id->Ok_0.generation
            &&& id->Ok_0.stamp == context.stamp
            &&& forall|i: int|
                0 <= i < descriptor.colors.len() ==> holds_view(
                    context,
                    m,
                    (name, color_point(i) as u32),
                    #[trigger] descriptor.colors[i],
                )
            &&& descriptor.depth_stencil is Some ==> holds_view(
                context,
                m,
                (name, depth_point(descriptor.depth_stencil->0)),
                descriptor.depth_stencil->0,
            )
            &&& descriptor.colors.len() == 0 ==> m.targets[name] == seq![0u32]
            &&& descriptor.colors.len() > 0 && descriptor.draw_buffers.len() > 0 ==> {
                &&& m.targets[name].len() == descriptor.draw_buffers.len()
                &&& forall|i: int|
                    0 <= i < descriptor.draw_buffers.len() ==> #[trigger] m.targets[name][i]
                        == color_point(descriptor.draw_buffers[i] as int)
            }
            &&& m.drawn == Some(None::<u32>)
        }),
{
    broadcast use machine::one_more_step;

    let op = "create-framebuffer";
    let raw = context.next(o)->CreateFramebuffer_reply->Ok_0;
    let m0 = context.asked(GlStep::CreateFramebuffer { reply: Ok(raw) });
    let m1 = m0.call(GlCall::BindFramebuffer { target: 0x8D40, framebuffer: Some(raw) });
    lemma_colors(m1, op, descriptor.colors, 0, start);
    let m2 = m1.attach_colors(op, descriptor.colors, 0).0;
    match descriptor.depth_stencil {
        Some(view) => {
            let point = provider::attachment_point(view.format)->0;
            lemma_one(m2, op, point, view, start);
            let m3 = m2.attach_one(op, point, view).0;
            assert(point == depth_point(view));
            assert forall|i: int| 0 <= i < descriptor.colors.len() implies holds_view(
                context,
                start.run(m3.log),
                (Some(raw), color_point(i) as u32),
                #[trigger] descriptor.colors[i],
            ) by {
                let at = (Some(raw), color_point(i) as u32);
                assert(holds_view(m1, start.run(m2.log), at, descriptor.colors[i]));
                if at.1 != point {
                    assert(same_attachment(start.run(m3.log), start.run(m2.log), at));
                } else {
                    assert(false);
                }
            }
        },
        None => {},
    }
}

/// A copy between framebuffers copies once: from the one to the other, the
/// rectangle that is named to the rectangle that is named, the planes that are
/// named and no others. Both lie inside, and the drawable is bound afterwards.
pub proof fn blits_copy_what_they_say(
    context: Provider,
    source: FramebufferId,
    destination: FramebufferId,
    region: GlBlitRegion,
    filter: GlFilterMode,
    masks: GlBlitMask,
    o: Seq<GlStep>,
    start: Machine,
)
    requires
        context.blit_framebuffer(source, destination, region, filter, masks, o).1 is Ok,
    ensures
        ({
            let after = context.blit_framebuffer(
                source,
                destination,
                region,
                filter,
                masks,
                o,
            ).0;
            let m = start.run(after.log);
            let n = start.run(context.log);
            let done = m.copies.last();
            &&& m.copies == n.copies.push(done)
            &&& done.from == Some(Some(context.framebuffers[source.slot as u64].raw))
            &&& done.to == Some(Some(context.framebuffers[destination.slot as u64].raw))
            &&& region.src_offset.x + region.src_extent.x <= i32::MAX ==> done.source.x0
                == region.src_offset.x && done.source.x1 == region.src_offset.x
                + region.src_extent.x
            &&& region.src_offset.y + region.src_extent.y <= i32::MAX ==> done.source.y0
                == region.src_offset.y && done.source.y1 == region.src_offset.y
                + region.src_extent.y
            &&& region.dst_offset.x + region.dst_extent.x <= i32::MAX ==> done.destination.x0
                == region.dst_offset.x && done.destination.x1 == region.dst_offset.x
                + region.dst_extent.x
            &&& region.dst_offset.y + region.dst_extent.y <= i32::MAX ==> done.destination.y0
                == region.dst_offset.y && done.destination.y1 == region.dst_offset.y
                + region.dst_extent.y
            &&& (done.mask & 0x4000u32 == 0x4000u32) == masks.color
            &&& (done.mask & 0x0100u32 == 0x0100u32) == masks.depth
            &&& (done.mask & 0x0400u32 == 0x0400u32) == masks.stencil
            &&& done.mask & 0xFFFF_BAFFu32 == 0
            &&& filter is Nearest ==> done.filter == 0x2600
            &&& filter is Linear ==> done.filter == 0x2601
            &&& (masks.depth || masks.stencil) ==> filter is Nearest && region.src_extent
                == region.dst_extent
            &&& source != destination
            &&& masks.color || masks.depth || masks.stencil
            &&& m.drawn == Some(None::<u32>)
            &&& m.read == Some(None::<u32>)
            &&& m.color == n.color
        }),
{
    broadcast use machine::one_more_step;

    let (c, d, s) = (masks.color, masks.depth, masks.stencil);
    assert(forall|c: u32, d: u32, s: u32|
        (c == 0 || c == 0x4000) && (d == 0 || d == 0x100) && (s == 0 || s == 0x400) ==> ({
            let mask = #[trigger] (c | d | s);
            &&& (mask & 0x4000u32 == 0x4000u32) == (c == 0x4000)
            &&& (mask & 0x0100u32 == 0x0100u32) == (d == 0x100)
            &&& (mask & 0x0400u32 == 0x0400u32) == (s == 0x400)
            &&& mask & 0xFFFF_BAFFu32 == 0
        })) by (bit_vector);
}

} // verus!
