//! What the slots of a context hold after bind groups were bound.

use vstd::prelude::*;
use crate::api::gl::GlTextureTarget;
use crate::api::identity::{BufferId, SamplerId, TextureId};
use crate::native::execute;
use crate::native::link::{CommandModel, NativeCommand, NativeStep};
use crate::native::owner::{NativeTextureView, Owner};
use crate::platform::object::{
    GlBindGroupEntry, GlBindingResource, GlBufferSpan, GlSamplerRef, GlTextureViewRef,
};
use crate::state::context::BoundGroup;

verus! {

/// A stretch of a buffer.
pub struct Range {
    pub buffer: BufferId,
    pub offset: u32,
    pub size: u32,
}

/// What the slots of a context hold. A texture is bound to the unit that is
/// active.
#[verifier::ext_equal]
pub struct Slots {
    pub active: Option<u32>,
    pub uniforms: Map<u32, Range>,
    pub textures: Map<u32, (GlTextureTarget, TextureId)>,
    pub samplers: Map<u32, SamplerId>,
}

impl Slots {
    /// The slots after a command that succeeded.
    pub open spec fn given(self, command: NativeCommand) -> Slots {
        match command {
            NativeCommand::ActiveTexture { unit } => Slots { active: Some(unit), ..self },
            NativeCommand::BindTexture { unit, target, texture } => match self.active {
                Some(active) => Slots {
                    textures: self.textures.insert(active, (target, texture)),
                    ..self
                },
                None => self,
            },
            NativeCommand::BindSampler { unit, sampler } => Slots {
                samplers: self.samplers.insert(unit, sampler),
                ..self
            },
            NativeCommand::BindUniform { slot, buffer, offset, size } => Slots {
                uniforms: self.uniforms.insert(slot, Range { buffer, offset, size }),
                ..self
            },
            _ => self,
        }
    }

    /// The slots after a step. What failed binds nothing.
    pub open spec fn stepped(self, step: NativeStep) -> Slots {
        match step {
            NativeStep::Command { command: CommandModel::Plain(command), reply } => if reply is Ok {
                self.given(command)
            } else {
                self
            },
            _ => self,
        }
    }

    /// The slots after all steps of a record.
    pub open spec fn run(self, steps: Seq<NativeStep>) -> Slots
        decreases steps.len(),
    {
        if steps.len() == 0 {
            self
        } else {
            self.run(steps.drop_last()).stepped(steps.last())
        }
    }
}

/// One more step is made where the others ended.
pub broadcast proof fn one_more_step(slots: Slots, steps: Seq<NativeStep>, step: NativeStep)
    ensures
        #[trigger] slots.run(steps.push(step)) == slots.run(steps).stepped(step),
{
    assert(steps.push(step).drop_last() =~= steps);
}

/// Whether what an owner believes of the slots is so.
pub open spec fn believes_rightly(owner: Owner, slots: Slots) -> bool {
    &&& owner.state.active_texture is Some ==> slots.active == owner.state.active_texture
    &&& forall|slot: u32|
        owner.state.uniform_slots.contains_key(#[trigger] (slot as u64))
            && owner.state.uniform_slots[slot as u64] is UniformRange ==> {
            let key = owner.state.uniform_slots[slot as u64];
            &&& slots.uniforms.contains_key(slot)
            &&& slots.uniforms[slot] == Range {
                buffer: key->buffer,
                offset: key->offset,
                size: key->size,
            }
        }
    &&& forall|unit: u32|
        owner.state.texture_slots.contains_key(#[trigger] (unit as u64))
            && owner.state.texture_slots[unit as u64] is Interned && owner.views.contains_key(
            owner.state.texture_slots[unit as u64]->Interned_0,
        ) ==> {
            let view = owner.views[owner.state.texture_slots[unit as u64]->Interned_0];
            &&& slots.textures.contains_key(unit)
            &&& slots.textures[unit] == (view.target, view.texture)
        }
    &&& forall|unit: u32|
        owner.state.sampler_slots.contains_key(#[trigger] (unit as u64))
            && owner.state.sampler_slots[unit as u64] is Sampler ==> {
            &&& slots.samplers.contains_key(unit)
            &&& slots.samplers[unit] == owner.state.sampler_slots[unit as u64]->Sampler_0
        }
}

/// The dynamic offset of the buffer at a position, or zero.
pub open spec fn dynamic(offsets: Seq<u32>, at: int) -> int {
    if 0 <= at < offsets.len() {
        offsets[at] as int
    } else {
        0
    }
}

/// Whether a slot holds a stretch of a buffer that begins so much later.
pub open spec fn holds_span(slots: Slots, slot: u32, span: GlBufferSpan, later: int) -> bool {
    &&& slots.uniforms.contains_key(slot)
    &&& slots.uniforms[slot].buffer.slot + 1 == span.buffer.name@
    &&& slots.uniforms[slot].offset == span.offset + later
    &&& slots.uniforms[slot].size == span.size
}

/// Whether a unit holds the texture of a view.
pub open spec fn holds_texture(
    slots: Slots,
    unit: u32,
    view: GlTextureViewRef,
    views: Map<u64, NativeTextureView>,
) -> bool {
    let record = views[view.name@ as u64];
    &&& views.contains_key(view.name@ as u64)
    &&& slots.textures.contains_key(unit)
    &&& slots.textures[unit] == (record.target, record.texture)
}

/// Whether a unit holds a sampler.
pub open spec fn holds_sampler(slots: Slots, unit: u32, sampler: GlSamplerRef) -> bool {
    &&& slots.samplers.contains_key(unit)
    &&& slots.samplers[unit].slot + 1 == sampler.name@
}

/// Whether no later place of a list is the same.
pub open spec fn is_last<T>(list: Seq<(u32, T)>, k: int) -> bool {
    forall|j: int| k < j < list.len() ==> (#[trigger] list[j]).0 != list[k].0
}

/// Whether a place does not occur in a list.
pub open spec fn is_elsewhere<T>(list: Seq<(u32, T)>, slot: u32) -> bool {
    forall|j: int| 0 <= j < list.len() ==> (#[trigger] list[j]).0 != slot
}

/// Whether the places of a list hold what the list says, the last one for each
/// place, and all other places what they held. The buffers take the dynamic
/// offsets in their order, from one on.
pub open spec fn binds_uniforms(
    after: Slots,
    before: Slots,
    list: Seq<(u32, GlBufferSpan)>,
    offsets: Seq<u32>,
    first: int,
) -> bool {
    &&& forall|k: int|
        0 <= k < list.len() && #[trigger] is_last(list, k) ==> holds_span(
            after,
            list[k].0,
            list[k].1,
            dynamic(offsets, first + k),
        )
    &&& forall|slot: u32|
        #[trigger] is_elsewhere(list, slot) ==> after.uniforms.contains_key(slot)
            == before.uniforms.contains_key(slot) && after.uniforms[slot] == before.uniforms[slot]
}

pub open spec fn binds_textures(
    after: Slots,
    before: Slots,
    list: Seq<(u32, GlTextureViewRef)>,
    views: Map<u64, NativeTextureView>,
) -> bool {
    &&& forall|k: int|
        0 <= k < list.len() && #[trigger] is_last(list, k) ==> holds_texture(
            after,
            list[k].0,
            list[k].1,
            views,
        )
    &&& forall|unit: u32|
        #[trigger] is_elsewhere(list, unit) ==> after.textures.contains_key(unit)
            == before.textures.contains_key(unit) && after.textures[unit] == before.textures[unit]
}

pub open spec fn binds_samplers(
    after: Slots,
    before: Slots,
    list: Seq<(u32, GlSamplerRef)>,
) -> bool {
    &&& forall|k: int|
        0 <= k < list.len() && #[trigger] is_last(list, k) ==> holds_sampler(
            after,
            list[k].0,
            list[k].1,
        )
    &&& forall|unit: u32|
        #[trigger] is_elsewhere(list, unit) ==> after.samplers.contains_key(unit)
            == before.samplers.contains_key(unit) && after.samplers[unit] == before.samplers[unit]
}

/// What a group asks for, by kind and in order.
pub struct Wishes {
    pub uniforms: Seq<(u32, GlBufferSpan)>,
    pub textures: Seq<(u32, GlTextureViewRef)>,
    pub samplers: Seq<(u32, GlSamplerRef)>,
}

/// The elements of an array at the slots from one on. After the last slot comes
/// the first.
pub open spec fn spread<T>(slot: u32, values: Seq<T>) -> Seq<(u32, T)> {
    Seq::new(values.len(), |i: int| (((slot + (i as u32)) % 0x1_0000_0000) as u32, values[i]))
}

/// What an entry asks for.
pub open spec fn wishes_of(entry: GlBindGroupEntry) -> Wishes {
    Wishes {
        uniforms: match entry.resource {
            GlBindingResource::Buffer(span) => seq![(entry.slot, span)],
            GlBindingResource::BufferArray(spans) => spread(entry.slot, spans@),
            _ => Seq::empty(),
        },
        textures: match entry.resource {
            GlBindingResource::Texture(view) => seq![(entry.slot, view)],
            GlBindingResource::TextureArray(views) => spread(entry.slot, views@),
            _ => Seq::empty(),
        },
        samplers: match entry.resource {
            GlBindingResource::Sampler(sampler) => seq![(entry.slot, sampler)],
            GlBindingResource::SamplerArray(samplers) => spread(entry.slot, samplers@),
            _ => Seq::empty(),
        },
    }
}

/// What the entries of a group ask for, from one on.
pub open spec fn wishes_from(entries: Seq<GlBindGroupEntry>, at: int) -> Wishes
    decreases entries.len() - at,
{
    if at >= entries.len() {
        Wishes { uniforms: Seq::empty(), textures: Seq::empty(), samplers: Seq::empty() }
    } else {
        let first = wishes_of(entries[at]);
        let rest = wishes_from(entries, at + 1);
        Wishes {
            uniforms: first.uniforms + rest.uniforms,
            textures: first.textures + rest.textures,
            samplers: first.samplers + rest.samplers,
        }
    }
}

/// Whether the slots hold what is asked for.
pub open spec fn grants(
    after: Slots,
    before: Slots,
    wishes: Wishes,
    views: Map<u64, NativeTextureView>,
    offsets: Seq<u32>,
    first: int,
) -> bool {
    &&& binds_uniforms(after, before, wishes.uniforms, offsets, first)
    &&& binds_textures(after, before, wishes.textures, views)
    &&& binds_samplers(after, before, wishes.samplers)
}

proof fn lemma_places<T>(a: Seq<(u32, T)>, b: Seq<(u32, T)>)
    ensures
        forall|slot: u32|
            #[trigger] is_elsewhere(a + b, slot) ==> is_elsewhere(a, slot) && is_elsewhere(b, slot),
        forall|k: int|
            0 <= k < a.len() && #[trigger] is_last(a + b, k) ==> is_last(a, k) && is_elsewhere(
                b,
                a[k].0,
            ) && (a + b)[k] == a[k],
        forall|k: int|
            a.len() <= k < a.len() + b.len() && #[trigger] is_last(a + b, k) ==> is_last(
                b,
                k - a.len(),
            ) && (a + b)[k] == b[k - a.len()],
{
    let c = a + b;
    assert forall|slot: u32| #[trigger] is_elsewhere(c, slot) implies is_elsewhere(a, slot)
        && is_elsewhere(b, slot) by {
        assert forall|j: int| 0 <= j < a.len() implies (#[trigger] a[j]).0 != slot by {
            assert(c[j] == a[j]);
        }
        assert forall|j: int| 0 <= j < b.len() implies (#[trigger] b[j]).0 != slot by {
            assert(c[a.len() + j] == b[j]);
        }
    }
    assert forall|k: int| 0 <= k < a.len() && #[trigger] is_last(c, k) implies is_last(a, k)
        && is_elsewhere(b, a[k].0) && c[k] == a[k] by {
        assert forall|j: int| k < j < a.len() implies (#[trigger] a[j]).0 != a[k].0 by {
            assert(c[j] == a[j]);
        }
        assert forall|j: int| 0 <= j < b.len() implies (#[trigger] b[j]).0 != a[k].0 by {
            assert(c[a.len() + j] == b[j]);
        }
    }
    assert forall|k: int|
        a.len() <= k < a.len() + b.len() && #[trigger] is_last(c, k) implies is_last(
        b,
        k - a.len(),
    ) && c[k] == b[k - a.len()] by {
        let i = k - a.len();
        assert forall|j: int| i < j < b.len() implies (#[trigger] b[j]).0 != b[i].0 by {
            assert(c[a.len() + j] == b[j]);
        }
    }
}

proof fn lemma_uniforms_join(
    s2: Slots,
    s1: Slots,
    s0: Slots,
    a: Seq<(u32, GlBufferSpan)>,
    b: Seq<(u32, GlBufferSpan)>,
    offsets: Seq<u32>,
    first: int,
)
    requires
        binds_uniforms(s1, s0, a, offsets, first),
        binds_uniforms(s2, s1, b, offsets, first + a.len()),
    ensures
        binds_uniforms(s2, s0, a + b, offsets, first),
{
    lemma_places(a, b);
    assert forall|k: int|
        0 <= k < (a + b).len() && #[trigger] is_last(a + b, k) implies holds_span(
        s2,
        (a + b)[k].0,
        (a + b)[k].1,
        dynamic(offsets, first + k),
    ) by {
        if k < a.len() {
            assert(is_last(a, k));
            assert(is_elsewhere(b, a[k].0));
        } else {
            assert(is_last(b, k - a.len()));
        }
    }
}

proof fn lemma_textures_join(
    s2: Slots,
    s1: Slots,
    s0: Slots,
    a: Seq<(u32, GlTextureViewRef)>,
    b: Seq<(u32, GlTextureViewRef)>,
    views: Map<u64, NativeTextureView>,
)
    requires
        binds_textures(s1, s0, a, views),
        binds_textures(s2, s1, b, views),
    ensures
        binds_textures(s2, s0, a + b, views),
{
    lemma_places(a, b);
    assert forall|k: int|
        0 <= k < (a + b).len() && #[trigger] is_last(a + b, k) implies holds_texture(
        s2,
        (a + b)[k].0,
        (a + b)[k].1,
        views,
    ) by {
        if k < a.len() {
            assert(is_last(a, k));
            assert(is_elsewhere(b, a[k].0));
        } else {
            assert(is_last(b, k - a.len()));
        }
    }
}

proof fn lemma_samplers_join(
    s2: Slots,
    s1: Slots,
    s0: Slots,
    a: Seq<(u32, GlSamplerRef)>,
    b: Seq<(u32, GlSamplerRef)>,
)
    requires
        binds_samplers(s1, s0, a),
        binds_samplers(s2, s1, b),
    ensures
        binds_samplers(s2, s0, a + b),
{
    lemma_places(a, b);
    assert forall|k: int|
        0 <= k < (a + b).len() && #[trigger] is_last(a + b, k) implies holds_sampler(
        s2,
        (a + b)[k].0,
        (a + b)[k].1,
    ) by {
        if k < a.len() {
            assert(is_last(a, k));
            assert(is_elsewhere(b, a[k].0));
        } else {
            assert(is_last(b, k - a.len()));
        }
    }
}

/// Whether an owner differs only in what it knows of its slots and in its
/// record.
pub open spec fn only_slots(after: Owner, before: Owner) -> bool {
    after == (Owner { log: after.log, state: after.state, ..before })
}

proof fn lemma_uniform(
    owner: Owner,
    slot: u32,
    span: GlBufferSpan,
    later: u32,
    o: Seq<NativeStep>,
    start: Slots,
)
    requires
        owner.flush_uniform(slot, span, later, o).1 is Ok,
        believes_rightly(owner, start.run(owner.log)),
    ensures
        ({
            let after = owner.flush_uniform(slot, span, later, o).0;
            let m = start.run(after.log);
            let n = start.run(owner.log);
            &&& believes_rightly(after, m)
            &&& only_slots(after, owner)
            &&& holds_span(m, slot, span, later as int)
            &&& m == (Slots { uniforms: n.uniforms.insert(slot, m.uniforms[slot]), ..n })
        }),
{
    broadcast use one_more_step;

    let after = owner.flush_uniform(slot, span, later, o).0;
    let m = start.run(after.log);
    let n = start.run(owner.log);
    assert(slot as u64 as u32 == slot);
    assert(m.uniforms =~= n.uniforms.insert(slot, m.uniforms[slot]));
}

proof fn lemma_texture(
    owner: Owner,
    unit: u32,
    view: GlTextureViewRef,
    o: Seq<NativeStep>,
    start: Slots,
)
    requires
        owner.flush_texture(unit, view, o).1 is Ok,
        believes_rightly(owner, start.run(owner.log)),
    ensures
        ({
            let after = owner.flush_texture(unit, view, o).0;
            let m = start.run(after.log);
            let n = start.run(owner.log);
            &&& believes_rightly(after, m)
            &&& only_slots(after, owner)
            &&& holds_texture(m, unit, view, owner.views)
            &&& m == (Slots {
                active: m.active,
                textures: n.textures.insert(unit, m.textures[unit]),
                ..n
            })
        }),
{
    broadcast use one_more_step;

    let after = owner.flush_texture(unit, view, o).0;
    let m = start.run(after.log);
    let n = start.run(owner.log);
    assert(unit as u64 as u32 == unit);
    assert(m.textures =~= n.textures.insert(unit, m.textures[unit]));
}

proof fn lemma_sampler(
    owner: Owner,
    unit: u32,
    sampler: GlSamplerRef,
    o: Seq<NativeStep>,
    start: Slots,
)
    requires
        owner.flush_sampler(unit, sampler, o).1 is Ok,
        believes_rightly(owner, start.run(owner.log)),
    ensures
        ({
            let after = owner.flush_sampler(unit, sampler, o).0;
            let m = start.run(after.log);
            let n = start.run(owner.log);
            &&& believes_rightly(after, m)
            &&& only_slots(after, owner)
            &&& holds_sampler(m, unit, sampler)
            &&& m == (Slots { samplers: n.samplers.insert(unit, m.samplers[unit]), ..n })
        }),
{
    broadcast use one_more_step;

    let after = owner.flush_sampler(unit, sampler, o).0;
    let m = start.run(after.log);
    let n = start.run(owner.log);
    assert(unit as u64 as u32 == unit);
    assert(m.samplers =~= n.samplers.insert(unit, m.samplers[unit]));
}

/// How many dynamic offsets are used up after so many buffers.
pub open spec fn used_up(offsets: Seq<u32>, buffers: int) -> int {
    if buffers < offsets.len() {
        buffers
    } else {
        offsets.len() as int
    }
}

proof fn lemma_one_uniform(
    owner: Owner,
    slot: u32,
    span: GlBufferSpan,
    offsets: Seq<u32>,
    first: int,
    o: Seq<NativeStep>,
    start: Slots,
)
    requires
        first >= 0,
        owner.flush_uniform(
            slot,
            span,
            execute::offset_at(offsets, used_up(offsets, first)),
            o,
        ).1 is Ok,
        believes_rightly(owner, start.run(owner.log)),
    ensures
        ({
            let after = owner.flush_uniform(
                slot,
                span,
                execute::offset_at(offsets, used_up(offsets, first)),
                o,
            ).0;
            let m = start.run(after.log);
            let n = start.run(owner.log);
            &&& believes_rightly(after, m)
            &&& only_slots(after, owner)
            &&& binds_uniforms(m, n, seq![(slot, span)], offsets, first)
            &&& m.textures == n.textures
            &&& m.samplers == n.samplers
        }),
{
    let later = execute::offset_at(offsets, used_up(offsets, first));
    lemma_uniform(owner, slot, span, later, o, start);
    let list = seq![(slot, span)];
    assert forall|other: u32| #[trigger] is_elsewhere(list, other) implies other != slot by {
        assert(list[0].0 == slot);
    }
}

proof fn lemma_one_texture(
    owner: Owner,
    unit: u32,
    view: GlTextureViewRef,
    o: Seq<NativeStep>,
    start: Slots,
)
    requires
        owner.flush_texture(unit, view, o).1 is Ok,
        believes_rightly(owner, start.run(owner.log)),
    ensures
        ({
            let after = owner.flush_texture(unit, view, o).0;
            let m = start.run(after.log);
            let n = start.run(owner.log);
            &&& believes_rightly(after, m)
            &&& only_slots(after, owner)
            &&& binds_textures(m, n, seq![(unit, view)], owner.views)
            &&& m.uniforms == n.uniforms
            &&& m.samplers == n.samplers
        }),
{
    lemma_texture(owner, unit, view, o, start);
    let list = seq![(unit, view)];
    assert forall|other: u32| #[trigger] is_elsewhere(list, other) implies other != unit by {
        assert(list[0].0 == unit);
    }
}

proof fn lemma_one_sampler(
    owner: Owner,
    unit: u32,
    sampler: GlSamplerRef,
    o: Seq<NativeStep>,
    start: Slots,
)
    requires
        owner.flush_sampler(unit, sampler, o).1 is Ok,
        believes_rightly(owner, start.run(owner.log)),
    ensures
        ({
            let after = owner.flush_sampler(unit, sampler, o).0;
            let m = start.run(after.log);
            let n = start.run(owner.log);
            &&& believes_rightly(after, m)
            &&& only_slots(after, owner)
            &&& binds_samplers(m, n, seq![(unit, sampler)])
            &&& m.uniforms == n.uniforms
            &&& m.textures == n.textures
        }),
{
    lemma_sampler(owner, unit, sampler, o, start);
    let list = seq![(unit, sampler)];
    assert forall|other: u32| #[trigger] is_elsewhere(list, other) implies other != unit by {
        assert(list[0].0 == unit);
    }
}

proof fn lemma_uniforms(
    owner: Owner,
    slot: u32,
    spans: Seq<GlBufferSpan>,
    at: int,
    offsets: Seq<u32>,
    first: int,
    o: Seq<NativeStep>,
    start: Slots,
)
    requires
        first >= 0,
        0 <= at <= spans.len(),
        owner.flush_uniforms(slot, spans, at, offsets, used_up(offsets, first), o).1 is Ok,
        believes_rightly(owner, start.run(owner.log)),
    ensures
        ({
            let (after, used) = owner.flush_uniforms(
                slot,
                spans,
                at,
                offsets,
                used_up(offsets, first),
                o,
            );
            let m = start.run(after.log);
            let n = start.run(owner.log);
            &&& used->Ok_0 == used_up(offsets, first + spans.len() - at)
            &&& believes_rightly(after, m)
            &&& only_slots(after, owner)
            &&& binds_uniforms(m, n, spread(slot, spans).skip(at), offsets, first)
            &&& m.textures == n.textures
            &&& m.samplers == n.samplers
        }),
    decreases spans.len() - at,
{
    let list = spread(slot, spans);
    if at < spans.len() {
        let place = execute::slot_after(slot, at);
        assert(list[at] == (place, spans[at]));
        lemma_one_uniform(owner, place, spans[at], offsets, first, o, start);
        let bound = owner.flush_uniform(
            place,
            spans[at],
            execute::offset_at(offsets, used_up(offsets, first)),
            o,
        ).0;
        lemma_uniforms(bound, slot, spans, at + 1, offsets, first + 1, o, start);
        let after = owner.flush_uniforms(slot, spans, at, offsets, used_up(offsets, first), o).0;
        lemma_uniforms_join(
            start.run(after.log),
            start.run(bound.log),
            start.run(owner.log),
            seq![(place, spans[at])],
            list.skip(at + 1),
            offsets,
            first,
        );
        assert(list.skip(at) =~= seq![(place, spans[at])] + list.skip(at + 1));
    }
}

proof fn lemma_textures(
    owner: Owner,
    slot: u32,
    views: Seq<GlTextureViewRef>,
    at: int,
    o: Seq<NativeStep>,
    start: Slots,
)
    requires
        0 <= at <= views.len(),
        owner.flush_textures(slot, views, at, o).1 is Ok,
        believes_rightly(owner, start.run(owner.log)),
    ensures
        ({
            let after = owner.flush_textures(slot, views, at, o).0;
            let m = start.run(after.log);
            let n = start.run(owner.log);
            &&& believes_rightly(after, m)
            &&& only_slots(after, owner)
            &&& binds_textures(m, n, spread(slot, views).skip(at), owner.views)
            &&& m.uniforms == n.uniforms
            &&& m.samplers == n.samplers
        }),
    decreases views.len() - at,
{
    let list = spread(slot, views);
    if at < views.len() {
        let place = execute::slot_after(slot, at);
        assert(list[at] == (place, views[at]));
        lemma_one_texture(owner, place, views[at], o, start);
        let bound = owner.flush_texture(place, views[at], o).0;
        lemma_textures(bound, slot, views, at + 1, o, start);
        let after = owner.flush_textures(slot, views, at, o).0;
        lemma_textures_join(
            start.run(after.log),
            start.run(bound.log),
            start.run(owner.log),
            seq![(place, views[at])],
            list.skip(at + 1),
            owner.views,
        );
        assert(list.skip(at) =~= seq![(place, views[at])] + list.skip(at + 1));
    }
}

proof fn lemma_samplers(
    owner: Owner,
    slot: u32,
    samplers: Seq<GlSamplerRef>,
    at: int,
    o: Seq<NativeStep>,
    start: Slots,
)
    requires
        0 <= at <= samplers.len(),
        owner.flush_samplers(slot, samplers, at, o).1 is Ok,
        believes_rightly(owner, start.run(owner.log)),
    ensures
        ({
            let after = owner.flush_samplers(slot, samplers, at, o).0;
            let m = start.run(after.log);
            let n = start.run(owner.log);
            &&& believes_rightly(after, m)
            &&& only_slots(after, owner)
            &&& binds_samplers(m, n, spread(slot, samplers).skip(at))
            &&& m.uniforms == n.uniforms
            &&& m.textures == n.textures
        }),
    decreases samplers.len() - at,
{
    let list = spread(slot, samplers);
    if at < samplers.len() {
        let place = execute::slot_after(slot, at);
        assert(list[at] == (place, samplers[at]));
        lemma_one_sampler(owner, place, samplers[at], o, start);
        let bound = owner.flush_sampler(place, samplers[at], o).0;
        lemma_samplers(bound, slot, samplers, at + 1, o, start);
        let after = owner.flush_samplers(slot, samplers, at, o).0;
        lemma_samplers_join(
            start.run(after.log),
            start.run(bound.log),
            start.run(owner.log),
            seq![(place, samplers[at])],
            list.skip(at + 1),
        );
        assert(list.skip(at) =~= seq![(place, samplers[at])] + list.skip(at + 1));
    }
}

proof fn lemma_entry(
    owner: Owner,
    entry: GlBindGroupEntry,
    offsets: Seq<u32>,
    first: int,
    o: Seq<NativeStep>,
    start: Slots,
)
    requires
        first >= 0,
        owner.flush_entry(entry, offsets, used_up(offsets, first), o).1 is Ok,
        believes_rightly(owner, start.run(owner.log)),
    ensures
        ({
            let (after, used) = owner.flush_entry(entry, offsets, used_up(offsets, first), o);
            let m = start.run(after.log);
            let n = start.run(owner.log);
            &&& used->Ok_0 == used_up(offsets, first + wishes_of(entry).uniforms.len())
            &&& believes_rightly(after, m)
            &&& only_slots(after, owner)
            &&& grants(m, n, wishes_of(entry), owner.views, offsets, first)
        }),
{
    match entry.resource {
        GlBindingResource::Buffer(span) => {
            lemma_one_uniform(owner, entry.slot, span, offsets, first, o, start);
        },
        GlBindingResource::BufferArray(spans) => {
            lemma_uniforms(owner, entry.slot, spans@, 0, offsets, first, o, start);
            assert(spread(entry.slot, spans@).skip(0) =~= spread(entry.slot, spans@));
        },
        GlBindingResource::Texture(view) => {
            lemma_one_texture(owner, entry.slot, view, o, start);
        },
        GlBindingResource::TextureArray(views) => {
            lemma_textures(owner, entry.slot, views@, 0, o, start);
            assert(spread(entry.slot, views@).skip(0) =~= spread(entry.slot, views@));
        },
        GlBindingResource::Sampler(sampler) => {
            lemma_one_sampler(owner, entry.slot, sampler, o, start);
        },
        GlBindingResource::SamplerArray(samplers) => {
            lemma_samplers(owner, entry.slot, samplers@, 0, o, start);
            assert(spread(entry.slot, samplers@).skip(0) =~= spread(entry.slot, samplers@));
        },
    }
}

proof fn lemma_entries(
    owner: Owner,
    entries: Seq<GlBindGroupEntry>,
    at: int,
    offsets: Seq<u32>,
    first: int,
    o: Seq<NativeStep>,
    start: Slots,
)
    requires
        first >= 0,
        0 <= at <= entries.len(),
        owner.flush_entries(entries, at, offsets, used_up(offsets, first), o).1 is Ok,
        believes_rightly(owner, start.run(owner.log)),
    ensures
        ({
            let (after, used) = owner.flush_entries(
                entries,
                at,
                offsets,
                used_up(offsets, first),
                o,
            );
            let m = start.run(after.log);
            let n = start.run(owner.log);
            &&& used->Ok_0 == used_up(offsets, first + wishes_from(entries, at).uniforms.len())
            &&& believes_rightly(after, m)
            &&& only_slots(after, owner)
            &&& grants(m, n, wishes_from(entries, at), owner.views, offsets, first)
        }),
    decreases entries.len() - at,
{
    if at < entries.len() {
        let used = used_up(offsets, first);
        let own = wishes_of(entries[at]);
        let rest = wishes_from(entries, at + 1);
        lemma_entry(owner, entries[at], offsets, first, o, start);
        let bound = owner.flush_entry(entries[at], offsets, used, o).0;
        lemma_entries(
            bound,
            entries,
            at + 1,
            offsets,
            first + own.uniforms.len(),
            o,
            start,
        );
        let after = owner.flush_entries(entries, at, offsets, used, o).0;
        let (s2, s1, s0) = (start.run(after.log), start.run(bound.log), start.run(owner.log));
        lemma_uniforms_join(s2, s1, s0, own.uniforms, rest.uniforms, offsets, first);
        lemma_textures_join(s2, s1, s0, own.textures, rest.textures, owner.views);
        lemma_samplers_join(s2, s1, s0, own.samplers, rest.samplers);
    }
}

/// After a group was bound each slot that it names holds what the group says
/// for it: a buffer's stretch begins at the entry's own offset plus the dynamic
/// offset that stands at the buffer's place among the group's buffers, or at
/// the entry's own offset where there are fewer dynamic offsets, and is as long
/// as the entry says. What an owner leaves out because it believes it done was
/// done. Other slots are not touched, and what an owner believes stays right.
/// There are no more dynamic offsets than buffers.
pub proof fn bound_groups_are_in_their_slots(
    owner: Owner,
    group: BoundGroup,
    o: Seq<NativeStep>,
    start: Slots,
)
    requires
        owner.flush_group(group, o).1 is Ok,
        believes_rightly(owner, start.run(owner.log)),
    ensures
        owner.bind_groups.contains_key(group.name@ as u64),
        believes_rightly(owner.flush_group(group, o).0, start.run(owner.flush_group(group, o).0.log)),
        only_slots(owner.flush_group(group, o).0, owner),
        grants(
            start.run(owner.flush_group(group, o).0.log),
            start.run(owner.log),
            wishes_from((*owner.bind_groups[group.name@ as u64]).entries@, 0),
            owner.views,
            group.dynamic_offsets,
            0,
        ),
        group.dynamic_offsets.len() <= wishes_from(
            (*owner.bind_groups[group.name@ as u64]).entries@,
            0,
        ).uniforms.len(),
{
    lemma_entries(
        owner,
        (*owner.bind_groups[group.name@ as u64]).entries@,
        0,
        group.dynamic_offsets,
        0,
        o,
        start,
    );
}

/// Binding one group twice with other dynamic offsets moves each buffer's
/// stretch by the difference of the offsets, and does nothing else to it.
pub proof fn dynamic_offsets_move_stretches(
    owner: Owner,
    a: BoundGroup,
    b: BoundGroup,
    o: Seq<NativeStep>,
    p: Seq<NativeStep>,
    start: Slots,
    k: int,
)
    requires
        a.name == b.name,
        owner.flush_group(a, o).1 is Ok,
        owner.flush_group(b, p).1 is Ok,
        believes_rightly(owner, start.run(owner.log)),
        0 <= k < a.dynamic_offsets.len(),
        k < b.dynamic_offsets.len(),
        is_last(wishes_from((*owner.bind_groups[a.name@ as u64]).entries@, 0).uniforms, k),
    ensures
        ({
            let slot = wishes_from(
                (*owner.bind_groups[a.name@ as u64]).entries@,
                0,
            ).uniforms[k].0;
            let first = start.run(owner.flush_group(a, o).0.log).uniforms[slot];
            let second = start.run(owner.flush_group(b, p).0.log).uniforms[slot];
            &&& first.offset - second.offset == a.dynamic_offsets[k] - b.dynamic_offsets[k]
            &&& first.size == second.size
            &&& first.buffer.slot == second.buffer.slot
        }),
{
    bound_groups_are_in_their_slots(owner, a, o, start);
    bound_groups_are_in_their_slots(owner, b, p, start);
}

} // verus!
