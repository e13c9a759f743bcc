//! What a bound vertex array reads, and from where.

use vstd::prelude::*;
use crate::api::error::{GlError, Message};
use crate::api::gl::{
    GlIndexBinding, GlVertexAttribute, GlVertexBufferBinding, GlVertexBufferLayout,
};
use crate::api::identity::VertexArrayId;
use crate::native::call::{GlCall, GlStep};
use crate::native::exec_vertex;
use crate::native::link::VertexLayoutModel;
use crate::native::machine;
use crate::native::machine::Machine;
use crate::native::meaning;
use crate::native::provider::Provider;

verus! {

/// Whether an attribute is read as it is declared: from its place in the buffer
/// that is bound at its slot, number by number, a stride apart, and once for
/// each vertex or once for each instance.
pub open spec fn reads(
    m: Machine,
    array: Option<u32>,
    attribute: GlVertexAttribute,
    slot: GlVertexBufferLayout,
    offset: u64,
    buffer: u32,
) -> bool {
    let at = (array, attribute.location);
    let pointer = m.pointers[at];
    let whole = meaning::scalar_of(attribute.format) is Word || meaning::scalar_of(
        attribute.format,
    ) is SignedWord;
    &&& m.read_from.contains(at)
    &&& m.pointers.contains_key(at)
    &&& pointer.buffer == Some(buffer)
    &&& pointer.offset == offset + attribute.offset
    &&& pointer.components == meaning::components_of(attribute.format)
    &&& meaning::scalar_read(pointer.kind) == meaning::scalar_of(attribute.format)
    &&& pointer.normalized == (if whole {
        None
    } else {
        Some(meaning::stands_for_parts(attribute.format))
    })
    &&& slot.stride != 0 ==> pointer.stride == slot.stride as i32
    &&& slot.stride == 0 ==> pointer.stride == meaning::components_of(attribute.format)
        * meaning::scalar_of(attribute.format).bytes()
    &&& m.divisors.contains_key(at)
    &&& m.divisors[at] == (if slot.step_mode is Instance {
        1u32
    } else {
        0u32
    })
}

/// Whether nothing is said anew of a location.
pub open spec fn same_at(m: Machine, n: Machine, array: Option<u32>, location: u32) -> bool {
    let at = (array, location);
    &&& m.read_from.contains(at) == n.read_from.contains(at)
    &&& m.pointers.contains_key(at) == n.pointers.contains_key(at)
    &&& m.pointers[at] == n.pointers[at]
    &&& m.divisors.contains_key(at) == n.divisors.contains_key(at)
    &&& m.divisors[at] == n.divisors[at]
}

/// Whether nothing but attributes is said anew.
pub open spec fn only_attributes(m: Machine, n: Machine) -> bool {
    m == (Machine {
        array_buffer: m.array_buffer,
        read_from: m.read_from,
        pointers: m.pointers,
        divisors: m.divisors,
        ..n
    })
}

/// Whether no two attributes have one location.
pub open spec fn locations_differ(attributes: Seq<GlVertexAttribute>) -> bool {
    forall|i: int, j: int|
        0 <= i < attributes.len() && 0 <= j < attributes.len() && i != j ==> (
        #[trigger] attributes[i]).location != (#[trigger] attributes[j]).location
}

proof fn lemma_attribute(
    context: Provider,
    slot: GlVertexBufferLayout,
    binding: GlVertexBufferBinding,
    attribute: GlVertexAttribute,
    start: Machine,
)
    requires
        context.emit_attribute(slot, binding, attribute).1 is Ok,
        start.run(context.log).array_buffer is Some,
    ensures
        ({
            let after = context.emit_attribute(slot, binding, attribute).0;
            let m = start.run(after.log);
            let n = start.run(context.log);
            &&& only_attributes(m, n)
            &&& m.array_buffer == n.array_buffer
            &&& reads(
                m,
                n.vertex_array,
                attribute,
                slot,
                binding.offset,
                n.array_buffer->0,
            )
            &&& forall|location: u32|
                location != attribute.location ==> #[trigger] same_at(
                    m,
                    n,
                    n.vertex_array,
                    location,
                )
            &&& after == (Provider { log: after.log, ..context })
        }),
{
    broadcast use machine::one_more_step;

    meaning::vertex_formats_mean_what_they_say(attribute.format);
    let n = start.run(context.log);
    let at = (n.vertex_array, attribute.location);
    let after = context.emit_attribute(slot, binding, attribute).0;
    let m = start.run(after.log);
    assert(m.pointers =~= n.pointers.insert(at, m.pointers[at]));
    assert(m.divisors =~= n.divisors.insert(at, m.divisors[at]));
    assert(m.read_from =~= n.read_from.insert(at));
}

proof fn lemma_slot(
    context: Provider,
    slot: GlVertexBufferLayout,
    binding: GlVertexBufferBinding,
    attributes: Seq<GlVertexAttribute>,
    start: Machine,
)
    requires
        context.emit_slot(slot, binding, attributes).1 is Ok,
        locations_differ(attributes),
        start.run(context.log).array_buffer is Some,
    ensures
        ({
            let after = context.emit_slot(slot, binding, attributes).0;
            let m = start.run(after.log);
            let n = start.run(context.log);
            &&& only_attributes(m, n)
            &&& m.array_buffer == n.array_buffer
            &&& forall|i: int|
                0 <= i < attributes.len() && (#[trigger] attributes[i]).buffer_slot == slot.slot
                    ==> reads(
                    m,
                    n.vertex_array,
                    attributes[i],
                    slot,
                    binding.offset,
                    n.array_buffer->0,
                )
            &&& forall|location: u32|
                (forall|i: int|
                    0 <= i < attributes.len() && (#[trigger] attributes[i]).location == location
                        ==> attributes[i].buffer_slot != slot.slot) ==> #[trigger] same_at(
                    m,
                    n,
                    n.vertex_array,
                    location,
                )
            &&& after == (Provider { log: after.log, ..context })
        }),
    decreases attributes.len(),
{
    if attributes.len() > 0 {
        let rest = attributes.skip(1);
        let n = start.run(context.log);
        let after = context.emit_slot(slot, binding, attributes).0;
        let m = start.run(after.log);
        assert(locations_differ(rest)) by {
            assert forall|i: int, j: int|
                0 <= i < rest.len() && 0 <= j < rest.len() && i != j implies (
            #[trigger] rest[i]).location != (#[trigger] rest[j]).location by {
                assert(rest[i] == attributes[i + 1] && rest[j] == attributes[j + 1]);
            }
        }
        let next = if attributes[0].buffer_slot != slot.slot {
            context
        } else {
            lemma_attribute(context, slot, binding, attributes[0], start);
            context.emit_attribute(slot, binding, attributes[0]).0
        };
        let k = start.run(next.log);
        lemma_slot(next, slot, binding, rest, start);
        if attributes[0].buffer_slot == slot.slot {
            assert forall|i: int|
                0 <= i < rest.len() && (#[trigger] rest[i]).location == attributes[0].location
                implies rest[i].buffer_slot != slot.slot by {
                assert(rest[i] == attributes[i + 1]);
            }
            assert(same_at(m, k, n.vertex_array, attributes[0].location));
        }
        assert forall|i: int|
            0 <= i < attributes.len() && (#[trigger] attributes[i]).buffer_slot
                == slot.slot implies reads(
            m,
            n.vertex_array,
            attributes[i],
            slot,
            binding.offset,
            n.array_buffer->0,
        ) by {
            if i > 0 {
                assert(rest[i - 1] == attributes[i]);
            }
        }
        assert forall|location: u32|
            (forall|i: int|
                0 <= i < attributes.len() && (#[trigger] attributes[i]).location == location
                    ==> attributes[i].buffer_slot != slot.slot) implies #[trigger] same_at(
            m,
            n,
            n.vertex_array,
            location,
        ) by {
            assert forall|i: int|
                0 <= i < rest.len() && (#[trigger] rest[i]).location
                    == location implies rest[i].buffer_slot != slot.slot by {
                assert(rest[i] == attributes[i + 1]);
            }
            assert(same_at(m, k, n.vertex_array, location));
            if attributes[0].buffer_slot == slot.slot {
                assert(attributes[0].location != location);
                assert(same_at(k, n, n.vertex_array, location));
            }
        }
    }
}

proof fn lemma_slots(
    context: Provider,
    slots: Seq<GlVertexBufferLayout>,
    attributes: Seq<GlVertexAttribute>,
    buffers: Seq<GlVertexBufferBinding>,
    start: Machine,
)
    requires
        context.emit_attributes(slots, attributes, buffers).1 is Ok,
        locations_differ(attributes),
        forall|i: int, j: int|
            0 <= i < j < slots.len() ==> (#[trigger] slots[i]).slot != (#[trigger] slots[j]).slot,
    ensures
        ({
            let after = context.emit_attributes(slots, attributes, buffers).0;
            let m = start.run(after.log);
            let n = start.run(context.log);
            &&& only_attributes(m, n)
            &&& forall|k: int, i: int|
                #![trigger slots[k], attributes[i]]
                0 <= k < slots.len() && 0 <= i < attributes.len() && attributes[i].buffer_slot
                    == slots[k].slot ==> {
                    let binding = exec_vertex::binding_of(buffers, slots[k].slot);
                    &&& binding is Some
                    &&& reads(
                        m,
                        n.vertex_array,
                        attributes[i],
                        slots[k],
                        binding->0.offset,
                        context.buffers[binding->0.buffer.slot as u64].raw,
                    )
                }
            &&& forall|i: int|
                0 <= i < attributes.len() && (forall|k: int|
                    0 <= k < slots.len() ==> (#[trigger] slots[k]).slot
                        != attributes[i].buffer_slot) ==> same_at(
                    m,
                    n,
                    n.vertex_array,
                    (#[trigger] attributes[i]).location,
                )
            &&& after == (Provider { log: after.log, ..context })
        }),
    decreases slots.len(),
{
    broadcast use machine::one_more_step;

    if slots.len() > 0 {
        let rest = slots.skip(1);
        let binding = exec_vertex::binding_of(buffers, slots[0].slot)->0;
        let raw = context.buffers[binding.buffer.slot as u64].raw;
        let bound = context.call(GlCall::BindBuffer { target: 0x8892, buffer: Some(raw) });
        lemma_slot(bound, slots[0], binding, attributes, start);
        let next = bound.emit_slot(slots[0], binding, attributes).0;
        assert forall|i: int, j: int| 0 <= i < j < rest.len() implies (#[trigger] rest[i]).slot != (
        #[trigger] rest[j]).slot by {
            assert(rest[i] == slots[i + 1] && rest[j] == slots[j + 1]);
        }
        lemma_slots(next, rest, attributes, buffers, start);
        let n = start.run(context.log);
        let k1 = start.run(next.log);
        let after = context.emit_attributes(slots, attributes, buffers).0;
        let m = start.run(after.log);
        assert forall|k: int, i: int|
            #![trigger slots[k], attributes[i]]
            0 <= k < slots.len() && 0 <= i < attributes.len() && attributes[i].buffer_slot
                == slots[k].slot implies {
            let binding = exec_vertex::binding_of(buffers, slots[k].slot);
            &&& binding is Some
            &&& reads(
                m,
                n.vertex_array,
                attributes[i],
                slots[k],
                binding->0.offset,
                context.buffers[binding->0.buffer.slot as u64].raw,
            )
        } by {
            if k > 0 {
                assert(rest[k - 1] == slots[k]);
                assert(attributes[i].buffer_slot == rest[k - 1].slot);
            } else {
                assert forall|j: int| 0 <= j < rest.len() implies (#[trigger] rest[j]).slot
                    != attributes[i].buffer_slot by {
                    assert(rest[j] == slots[j + 1]);
                }
                assert(same_at(m, k1, n.vertex_array, attributes[i].location));
            }
        }
        assert forall|i: int|
            0 <= i < attributes.len() && (forall|k: int|
                0 <= k < slots.len() ==> (#[trigger] slots[k]).slot
                    != attributes[i].buffer_slot) implies same_at(
            m,
            n,
            n.vertex_array,
            (#[trigger] attributes[i]).location,
        ) by {
            assert forall|j: int| 0 <= j < rest.len() implies (#[trigger] rest[j]).slot
                != attributes[i].buffer_slot by {
                assert(rest[j] == slots[j + 1]);
            }
            assert(same_at(m, k1, n.vertex_array, attributes[i].location));
            assert(slots[0].slot != attributes[i].buffer_slot);
            assert forall|j: int|
                0 <= j < attributes.len() && (#[trigger] attributes[j]).location
                    == attributes[i].location implies attributes[j].buffer_slot
                != slots[0].slot by {
                assert(j == i);
            }
            assert(same_at(k1, start.run(bound.log), n.vertex_array, attributes[i].location));
        }
    }
}

/// The binding of a slot is one that was given for it, the first.
pub proof fn bindings_are_found(buffers: Seq<GlVertexBufferBinding>, slot: u32, at: int)
    requires
        0 <= at < buffers.len(),
        buffers[at].slot == slot,
        forall|i: int| 0 <= i < at ==> (#[trigger] buffers[i]).slot != slot,
    ensures
        exec_vertex::binding_of(buffers, slot) == Some(buffers[at]),
    decreases buffers.len(),
{
    if at > 0 {
        assert(buffers[0].slot != slot);
        let rest = buffers.skip(1);
        assert(rest[at - 1] == buffers[at]);
        assert forall|i: int| 0 <= i < at - 1 implies (#[trigger] rest[i]).slot != slot by {
            assert(rest[i] == buffers[i + 1]);
        }
        bindings_are_found(rest, slot, at - 1);
    }
}

/// After a bind the context reads every attribute of the layout as it is
/// declared, from the buffer that was given for its slot, and the indices from
/// theirs. Nothing else is set.
pub proof fn bound_arrays_are_read_as_declared(
    context: Provider,
    vertex_array: VertexArrayId,
    buffers: Seq<GlVertexBufferBinding>,
    index: Option<GlIndexBinding>,
    o: Seq<GlStep>,
    start: Machine,
    i: int,
    k: int,
    b: int,
)
    requires
        context.bind_vertex_array(vertex_array, buffers, index, o).1 is Ok,
        exec_vertex::layout_is_valid(context.vertex_arrays[vertex_array.slot as u64].layout),
        ({
            let layout = context.vertex_arrays[vertex_array.slot as u64].layout;
            &&& 0 <= i < layout.attributes.len()
            &&& 0 <= k < layout.buffers.len()
            &&& 0 <= b < buffers.len()
            &&& layout.attributes[i].buffer_slot == layout.buffers[k].slot
            &&& buffers[b].slot == layout.buffers[k].slot
            &&& forall|j: int| 0 <= j < b ==> (#[trigger] buffers[j]).slot != buffers[b].slot
        }),
    ensures
        ({
            let after = context.bind_vertex_array(vertex_array, buffers, index, o).0;
            let array = context.vertex_arrays[vertex_array.slot as u64];
            let m = start.run(after.log);
            let n = start.run(context.log);
            reads(
                m,
                Some(array.raw),
                array.layout.attributes[i],
                array.layout.buffers[k],
                buffers[b].offset,
                context.buffers[buffers[b].buffer.slot as u64].raw,
            )
        }),
{
    lemma_bound(context, vertex_array, buffers, index, o, start);
    let layout = context.vertex_arrays[vertex_array.slot as u64].layout;
    bindings_are_found(buffers, buffers[b].slot, b);
    assert(layout.attributes[i].buffer_slot == layout.buffers[k].slot);
}

/// After a bind its vertex array is the one that is drawn with, and the indices
/// come from the buffer that was given for them, or from none.
pub proof fn bound_arrays_take_their_indices(
    context: Provider,
    vertex_array: VertexArrayId,
    buffers: Seq<GlVertexBufferBinding>,
    index: Option<GlIndexBinding>,
    o: Seq<GlStep>,
    start: Machine,
)
    requires
        context.bind_vertex_array(vertex_array, buffers, index, o).1 is Ok,
        exec_vertex::layout_is_valid(context.vertex_arrays[vertex_array.slot as u64].layout),
    ensures
        ({
            let after = context.bind_vertex_array(vertex_array, buffers, index, o).0;
            let raw = context.vertex_arrays[vertex_array.slot as u64].raw;
            let m = start.run(after.log);
            let n = start.run(context.log);
            &&& m.vertex_array == Some(raw)
            &&& m.indices == n.indices.insert(
                Some(raw),
                match index {
                    Some(index) => Some(context.buffers[index.buffer.slot as u64].raw),
                    None => None,
                },
            )
            &&& after.vertex_arrays[vertex_array.slot as u64].index == index
            &&& after.bound_vertex_array == Some(vertex_array)
            &&& m.drawings == n.drawings
            &&& m.program == n.program
            &&& m.drawn == n.drawn
            &&& m.enabled == n.enabled
        }),
{
    lemma_bound(context, vertex_array, buffers, index, o, start);
}

proof fn lemma_bound(
    context: Provider,
    vertex_array: VertexArrayId,
    buffers: Seq<GlVertexBufferBinding>,
    index: Option<GlIndexBinding>,
    o: Seq<GlStep>,
    start: Machine,
)
    requires
        context.bind_vertex_array(vertex_array, buffers, index, o).1 is Ok,
        exec_vertex::layout_is_valid(context.vertex_arrays[vertex_array.slot as u64].layout),
    ensures
        ({
            let after = context.bind_vertex_array(vertex_array, buffers, index, o).0;
            let array = context.vertex_arrays[vertex_array.slot as u64];
            let layout = array.layout;
            let m = start.run(after.log);
            let n = start.run(context.log);
            &&& m.vertex_array == Some(array.raw)
            &&& m.indices == n.indices.insert(
                Some(array.raw),
                match index {
                    Some(index) => Some(context.buffers[index.buffer.slot as u64].raw),
                    None => None,
                },
            )
            &&& after.vertex_arrays[vertex_array.slot as u64].index == index
            &&& after.bound_vertex_array == Some(vertex_array)
            &&& m.drawings == n.drawings
            &&& m.program == n.program
            &&& m.drawn == n.drawn
            &&& m.enabled == n.enabled
            &&& forall|k: int, i: int|
                #![trigger layout.buffers[k], layout.attributes[i]]
                0 <= k < layout.buffers.len() && 0 <= i < layout.attributes.len()
                    && layout.attributes[i].buffer_slot == layout.buffers[k].slot ==> {
                    let binding = exec_vertex::binding_of(buffers, layout.buffers[k].slot);
                    &&& binding is Some
                    &&& reads(
                        m,
                        Some(array.raw),
                        layout.attributes[i],
                        layout.buffers[k],
                        binding->0.offset,
                        context.buffers[binding->0.buffer.slot as u64].raw,
                    )
                }
        }),
{
    broadcast use machine::one_more_step;

    let op = "bind-vertex-array";
    let entry = context.vertex_array(op, vertex_array)->Ok_0;
    let m1 = Provider {
        bound_vertex_array: Some(vertex_array),
        ..context.call(GlCall::BindVertexArray { vertex_array: entry.raw })
    };
    assert(locations_differ(entry.layout.attributes)) by {
        let attributes = entry.layout.attributes;
        assert forall|i: int, j: int|
            0 <= i < attributes.len() && 0 <= j < attributes.len() && i != j implies (
        #[trigger] attributes[i]).location != (#[trigger] attributes[j]).location by {
            if i < j {
            } else {
                assert(attributes[j].location != attributes[i].location);
            }
        }
    }
    lemma_slots(m1, entry.layout.buffers, entry.layout.attributes, buffers, start);
}

/// A vertex array that was made has the layout that was asked for, and that
/// layout makes sense.
pub proof fn made_arrays_have_their_layout(
    context: Provider,
    layout: VertexLayoutModel,
    o: Seq<GlStep>,
)
    requires
        context.create_vertex_array(layout, o).1 is Ok,
    ensures
        ({
            let (after, id) = context.create_vertex_array(layout, o);
            let entry = after.vertex_arrays[id->Ok_0.slot as u64];
            &&& after.vertex_array("", id->Ok_0) == Ok::<_, GlError>(entry)
            &&& entry.layout == layout
            &&& entry.index is None
            &&& context.next(o)->CreateVertexArray_reply == Ok::<_, Message>(entry.raw)
            &&& locations_differ(layout.attributes)
            &&& forall|i: int, j: int|
                0 <= i < layout.buffers.len() && 0 <= j < layout.buffers.len() && i != j ==> (
                #[trigger] layout.buffers[i]).slot != (#[trigger] layout.buffers[j]).slot
            &&& forall|i: int|
                0 <= i < layout.attributes.len() ==> exists|k: int|
                    0 <= k < layout.buffers.len() && (#[trigger] layout.buffers[k]).slot == (
                    #[trigger] layout.attributes[i]).buffer_slot
            &&& forall|i: int|
                0 <= i < layout.attributes.len() ==> (#[trigger] layout.attributes[i]).location
                    < context.limits.max_vertex_attributes
        }),
{
    let (attributes, buffers) = (layout.attributes, layout.buffers);
    assert forall|i: int, j: int|
        0 <= i < attributes.len() && 0 <= j < attributes.len() && i != j implies (
    #[trigger] attributes[i]).location != (#[trigger] attributes[j]).location by {
        if i > j {
            assert(attributes[j].location != attributes[i].location);
        }
    }
    assert forall|i: int, j: int|
        0 <= i < buffers.len() && 0 <= j < buffers.len() && i != j implies (
    #[trigger] buffers[i]).slot != (#[trigger] buffers[j]).slot by {
        if i > j {
            assert(buffers[j].slot != buffers[i].slot);
        }
    }
    assert forall|i: int| 0 <= i < attributes.len() implies exists|k: int|
        0 <= k < buffers.len() && (#[trigger] buffers[k]).slot == (
        #[trigger] attributes[i]).buffer_slot by {
        assert(exec_vertex::declares_slot(buffers, attributes[i].buffer_slot));
    }
}

} // verus!
