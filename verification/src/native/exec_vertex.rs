//! Vertex arrays.
//!
//! A vertex array cannot hold a layout without buffers. Making one records the
//! layout; binding it gives the pointers of its attributes again. What need not
//! be given twice is decided elsewhere.

use vstd::prelude::*;
use crate::api::error::GlError;
use crate::api::gl::{
    GlIndexBinding, GlIndexFormat, GlVertexAttribute, GlVertexBufferBinding, GlVertexBufferLayout,
    GlVertexFormat, GlVertexLayout, GlVertexStepMode,
};
use crate::api::identity::{BufferId, VertexArrayId};
use crate::native::call;
use crate::native::call::{GlCall, GlCalls, GlStep};
use crate::native::gl_const;
use crate::native::link::VertexLayoutModel;
use crate::native::provider;
use crate::native::provider::{
    validation, NativeBuffer, NativeGlProvider, NativeVertexArray, Provider, VertexArrayModel,
};

verus! {

/// How an attribute reaches a shader.
#[derive(Clone, Copy, Debug, PartialEq, Eq, Structural)]
pub enum AttributePath {
    /// As floating-point numbers.
    Float { size: i32, kind: u32, normalized: bool },
    /// As integers.
    Integer { size: i32, kind: u32 },
}

pub open spec fn path_of(format: GlVertexFormat) -> AttributePath {
    match format {
        GlVertexFormat::Uint8x2 => AttributePath::Float { size: 2, kind: gl_const::UNSIGNED_BYTE, normalized: false },
        GlVertexFormat::Uint8x4 => AttributePath::Float { size: 4, kind: gl_const::UNSIGNED_BYTE, normalized: false },
        GlVertexFormat::Sint8x2 => AttributePath::Float { size: 2, kind: gl_const::BYTE, normalized: false },
        GlVertexFormat::Sint8x4 => AttributePath::Float { size: 4, kind: gl_const::BYTE, normalized: false },
        GlVertexFormat::Unorm8x2 => AttributePath::Float { size: 2, kind: gl_const::UNSIGNED_BYTE, normalized: true },
        GlVertexFormat::Unorm8x4 => AttributePath::Float { size: 4, kind: gl_const::UNSIGNED_BYTE, normalized: true },
        GlVertexFormat::Snorm8x2 => AttributePath::Float { size: 2, kind: gl_const::BYTE, normalized: true },
        GlVertexFormat::Snorm8x4 => AttributePath::Float { size: 4, kind: gl_const::BYTE, normalized: true },
        GlVertexFormat::Uint16x2 => AttributePath::Float { size: 2, kind: gl_const::UNSIGNED_SHORT, normalized: false },
        GlVertexFormat::Uint16x4 => AttributePath::Float { size: 4, kind: gl_const::UNSIGNED_SHORT, normalized: false },
        GlVertexFormat::Sint16x2 => AttributePath::Float { size: 2, kind: gl_const::SHORT, normalized: false },
        GlVertexFormat::Sint16x4 => AttributePath::Float { size: 4, kind: gl_const::SHORT, normalized: false },
        GlVertexFormat::Unorm16x2 => AttributePath::Float { size: 2, kind: gl_const::UNSIGNED_SHORT, normalized: true },
        GlVertexFormat::Unorm16x4 => AttributePath::Float { size: 4, kind: gl_const::UNSIGNED_SHORT, normalized: true },
        GlVertexFormat::Snorm16x2 => AttributePath::Float { size: 2, kind: gl_const::SHORT, normalized: true },
        GlVertexFormat::Snorm16x4 => AttributePath::Float { size: 4, kind: gl_const::SHORT, normalized: true },
        GlVertexFormat::Float16x2 => AttributePath::Float { size: 2, kind: gl_const::HALF_FLOAT, normalized: false },
        GlVertexFormat::Float16x4 => AttributePath::Float { size: 4, kind: gl_const::HALF_FLOAT, normalized: false },
        GlVertexFormat::Float32 => AttributePath::Float { size: 1, kind: gl_const::FLOAT, normalized: false },
        GlVertexFormat::Float32x2 => AttributePath::Float { size: 2, kind: gl_const::FLOAT, normalized: false },
        GlVertexFormat::Float32x3 => AttributePath::Float { size: 3, kind: gl_const::FLOAT, normalized: false },
        GlVertexFormat::Float32x4 => AttributePath::Float { size: 4, kind: gl_const::FLOAT, normalized: false },
        GlVertexFormat::Uint32 => AttributePath::Integer { size: 1, kind: gl_const::UNSIGNED_INT },
        GlVertexFormat::Uint32x2 => AttributePath::Integer { size: 2, kind: gl_const::UNSIGNED_INT },
        GlVertexFormat::Uint32x3 => AttributePath::Integer { size: 3, kind: gl_const::UNSIGNED_INT },
        GlVertexFormat::Uint32x4 => AttributePath::Integer { size: 4, kind: gl_const::UNSIGNED_INT },
        GlVertexFormat::Sint32 => AttributePath::Integer { size: 1, kind: gl_const::INT },
        GlVertexFormat::Sint32x2 => AttributePath::Integer { size: 2, kind: gl_const::INT },
        GlVertexFormat::Sint32x3 => AttributePath::Integer { size: 3, kind: gl_const::INT },
        GlVertexFormat::Sint32x4 => AttributePath::Integer { size: 4, kind: gl_const::INT },
    }
}

pub fn attribute_path(format: GlVertexFormat) -> (result: AttributePath)
    ensures
        result == path_of(format),
{
    match format {
        GlVertexFormat::Uint8x2 => AttributePath::Float { size: 2, kind: gl_const::UNSIGNED_BYTE, normalized: false },
        GlVertexFormat::Uint8x4 => AttributePath::Float { size: 4, kind: gl_const::UNSIGNED_BYTE, normalized: false },
        GlVertexFormat::Sint8x2 => AttributePath::Float { size: 2, kind: gl_const::BYTE, normalized: false },
        GlVertexFormat::Sint8x4 => AttributePath::Float { size: 4, kind: gl_const::BYTE, normalized: false },
        GlVertexFormat::Unorm8x2 => AttributePath::Float { size: 2, kind: gl_const::UNSIGNED_BYTE, normalized: true },
        GlVertexFormat::Unorm8x4 => AttributePath::Float { size: 4, kind: gl_const::UNSIGNED_BYTE, normalized: true },
        GlVertexFormat::Snorm8x2 => AttributePath::Float { size: 2, kind: gl_const::BYTE, normalized: true },
        GlVertexFormat::Snorm8x4 => AttributePath::Float { size: 4, kind: gl_const::BYTE, normalized: true },
        GlVertexFormat::Uint16x2 => AttributePath::Float { size: 2, kind: gl_const::UNSIGNED_SHORT, normalized: false },
        GlVertexFormat::Uint16x4 => AttributePath::Float { size: 4, kind: gl_const::UNSIGNED_SHORT, normalized: false },
        GlVertexFormat::Sint16x2 => AttributePath::Float { size: 2, kind: gl_const::SHORT, normalized: false },
        GlVertexFormat::Sint16x4 => AttributePath::Float { size: 4, kind: gl_const::SHORT, normalized: false },
        GlVertexFormat::Unorm16x2 => AttributePath::Float { size: 2, kind: gl_const::UNSIGNED_SHORT, normalized: true },
        GlVertexFormat::Unorm16x4 => AttributePath::Float { size: 4, kind: gl_const::UNSIGNED_SHORT, normalized: true },
        GlVertexFormat::Snorm16x2 => AttributePath::Float { size: 2, kind: gl_const::SHORT, normalized: true },
        GlVertexFormat::Snorm16x4 => AttributePath::Float { size: 4, kind: gl_const::SHORT, normalized: true },
        GlVertexFormat::Float16x2 => AttributePath::Float { size: 2, kind: gl_const::HALF_FLOAT, normalized: false },
        GlVertexFormat::Float16x4 => AttributePath::Float { size: 4, kind: gl_const::HALF_FLOAT, normalized: false },
        GlVertexFormat::Float32 => AttributePath::Float { size: 1, kind: gl_const::FLOAT, normalized: false },
        GlVertexFormat::Float32x2 => AttributePath::Float { size: 2, kind: gl_const::FLOAT, normalized: false },
        GlVertexFormat::Float32x3 => AttributePath::Float { size: 3, kind: gl_const::FLOAT, normalized: false },
        GlVertexFormat::Float32x4 => AttributePath::Float { size: 4, kind: gl_const::FLOAT, normalized: false },
        GlVertexFormat::Uint32 => AttributePath::Integer { size: 1, kind: gl_const::UNSIGNED_INT },
        GlVertexFormat::Uint32x2 => AttributePath::Integer { size: 2, kind: gl_const::UNSIGNED_INT },
        GlVertexFormat::Uint32x3 => AttributePath::Integer { size: 3, kind: gl_const::UNSIGNED_INT },
        GlVertexFormat::Uint32x4 => AttributePath::Integer { size: 4, kind: gl_const::UNSIGNED_INT },
        GlVertexFormat::Sint32 => AttributePath::Integer { size: 1, kind: gl_const::INT },
        GlVertexFormat::Sint32x2 => AttributePath::Integer { size: 2, kind: gl_const::INT },
        GlVertexFormat::Sint32x3 => AttributePath::Integer { size: 3, kind: gl_const::INT },
        GlVertexFormat::Sint32x4 => AttributePath::Integer { size: 4, kind: gl_const::INT },
    }
}

/// The bytes of one attribute.
pub open spec fn byte_size(format: GlVertexFormat) -> u32 {
    match format {
        GlVertexFormat::Uint8x2
        | GlVertexFormat::Sint8x2
        | GlVertexFormat::Unorm8x2
        | GlVertexFormat::Snorm8x2 => 2,
        GlVertexFormat::Uint8x4
        | GlVertexFormat::Sint8x4
        | GlVertexFormat::Unorm8x4
        | GlVertexFormat::Snorm8x4
        | GlVertexFormat::Uint16x2
        | GlVertexFormat::Sint16x2
        | GlVertexFormat::Unorm16x2
        | GlVertexFormat::Snorm16x2
        | GlVertexFormat::Float16x2
        | GlVertexFormat::Float32
        | GlVertexFormat::Uint32
        | GlVertexFormat::Sint32 => 4,
        GlVertexFormat::Uint16x4
        | GlVertexFormat::Sint16x4
        | GlVertexFormat::Unorm16x4
        | GlVertexFormat::Snorm16x4
        | GlVertexFormat::Float16x4
        | GlVertexFormat::Float32x2
        | GlVertexFormat::Uint32x2
        | GlVertexFormat::Sint32x2 => 8,
        GlVertexFormat::Float32x3
        | GlVertexFormat::Uint32x3
        | GlVertexFormat::Sint32x3 => 12,
        GlVertexFormat::Float32x4
        | GlVertexFormat::Uint32x4
        | GlVertexFormat::Sint32x4 => 16,
    }
}

pub fn attribute_byte_size(format: GlVertexFormat) -> (result: u32)
    ensures
        result == byte_size(format),
{
    match format {
        GlVertexFormat::Uint8x2
        | GlVertexFormat::Sint8x2
        | GlVertexFormat::Unorm8x2
        | GlVertexFormat::Snorm8x2 => 2,
        GlVertexFormat::Uint8x4
        | GlVertexFormat::Sint8x4
        | GlVertexFormat::Unorm8x4
        | GlVertexFormat::Snorm8x4
        | GlVertexFormat::Uint16x2
        | GlVertexFormat::Sint16x2
        | GlVertexFormat::Unorm16x2
        | GlVertexFormat::Snorm16x2
        | GlVertexFormat::Float16x2
        | GlVertexFormat::Float32
        | GlVertexFormat::Uint32
        | GlVertexFormat::Sint32 => 4,
        GlVertexFormat::Uint16x4
        | GlVertexFormat::Sint16x4
        | GlVertexFormat::Unorm16x4
        | GlVertexFormat::Snorm16x4
        | GlVertexFormat::Float16x4
        | GlVertexFormat::Float32x2
        | GlVertexFormat::Uint32x2
        | GlVertexFormat::Sint32x2 => 8,
        GlVertexFormat::Float32x3
        | GlVertexFormat::Uint32x3
        | GlVertexFormat::Sint32x3 => 12,
        GlVertexFormat::Float32x4
        | GlVertexFormat::Uint32x4
        | GlVertexFormat::Sint32x4 => 16,
    }
}

/// The bytes of one component.
pub open spec fn component_size(kind: u32) -> int {
    if kind == gl_const::UNSIGNED_BYTE || kind == gl_const::BYTE {
        1
    } else if kind == gl_const::UNSIGNED_SHORT || kind == gl_const::SHORT || kind
        == gl_const::HALF_FLOAT {
        2
    } else {
        4
    }
}

/// The bytes of an attribute are those of its components.
pub proof fn attributes_are_packed(format: GlVertexFormat)
    ensures
        byte_size(format) == match path_of(format) {
            AttributePath::Float { size, kind, .. } => size * component_size(kind),
            AttributePath::Integer { size, kind } => size * component_size(kind),
        },
{
    let (size, kind) = match path_of(format) {
        AttributePath::Float { size, kind, .. } => (size, kind),
        AttributePath::Integer { size, kind } => (size, kind),
    };
    assert(size == 1 || size == 2 || size == 3 || size == 4);
    assert(1 * component_size(kind) == component_size(kind));
    assert(2 * component_size(kind) == component_size(kind) + component_size(kind));
    assert(3 * component_size(kind) == component_size(kind) + component_size(kind)
        + component_size(kind));
}

pub open spec fn kind_of_index(format: GlIndexFormat) -> u32 {
    match format {
        GlIndexFormat::Uint16 => gl_const::UNSIGNED_SHORT,
        GlIndexFormat::Uint32 => gl_const::UNSIGNED_INT,
    }
}

pub fn index_type(format: GlIndexFormat) -> (result: u32)
    ensures
        result == kind_of_index(format),
{
    match format {
        GlIndexFormat::Uint16 => gl_const::UNSIGNED_SHORT,
        GlIndexFormat::Uint32 => gl_const::UNSIGNED_INT,
    }
}

/// The bytes of one index.
pub open spec fn bytes_of_index(format: GlIndexFormat) -> u64 {
    match format {
        GlIndexFormat::Uint16 => 2,
        GlIndexFormat::Uint32 => 4,
    }
}

pub fn index_size(format: GlIndexFormat) -> (result: u64)
    ensures
        result == bytes_of_index(format),
{
    match format {
        GlIndexFormat::Uint16 => 2,
        GlIndexFormat::Uint32 => 4,
    }
}

/// The byte after the last index of a draw, if it can be counted.
pub open spec fn span_of(index: GlIndexBinding, first: u32, count: u32) -> Option<u64> {
    let end = index.offset + first * bytes_of_index(index.format) + count * bytes_of_index(
        index.format,
    );
    if end <= u64::MAX {
        Some(end as u64)
    } else {
        None
    }
}

pub fn indexed_draw_span(index: GlIndexBinding, first_index: u32, index_count: u32) -> (result:
    Option<u64>)
    ensures
        result == span_of(index, first_index, index_count),
{
    let size = index_size(index.format);
    proof {
        assert(first_index * size <= 0xffff_ffff * 4) by (nonlinear_arith)
            requires
                size <= 4,
                first_index <= 0xffff_ffff,
                size >= 0,
        ;
        assert(index_count * size <= 0xffff_ffff * 4) by (nonlinear_arith)
            requires
                size <= 4,
                index_count <= 0xffff_ffff,
                size >= 0,
        ;
    }
    let start: u64 = first_index as u64 * size;
    let count: u64 = index_count as u64 * size;
    match index.offset.checked_add(start) {
        Some(from) => from.checked_add(count),
        None => None,
    }
}

pub fn indexed_draw_type(index: GlIndexBinding) -> (result: u32)
    ensures
        result == kind_of_index(index.format),
{
    index_type(index.format)
}

/// The byte at which a draw begins, if it can be counted.
pub open spec fn offset_of(index: GlIndexBinding, first: u32) -> Option<u64> {
    let start = index.offset + first * bytes_of_index(index.format);
    if start <= u64::MAX {
        Some(start as u64)
    } else {
        None
    }
}

pub fn indexed_draw_offset(index: GlIndexBinding, first_index: u32) -> (result: Option<u64>)
    ensures
        result == offset_of(index, first_index),
{
    let size = index_size(index.format);
    proof {
        assert(first_index * size <= 0xffff_ffff * 4) by (nonlinear_arith)
            requires
                size <= 4,
                first_index <= 0xffff_ffff,
                size >= 0,
        ;
    }
    index.offset.checked_add(first_index as u64 * size)
}

/// Whether a layout makes sense: no slot and no location occurs twice, and
/// every attribute reads a declared slot.
pub open spec fn layout_is_valid(layout: VertexLayoutModel) -> bool {
    &&& forall|i: int, j: int|
        0 <= i < j < layout.buffers.len() ==> (#[trigger] layout.buffers[i]).slot != (
        #[trigger] layout.buffers[j]).slot
    &&& forall|i: int, j: int|
        0 <= i < j < layout.attributes.len() ==> (#[trigger] layout.attributes[i]).location != (
        #[trigger] layout.attributes[j]).location
    &&& forall|i: int|
        0 <= i < layout.attributes.len() ==> declares_slot(
            layout.buffers,
            (#[trigger] layout.attributes[i]).buffer_slot,
        )
}

/// Whether a slot is declared.
pub open spec fn declares_slot(buffers: Seq<GlVertexBufferLayout>, slot: u32) -> bool {
    exists|i: int| 0 <= i < buffers.len() && (#[trigger] buffers[i]).slot == slot
}

fn slot_declared(buffers: &Vec<GlVertexBufferLayout>, slot: u32) -> (result: bool)
    ensures
        result == declares_slot(buffers@, slot),
{
    let mut at: usize = 0;
    while at < buffers.len()
        invariant
            at <= buffers@.len(),
            forall|i: int| 0 <= i < at ==> (#[trigger] buffers@[i]).slot != slot,
        decreases buffers@.len() - at,
    {
        if buffers[at].slot == slot {
            assert(buffers@[at as int].slot == slot);
            return true;
        }
        at += 1;
    }
    false
}

fn slots_differ(buffers: &Vec<GlVertexBufferLayout>) -> (result: bool)
    ensures
        result == (forall|i: int, j: int|
            0 <= i < j < buffers@.len() ==> (#[trigger] buffers@[i]).slot != (
            #[trigger] buffers@[j]).slot),
{
    let mut at: usize = 0;
    while at < buffers.len()
        invariant
            at <= buffers@.len(),
            forall|i: int, j: int|
                0 <= i < j < at ==> (#[trigger] buffers@[i]).slot != (#[trigger] buffers@[j]).slot,
        decreases buffers@.len() - at,
    {
        let mut other: usize = 0;
        while other < at
            invariant
                other <= at < buffers@.len(),
                forall|i: int|
                    0 <= i < other ==> (#[trigger] buffers@[i]).slot != buffers@[at as int].slot,
            decreases at - other,
        {
            if buffers[other].slot == buffers[at].slot {
                assert(buffers@[other as int].slot == buffers@[at as int].slot);
                return false;
            }
            other += 1;
        }
        at += 1;
    }
    true
}

fn locations_differ(attributes: &Vec<GlVertexAttribute>) -> (result: bool)
    ensures
        result == (forall|i: int, j: int|
            0 <= i < j < attributes@.len() ==> (#[trigger] attributes@[i]).location != (
            #[trigger] attributes@[j]).location),
{
    let mut at: usize = 0;
    while at < attributes.len()
        invariant
            at <= attributes@.len(),
            forall|i: int, j: int|
                0 <= i < j < at ==> (#[trigger] attributes@[i]).location != (
                #[trigger] attributes@[j]).location,
        decreases attributes@.len() - at,
    {
        let mut other: usize = 0;
        while other < at
            invariant
                other <= at < attributes@.len(),
                forall|i: int|
                    0 <= i < other ==> (#[trigger] attributes@[i]).location
                        != attributes@[at as int].location,
            decreases at - other,
        {
            if attributes[other].location == attributes[at].location {
                assert(attributes@[other as int].location == attributes@[at as int].location);
                return false;
            }
            other += 1;
        }
        at += 1;
    }
    true
}

/// Whether a layout makes sense.
pub fn validate_layout(layout: &GlVertexLayout) -> (result: bool)
    ensures
        result == layout_is_valid(layout@),
{
    if !slots_differ(&layout.buffers) || !locations_differ(&layout.attributes) {
        return false;
    }
    let mut at: usize = 0;
    while at < layout.attributes.len()
        invariant
            at <= layout.attributes@.len(),
            forall|i: int|
                0 <= i < at ==> declares_slot(
                    layout.buffers@,
                    (#[trigger] layout.attributes@[i]).buffer_slot,
                ),
        decreases layout.attributes@.len() - at,
    {
        if !slot_declared(&layout.buffers, layout.attributes[at].buffer_slot) {
            assert(!declares_slot(
                layout@.buffers,
                layout@.attributes[at as int].buffer_slot,
            ));
            return false;
        }
        at += 1;
    }
    true
}

/// Whether every location is below a limit.
pub open spec fn locations_fit(attributes: Seq<GlVertexAttribute>, limit: u32) -> bool {
    forall|i: int| 0 <= i < attributes.len() ==> (#[trigger] attributes[i]).location < limit
}

fn all_locations_fit(attributes: &Vec<GlVertexAttribute>, limit: u32) -> (result: bool)
    ensures
        result == locations_fit(attributes@, limit),
{
    let mut at: usize = 0;
    while at < attributes.len()
        invariant
            at <= attributes@.len(),
            forall|i: int| 0 <= i < at ==> (#[trigger] attributes@[i]).location < limit,
        decreases attributes@.len() - at,
    {
        if attributes[at].location >= limit {
            assert(attributes@[at as int].location >= limit);
            return false;
        }
        at += 1;
    }
    true
}

/// The first binding of a slot.
pub open spec fn binding_of(buffers: Seq<GlVertexBufferBinding>, slot: u32) -> Option<
    GlVertexBufferBinding,
>
    decreases buffers.len(),
{
    if buffers.len() == 0 {
        None
    } else if buffers[0].slot == slot {
        Some(buffers[0])
    } else {
        binding_of(buffers.skip(1), slot)
    }
}

fn find_binding(buffers: &Vec<GlVertexBufferBinding>, slot: u32) -> (result: Option<
    GlVertexBufferBinding,
>)
    ensures
        result == binding_of(buffers@, slot),
{
    let mut at: usize = 0;
    assert(buffers@.skip(0) =~= buffers@);
    while at < buffers.len()
        invariant
            at <= buffers@.len(),
            binding_of(buffers@, slot) == binding_of(buffers@.skip(at as int), slot),
        decreases buffers@.len() - at,
    {
        assert(buffers@.skip(at as int).skip(1) =~= buffers@.skip(at + 1));
        if buffers[at].slot == slot {
            return Some(buffers[at]);
        }
        at += 1;
    }
    None
}

/// Whether buffers can be bound under a layout: every slot of it is bound, to
/// a buffer for vertices, at a place inside it; and the indices are in a buffer
/// for indices, at a place inside it that an index can begin at.
pub open spec fn bindings_are_valid(
    context: Provider,
    layout: VertexLayoutModel,
    buffers: Seq<GlVertexBufferBinding>,
    index: Option<GlIndexBinding>,
) -> bool {
    &&& forall|i: int|
        0 <= i < layout.buffers.len() ==> binding_of(
            buffers,
            (#[trigger] layout.buffers[i]).slot,
        ) is Some
    &&& forall|i: int|
        0 <= i < buffers.len() ==> {
            let entry = context.buffers[(#[trigger] buffers[i]).buffer.slot as u64];
            entry.desc.usage.vertex && buffers[i].offset <= entry.desc.size
        }
    &&& match index {
        Some(index) => {
            let entry = context.buffers[index.buffer.slot as u64];
            entry.desc.usage.index && index.offset <= entry.desc.size && index.offset
                % bytes_of_index(index.format) == 0
        },
        None => true,
    }
}

/// The step of a slot.
pub open spec fn divisor_of(mode: GlVertexStepMode) -> u32 {
    match mode {
        GlVertexStepMode::Vertex => 0,
        GlVertexStepMode::Instance => 1,
    }
}

/// The distance of two values of an attribute. Zero means that they are packed.
pub open spec fn stride_of(slot: GlVertexBufferLayout, attribute: GlVertexAttribute) -> i32 {
    (if slot.stride == 0 {
        byte_size(attribute.format)
    } else {
        slot.stride
    }) as i32
}

/// The first buffer that is not one of the context, if there is one.
pub open spec fn missing_buffer(
    context: Provider,
    operation: &'static str,
    buffers: Seq<GlVertexBufferBinding>,
) -> Result<(), GlError>
    decreases buffers.len(),
{
    if buffers.len() == 0 {
        Ok(())
    } else {
        match context.buffer(operation, buffers[0].buffer) {
            Err(error) => Err(error),
            Ok(_) => missing_buffer(context, operation, buffers.skip(1)),
        }
    }
}

impl Provider {
    pub open spec fn create_vertex_array(self, layout: VertexLayoutModel, o: Seq<GlStep>) -> (
        Provider,
        Result<VertexArrayId, GlError>,
    ) {
        let op = "create-vertex-array";
        match self.ready(op) {
            Err(error) => (self, Err(error)),
            Ok(_) => if !layout_is_valid(layout) {
                (self, Err(provider::invalid(op, "invalid vertex layout")))
            } else if !locations_fit(layout.attributes, self.limits.max_vertex_attributes) {
                (
                    self,
                    Err(
                        provider::invalid(op, "attribute location exceeds the discovered limit"),
                    ),
                )
            } else {
                let reply = self.next(o)->CreateVertexArray_reply;
                let m = self.asked(GlStep::CreateVertexArray { reply });
                match reply {
                    Err(message) => (m, Err(GlError::Driver { operation: op, message })),
                    Ok(raw) => {
                        let (m, slot) = m.slot(op);
                        match slot {
                            Err(error) => (m, Err(error)),
                            Ok(slot) => (
                                Provider {
                                    vertex_arrays: m.vertex_arrays.insert(
                                        slot as u64,
                                        VertexArrayModel {
                                            generation: 0,
                                            raw,
                                            layout,
                                            index: None,
                                        },
                                    ),
                                    ..m
                                },
                                Ok(VertexArrayId { stamp: m.stamp, slot, generation: 0 }),
                            ),
                        }
                    },
                }
            },
        }
    }

    pub open spec fn destroy_vertex_array(self, vertex_array: VertexArrayId, o: Seq<GlStep>) -> (
        Provider,
        Result<(), GlError>,
    ) {
        let op = "destroy-vertex-array";
        match self.ready(op) {
            Err(error) => (self, Err(error)),
            Ok(_) => match self.vertex_array(op, vertex_array) {
                Err(error) => (self, Err(error)),
                Ok(entry) => Provider {
                    vertex_arrays: self.vertex_arrays.remove(vertex_array.slot as u64),
                    ..self
                }.call(GlCall::DeleteVertexArray { vertex_array: entry.raw }).driver_error(op, o),
            },
        }
    }

    /// Gives one attribute.
    pub open spec fn emit_attribute(
        self,
        slot: GlVertexBufferLayout,
        binding: GlVertexBufferBinding,
        attribute: GlVertexAttribute,
    ) -> (Provider, Result<(), GlError>) {
        let at = binding.offset + attribute.offset;
        if at > i32::MAX {
            (
                self,
                Err(
                    provider::invalid(
                        "bind-vertex-array",
                        "attribute offset exceeds the binding representation",
                    ),
                ),
            )
        } else {
            let stride = stride_of(slot, attribute);
            let m1 = self.call(
                match path_of(attribute.format) {
                    AttributePath::Float { size, kind, normalized } =>
                        GlCall::VertexAttribPointerF32 {
                        location: attribute.location,
                        size,
                        kind,
                        normalized,
                        stride,
                        offset: at as i32,
                    },
                    AttributePath::Integer { size, kind } => GlCall::VertexAttribPointerI32 {
                        location: attribute.location,
                        size,
                        kind,
                        stride,
                        offset: at as i32,
                    },
                },
            );
            let m2 = m1.call(GlCall::EnableVertexAttribArray { location: attribute.location });
            (
                m2.call(
                    GlCall::VertexAttribDivisor {
                        location: attribute.location,
                        divisor: divisor_of(slot.step_mode),
                    },
                ),
                Ok(()),
            )
        }
    }

    /// Gives the attributes of one slot, from a position on.
    pub open spec fn emit_slot(
        self,
        slot: GlVertexBufferLayout,
        binding: GlVertexBufferBinding,
        attributes: Seq<GlVertexAttribute>,
    ) -> (Provider, Result<(), GlError>)
        decreases attributes.len(),
    {
        if attributes.len() == 0 {
            (self, Ok(()))
        } else if attributes[0].buffer_slot != slot.slot {
            self.emit_slot(slot, binding, attributes.skip(1))
        } else {
            let (m, outcome) = self.emit_attribute(slot, binding, attributes[0]);
            match outcome {
                Err(error) => (m, Err(error)),
                Ok(_) => m.emit_slot(slot, binding, attributes.skip(1)),
            }
        }
    }

    /// Gives the attributes of several slots.
    pub open spec fn emit_attributes(
        self,
        slots: Seq<GlVertexBufferLayout>,
        attributes: Seq<GlVertexAttribute>,
        buffers: Seq<GlVertexBufferBinding>,
    ) -> (Provider, Result<(), GlError>)
        decreases slots.len(),
    {
        if slots.len() == 0 {
            (self, Ok(()))
        } else {
            match binding_of(buffers, slots[0].slot) {
                None => (
                    self,
                    Err(
                        provider::invalid("bind-vertex-array", "layout slot lost its binding"),
                    ),
                ),
                Some(binding) => if !self.buffers.contains_key(binding.buffer.slot as u64) {
                    (
                        self,
                        Err(provider::invalid("bind-vertex-array", "bound buffer disappeared")),
                    )
                } else {
                    let raw = self.buffers[binding.buffer.slot as u64].raw;
                    let (m, outcome) = self.call(
                        GlCall::BindBuffer { target: gl_const::ARRAY_BUFFER, buffer: Some(raw) },
                    ).emit_slot(slots[0], binding, attributes);
                    match outcome {
                        Err(error) => (m, Err(error)),
                        Ok(_) => m.emit_attributes(slots.skip(1), attributes, buffers),
                    }
                },
            }
        }
    }

    /// The buffers of an index binding and of all others are those of the
    /// context.
    pub open spec fn known_buffers(
        self,
        operation: &'static str,
        buffers: Seq<GlVertexBufferBinding>,
        index: Option<GlIndexBinding>,
    ) -> Result<(), GlError> {
        match missing_buffer(self, operation, buffers) {
            Err(error) => Err(error),
            Ok(_) => match index {
                Some(index) => match self.buffer(operation, index.buffer) {
                    Err(error) => Err(error),
                    Ok(_) => Ok(()),
                },
                None => Ok(()),
            },
        }
    }

    pub open spec fn bind_vertex_array(
        self,
        vertex_array: VertexArrayId,
        buffers: Seq<GlVertexBufferBinding>,
        index: Option<GlIndexBinding>,
        o: Seq<GlStep>,
    ) -> (Provider, Result<(), GlError>) {
        let op = "bind-vertex-array";
        match self.ready(op) {
            Err(error) => (self, Err(error)),
            Ok(_) => match self.vertex_array(op, vertex_array) {
                Err(error) => (self, Err(error)),
                Ok(entry) => match self.known_buffers(op, buffers, index) {
                    Err(error) => (self, Err(error)),
                    Ok(_) => if !bindings_are_valid(self, entry.layout, buffers, index) {
                        (self, Err(provider::invalid(op, "invalid vertex bindings")))
                    } else {
                        let m1 = Provider {
                            bound_vertex_array: Some(vertex_array),
                            ..self.call(GlCall::BindVertexArray { vertex_array: entry.raw })
                        };
                        let (m2, emitted) = m1.emit_attributes(
                            entry.layout.buffers,
                            entry.layout.attributes,
                            buffers,
                        );
                        match emitted {
                            Err(error) => (m2, Err(error)),
                            Ok(_) => {
                                let (m3, outcome) = m2.call(
                                    GlCall::BindBuffer {
                                        target: gl_const::ELEMENT_ARRAY_BUFFER,
                                        buffer: match index {
                                            Some(index) => Some(
                                                m2.buffers[index.buffer.slot as u64].raw,
                                            ),
                                            None => None,
                                        },
                                    },
                                ).driver_error(op, o);
                                match outcome {
                                    Err(error) => (m3, Err(error)),
                                    Ok(_) => (
                                        Provider {
                                            vertex_arrays: m3.vertex_arrays.insert(
                                                vertex_array.slot as u64,
                                                VertexArrayModel { index, ..entry },
                                            ),
                                            ..m3
                                        },
                                        Ok(()),
                                    ),
                                }
                            },
                        }
                    },
                },
            },
        }
    }
}

/// Giving attributes changes nothing that the context keeps but its record.
pub proof fn attributes_only_ask(
    context: Provider,
    slots: Seq<GlVertexBufferLayout>,
    attributes: Seq<GlVertexAttribute>,
    buffers: Seq<GlVertexBufferBinding>,
)
    ensures
        ({
            let after = context.emit_attributes(slots, attributes, buffers).0;
            after == (Provider { log: after.log, ..context })
        }),
    decreases slots.len(),
{
    if slots.len() > 0 {
        match binding_of(buffers, slots[0].slot) {
            Some(binding) => if context.buffers.contains_key(binding.buffer.slot as u64) {
                let raw = context.buffers[binding.buffer.slot as u64].raw;
                let bound = context.call(
                    GlCall::BindBuffer { target: gl_const::ARRAY_BUFFER, buffer: Some(raw) },
                );
                lemma_slot_only_asks(bound, slots[0], binding, attributes);
                let (m, outcome) = bound.emit_slot(slots[0], binding, attributes);
                if outcome is Ok {
                    attributes_only_ask(m, slots.skip(1), attributes, buffers);
                }
            },
            None => {},
        }
    }
}

proof fn lemma_slot_only_asks(
    context: Provider,
    slot: GlVertexBufferLayout,
    binding: GlVertexBufferBinding,
    attributes: Seq<GlVertexAttribute>,
)
    ensures
        ({
            let after = context.emit_slot(slot, binding, attributes).0;
            after == (Provider { log: after.log, ..context })
        }),
    decreases attributes.len(),
{
    if attributes.len() > 0 {
        if attributes[0].buffer_slot != slot.slot {
            lemma_slot_only_asks(context, slot, binding, attributes.skip(1));
        } else {
            let (m, outcome) = context.emit_attribute(slot, binding, attributes[0]);
            if outcome is Ok {
                lemma_slot_only_asks(m, slot, binding, attributes.skip(1));
            }
        }
    }
}

/// What a context holds bound after a bind is the array that was asked for,
/// even where a later part of the bind fails.
pub proof fn binds_are_recorded(
    context: Provider,
    vertex_array: VertexArrayId,
    buffers: Seq<GlVertexBufferBinding>,
    index: Option<GlIndexBinding>,
    o: Seq<GlStep>,
)
    ensures
        ({
            let (after, result) = context.bind_vertex_array(vertex_array, buffers, index, o);
            &&& result is Ok ==> after.bound_vertex_array == Some(vertex_array)
                && after.vertex_arrays[vertex_array.slot as u64].index == index
            &&& after.log.len() > context.log.len() ==> after.bound_vertex_array == Some(
                vertex_array,
            )
        }),
{
    let op = "bind-vertex-array";
    match context.vertex_array(op, vertex_array) {
        Ok(entry) => {
            let m1 = Provider {
                bound_vertex_array: Some(vertex_array),
                ..context.call(GlCall::BindVertexArray { vertex_array: entry.raw })
            };
            attributes_only_ask(m1, entry.layout.buffers, entry.layout.attributes, buffers);
        },
        Err(_) => {},
    }
}

fn copy_slots(slots: &Vec<GlVertexBufferLayout>) -> (result: Vec<GlVertexBufferLayout>)
    ensures
        result@ == slots@,
{
    let mut result: Vec<GlVertexBufferLayout> = Vec::new();
    let mut at: usize = 0;
    while at < slots.len()
        invariant
            at <= slots@.len(),
            result@ == slots@.take(at as int),
        decreases slots@.len() - at,
    {
        result.push(slots[at]);
        at += 1;
        assert(result@ =~= slots@.take(at as int));
    }
    assert(slots@.take(at as int) =~= slots@);
    result
}

fn copy_attributes(attributes: &Vec<GlVertexAttribute>) -> (result: Vec<GlVertexAttribute>)
    ensures
        result@ == attributes@,
{
    let mut result: Vec<GlVertexAttribute> = Vec::new();
    let mut at: usize = 0;
    while at < attributes.len()
        invariant
            at <= attributes@.len(),
            result@ == attributes@.take(at as int),
        decreases attributes@.len() - at,
    {
        result.push(attributes[at]);
        at += 1;
        assert(result@ =~= attributes@.take(at as int));
    }
    assert(attributes@.take(at as int) =~= attributes@);
    result
}

fn copy_layout(layout: &GlVertexLayout) -> (result: GlVertexLayout)
    ensures
        result@ == layout@,
{
    GlVertexLayout {
        buffers: copy_slots(&layout.buffers),
        attributes: copy_attributes(&layout.attributes),
    }
}

impl<G: GlCalls> NativeGlProvider<G> {
    /// Makes a vertex array and records its layout.
    pub fn create_vertex_array(&mut self, layout: &GlVertexLayout) -> (result: Result<
        VertexArrayId,
        GlError,
    >)
        requires
            old(self).wf(),
        ensures
            final(self).wf(),
            call::grows(old(self)@.log, final(self)@.log),
            forall|o: Seq<GlStep>|
                call::grows(final(self)@.log, o) ==> #[trigger] old(self)@.create_vertex_array(layout@, o) == (
                    final(self)@,
                    result,
                ),
    {
        let op = "create-vertex-array";
        match self.assert_ready(op) {
            Ok(()) => {},
            Err(error) => {
                return Err(error);
            },
        }
        if !validate_layout(layout) {
            return Err(validation(op, "invalid vertex layout"));
        }
        if !all_locations_fit(&layout.attributes, self.limits.max_vertex_attributes) {
            return Err(validation(op, "attribute location exceeds the discovered limit"));
        }
        let raw = match self.link.create_vertex_array() {
            Ok(raw) => raw,
            Err(message) => {
                return Err(GlError::Driver { operation: op, message });
            },
        };
        let slot = match self.slot(op) {
            Ok(value) => value,
            Err(error) => {
                return Err(error);
            },
        };
        let id = VertexArrayId::new(self.stamp, slot, 0);
        let entry = NativeVertexArray {
            generation: 0,
            raw,
            layout: copy_layout(layout),
            index: None,
        };
        assert(entry@ =~= VertexArrayModel { generation: 0, raw, layout: layout@, index: None });
        self.vertex_arrays.insert(slot as u64, entry);
        Ok(id)
    }

    /// Destroys a vertex array.
    pub fn destroy_vertex_array(&mut self, vertex_array: VertexArrayId) -> (result: Result<
        (),
        GlError,
    >)
        requires
            old(self).wf(),
        ensures
            final(self).wf(),
            call::grows(old(self)@.log, final(self)@.log),
            forall|o: Seq<GlStep>|
                call::grows(final(self)@.log, o) ==> #[trigger] old(self)@.destroy_vertex_array(vertex_array, o) == (
                    final(self)@,
                    result,
                ),
    {
        let op = "destroy-vertex-array";
        match self.assert_ready(op) {
            Ok(()) => {},
            Err(error) => {
                return Err(error);
            },
        }
        let raw = match self.vertex_array(op, vertex_array) {
            Ok(entry) => entry.raw,
            Err(error) => {
                return Err(error);
            },
        };
        let _ = self.vertex_arrays.remove(vertex_array.slot as u64);
        self.link.call(GlCall::DeleteVertexArray { vertex_array: raw });
        self.driver_error(op)
    }

    fn check_buffers(
        &self,
        operation: &'static str,
        buffers: &Vec<GlVertexBufferBinding>,
        index: Option<GlIndexBinding>,
    ) -> (result: Result<(), GlError>)
        requires
            self.wf(),
        ensures
            result == self@.known_buffers(operation, buffers@, index),
    {
        let mut at: usize = 0;
        assert(buffers@.skip(0) =~= buffers@);
        while at < buffers.len()
            invariant
                at <= buffers@.len(),
                self.wf(),
                missing_buffer(self@, operation, buffers@) == missing_buffer(
                    self@,
                    operation,
                    buffers@.skip(at as int),
                ),
            decreases buffers@.len() - at,
        {
            assert(buffers@.skip(at as int).skip(1) =~= buffers@.skip(at + 1));
            match self.buffer(operation, buffers[at].buffer) {
                Ok(_) => {},
                Err(error) => {
                    return Err(error);
                },
            }
            at += 1;
        }
        match index {
            Some(index) => match self.buffer(operation, index.buffer) {
                Ok(_) => Ok(()),
                Err(error) => Err(error),
            },
            None => Ok(()),
        }
    }

    fn buffer_at(&self, buffer: BufferId) -> (result: Option<NativeBuffer>)
        requires
            self.wf(),
        ensures
            match result {
                Some(entry) => self@.buffers.contains_key(buffer.slot as u64)
                    && self@.buffers[buffer.slot as u64] == entry,
                None => !self@.buffers.contains_key(buffer.slot as u64),
            },
    {
        match self.buffers.get(buffer.slot as u64) {
            Some(entry) => Some(*entry),
            None => None,
        }
    }

    fn validate_bindings(
        &self,
        layout: &GlVertexLayout,
        buffers: &Vec<GlVertexBufferBinding>,
        index: Option<GlIndexBinding>,
    ) -> (result: bool)
        requires
            self.wf(),
            self@.known_buffers("bind-vertex-array", buffers@, index) is Ok,
        ensures
            result == bindings_are_valid(self@, layout@, buffers@, index),
    {
        let mut at: usize = 0;
        while at < layout.buffers.len()
            invariant
                at <= layout.buffers@.len(),
                forall|i: int|
                    0 <= i < at ==> binding_of(
                        buffers@,
                        (#[trigger] layout.buffers@[i]).slot,
                    ) is Some,
            decreases layout.buffers@.len() - at,
        {
            if find_binding(buffers, layout.buffers[at].slot).is_none() {
                assert(binding_of(buffers@, layout@.buffers[at as int].slot) is None);
                return false;
            }
            at += 1;
        }
        let mut next: usize = 0;
        while next < buffers.len()
            invariant
                next <= buffers@.len(),
                self.wf(),
                self@.known_buffers("bind-vertex-array", buffers@, index) is Ok,
                forall|i: int|
                    0 <= i < next ==> {
                        let entry = self@.buffers[(#[trigger] buffers@[i]).buffer.slot as u64];
                        entry.desc.usage.vertex && buffers@[i].offset <= entry.desc.size
                    },
            decreases buffers@.len() - next,
        {
            let binding = buffers[next];
            proof {
                lemma_known(self@, "bind-vertex-array", buffers@, next as int);
            }
            match self.buffer_at(binding.buffer) {
                Some(entry) => {
                    if !entry.desc.usage.vertex || binding.offset > entry.desc.size {
                        assert(buffers@[next as int] == binding);
                        return false;
                    }
                },
                None => {
                    return false;
                },
            }
            next += 1;
        }
        match index {
            Some(index) => match self.buffer_at(index.buffer) {
                Some(entry) => entry.desc.usage.index && index.offset <= entry.desc.size
                    && index.offset % index_size(index.format) == 0,
                None => false,
            },
            None => true,
        }
    }

    fn emit_slot(
        &mut self,
        slot: GlVertexBufferLayout,
        binding: GlVertexBufferBinding,
        attributes: &Vec<GlVertexAttribute>,
    ) -> (result: Result<(), GlError>)
        requires
            old(self).wf(),
        ensures
            final(self).wf(),
            call::grows(old(self)@.log, final(self)@.log),
            (final(self)@, result) == old(self)@.emit_slot(slot, binding, attributes@),
    {
        let mut at: usize = 0;
        assert(attributes@.skip(0) =~= attributes@);
        while at < attributes.len()
            invariant
                at <= attributes@.len(),
                self.wf(),
                call::grows(old(self)@.log, self@.log),
                old(self)@.emit_slot(slot, binding, attributes@) == self@.emit_slot(
                    slot,
                    binding,
                    attributes@.skip(at as int),
                ),
            decreases attributes@.len() - at,
        {
            assert(attributes@.skip(at as int).skip(1) =~= attributes@.skip(at + 1));
            let attribute = attributes[at];
            if attribute.buffer_slot == slot.slot {
                let offset = match binding.offset.checked_add(attribute.offset as u64) {
                    Some(offset) => offset,
                    None => {
                        return Err(
                            validation(
                                "bind-vertex-array",
                                "attribute offset exceeds the binding representation",
                            ),
                        );
                    },
                };
                if offset > i32::MAX as u64 {
                    return Err(
                        validation(
                            "bind-vertex-array",
                            "attribute offset exceeds the binding representation",
                        ),
                    );
                }
                let width: u32 = if slot.stride == 0 {
                    attribute_byte_size(attribute.format)
                } else {
                    slot.stride
                };
                let stride: i32 = width as i32;
                let place: i32 = offset as i32;
                match attribute_path(attribute.format) {
                    AttributePath::Float { size, kind, normalized } => {
                        self.link.call(
                            GlCall::VertexAttribPointerF32 {
                                location: attribute.location,
                                size,
                                kind,
                                normalized,
                                stride,
                                offset: place,
                            },
                        );
                    },
                    AttributePath::Integer { size, kind } => {
                        self.link.call(
                            GlCall::VertexAttribPointerI32 {
                                location: attribute.location,
                                size,
                                kind,
                                stride,
                                offset: place,
                            },
                        );
                    },
                }
                self.link.call(GlCall::EnableVertexAttribArray { location: attribute.location });
                let divisor: u32 = match slot.step_mode {
                    GlVertexStepMode::Vertex => 0,
                    GlVertexStepMode::Instance => 1,
                };
                self.link.call(
                    GlCall::VertexAttribDivisor { location: attribute.location, divisor },
                );
            }
            at += 1;
        }
        Ok(())
    }

    /// Gives the pointers of all attributes, slot by slot.
    fn emit_attributes(
        &mut self,
        layout: &GlVertexLayout,
        buffers: &Vec<GlVertexBufferBinding>,
    ) -> (result: Result<(), GlError>)
        requires
            old(self).wf(),
        ensures
            final(self).wf(),
            call::grows(old(self)@.log, final(self)@.log),
            (final(self)@, result) == old(self)@.emit_attributes(
                layout@.buffers,
                layout@.attributes,
                buffers@,
            ),
    {
        let mut at: usize = 0;
        assert(layout.buffers@.skip(0) =~= layout.buffers@);
        while at < layout.buffers.len()
            invariant
                at <= layout.buffers@.len(),
                self.wf(),
                call::grows(old(self)@.log, self@.log),
                old(self)@.emit_attributes(layout@.buffers, layout@.attributes, buffers@)
                    == self@.emit_attributes(
                    layout@.buffers.skip(at as int),
                    layout@.attributes,
                    buffers@,
                ),
            decreases layout.buffers@.len() - at,
        {
            assert(layout.buffers@.skip(at as int).skip(1) =~= layout.buffers@.skip(at + 1));
            let slot = layout.buffers[at];
            let binding = match find_binding(buffers, slot.slot) {
                Some(binding) => binding,
                None => {
                    return Err(validation("bind-vertex-array", "layout slot lost its binding"));
                },
            };
            let raw = match self.buffer_at(binding.buffer) {
                Some(entry) => entry.raw,
                None => {
                    return Err(validation("bind-vertex-array", "bound buffer disappeared"));
                },
            };
            self.link.call(
                GlCall::BindBuffer { target: gl_const::ARRAY_BUFFER, buffer: Some(raw) },
            );
            match self.emit_slot(slot, binding, &layout.attributes) {
                Ok(()) => {},
                Err(error) => {
                    return Err(error);
                },
            }
            at += 1;
        }
        Ok(())
    }

    /// Binds a vertex array with these buffers.
    pub fn bind_vertex_array(
        &mut self,
        vertex_array: VertexArrayId,
        buffers: &Vec<GlVertexBufferBinding>,
        index: Option<GlIndexBinding>,
    ) -> (result: Result<(), GlError>)
        requires
            old(self).wf(),
        ensures
            final(self).wf(),
            call::grows(old(self)@.log, final(self)@.log),
            forall|o: Seq<GlStep>|
                call::grows(final(self)@.log, o) ==> #[trigger] old(self)@.bind_vertex_array(vertex_array, buffers@, index, o) == (
                    final(self)@,
                    result,
                ),
    {
        let op = "bind-vertex-array";
        match self.assert_ready(op) {
            Ok(()) => {},
            Err(error) => {
                return Err(error);
            },
        }
        let (raw, generation, layout) = match self.vertex_array(op, vertex_array) {
            Ok(entry) => (entry.raw, entry.generation, copy_layout(&entry.layout)),
            Err(error) => {
                return Err(error);
            },
        };
        match self.check_buffers(op, buffers, index) {
            Ok(()) => {},
            Err(error) => {
                return Err(error);
            },
        }
        if !self.validate_bindings(&layout, buffers, index) {
            return Err(validation(op, "invalid vertex bindings"));
        }
        let ghost before = self@;
        self.link.call(GlCall::BindVertexArray { vertex_array: raw });
        self.bound_vertex_array = Some(vertex_array);
        let ghost bound = self@;
        match self.emit_attributes(&layout, buffers) {
            Ok(()) => {},
            Err(error) => {
                return Err(error);
            },
        }
        proof {
            attributes_only_ask(bound, layout@.buffers, layout@.attributes, buffers@);
        }
        let indices = match index {
            Some(index) => match self.buffer_at(index.buffer) {
                Some(entry) => Some(entry.raw),
                None => None,
            },
            None => None,
        };
        self.link.call(
            GlCall::BindBuffer { target: gl_const::ELEMENT_ARRAY_BUFFER, buffer: indices },
        );
        match self.driver_error(op) {
            Ok(()) => {},
            Err(error) => {
                return Err(error);
            },
        }
        let entry = NativeVertexArray { generation, raw, layout, index };
        proof {
            let was = before.vertex_arrays[vertex_array.slot as u64];
            assert(entry@ =~= VertexArrayModel { index, ..was });
        }
        self.vertex_arrays.insert(vertex_array.slot as u64, entry);
        Ok(())
    }
}

proof fn lemma_known(
    context: Provider,
    operation: &'static str,
    buffers: Seq<GlVertexBufferBinding>,
    i: int,
)
    requires
        missing_buffer(context, operation, buffers) is Ok,
        0 <= i < buffers.len(),
    ensures
        context.buffers.contains_key(buffers[i].buffer.slot as u64),
    decreases buffers.len(),
{
    if i > 0 {
        lemma_known(context, operation, buffers.skip(1), i - 1);
    }
}

} // verus!
