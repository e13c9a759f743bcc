//! What a fixture prints of a record. Nothing here asks a driver again, and
//! nothing enables anything.

use vstd::prelude::*;
use vstd::string::*;
use crate::api::discovery::{GlCapability, GlDiscoverySnapshot, GlLimits, SnapshotModel};
use crate::api::extension;
use crate::api::extension::{ExtensionProvenance, GlExtensionSet, GlKnownExtension, LedgerModel};
use crate::text;
use crate::text::push_decimal;

verus! {

/// A capability, and whether the context has it.
#[derive(Clone, Copy, Debug)]
pub struct CapabilityRow {
    pub name: &'static str,
    pub supported: bool,
}

/// The capabilities that are printed.
pub open spec fn capability_rows(record: SnapshotModel) -> Seq<CapabilityRow> {
    seq![
        CapabilityRow { name: "compute", supported: record.supports(GlCapability::Compute) },
        CapabilityRow {
            name: "storage-buffer",
            supported: record.supports(GlCapability::StorageBuffer),
        },
        CapabilityRow {
            name: "storage-image",
            supported: record.supports(GlCapability::StorageImage),
        },
        CapabilityRow {
            name: "indirect-draw",
            supported: record.supports(GlCapability::IndirectDraw),
        },
        CapabilityRow {
            name: "indirect-dispatch",
            supported: record.supports(GlCapability::IndirectDispatch),
        },
        CapabilityRow { name: "multi-draw", supported: record.supports(GlCapability::MultiDraw) },
        CapabilityRow {
            name: "multi-draw-indirect",
            supported: record.supports(GlCapability::MultiDrawIndirect),
        },
        CapabilityRow { name: "multiview", supported: record.supports(GlCapability::Multiview) },
        CapabilityRow { name: "timer-query", supported: record.supports(GlCapability::TimerQuery) },
    ]
}

pub fn list_capabilities(record: &GlDiscoverySnapshot) -> (result: Vec<CapabilityRow>)
    requires
        record.wf(),
    ensures
        result@ == capability_rows(record@),
{
    let mut rows: Vec<CapabilityRow> = Vec::new();
    rows.push(
        CapabilityRow { name: "compute", supported: record.supports(GlCapability::Compute) },
    );
    rows.push(
        CapabilityRow {
            name: "storage-buffer",
            supported: record.supports(GlCapability::StorageBuffer),
        },
    );
    rows.push(
        CapabilityRow {
            name: "storage-image",
            supported: record.supports(GlCapability::StorageImage),
        },
    );
    rows.push(
        CapabilityRow {
            name: "indirect-draw",
            supported: record.supports(GlCapability::IndirectDraw),
        },
    );
    rows.push(
        CapabilityRow {
            name: "indirect-dispatch",
            supported: record.supports(GlCapability::IndirectDispatch),
        },
    );
    rows.push(
        CapabilityRow { name: "multi-draw", supported: record.supports(GlCapability::MultiDraw) },
    );
    rows.push(
        CapabilityRow {
            name: "multi-draw-indirect",
            supported: record.supports(GlCapability::MultiDrawIndirect),
        },
    );
    rows.push(
        CapabilityRow { name: "multiview", supported: record.supports(GlCapability::Multiview) },
    );
    rows.push(
        CapabilityRow { name: "timer-query", supported: record.supports(GlCapability::TimerQuery) },
    );
    assert(rows@ =~= capability_rows(record@));
    rows
}

/// A limit with its value as it is printed.
#[derive(Clone, Debug)]
pub struct LimitRow {
    pub name: &'static str,
    pub value: String,
}

/// A printed limit by value.
pub struct LimitModel {
    pub name: &'static str,
    pub value: Seq<char>,
}

impl View for LimitRow {
    type V = LimitModel;

    open spec fn view(&self) -> LimitModel {
        LimitModel { name: self.name, value: self.value@ }
    }
}

/// Printed limits by value.
pub open spec fn limits_seen(rows: Seq<LimitRow>) -> Seq<LimitModel> {
    rows.map_values(|row: LimitRow| row@)
}

pub open spec fn number_row(name: &'static str, value: nat) -> LimitModel {
    LimitModel { name, value: text::decimal(value) }
}

/// Two numbers with a cross between them.
pub open spec fn size_row(name: &'static str, size: (u32, u32)) -> LimitModel {
    LimitModel {
        name,
        value: text::decimal(size.0 as nat) + "x"@ + text::decimal(size.1 as nat),
    }
}

fn push_number(rows: &mut Vec<LimitRow>, name: &'static str, value: u64)
    ensures
        limits_seen(final(rows)@) == limits_seen(old(rows)@).push(number_row(name, value as nat)),
{
    let mut line = "".to_owned();
    proof {
        reveal_strlit("");
    }
    push_decimal(&mut line, value);
    assert(line@ =~= text::decimal(value as nat));
    rows.push(LimitRow { name, value: line });
    assert(limits_seen(rows@) =~= limits_seen(old(rows)@).push(number_row(name, value as nat)));
}

fn push_size(rows: &mut Vec<LimitRow>, name: &'static str, size: (u32, u32))
    ensures
        limits_seen(final(rows)@) == limits_seen(old(rows)@).push(size_row(name, size)),
{
    let mut line = "".to_owned();
    proof {
        reveal_strlit("");
    }
    push_decimal(&mut line, size.0 as u64);
    line.append("x");
    push_decimal(&mut line, size.1 as u64);
    assert(line@ =~= size_row(name, size).value);
    rows.push(LimitRow { name, value: line });
    assert(limits_seen(rows@) =~= limits_seen(old(rows)@).push(size_row(name, size)));
}

/// The limits that are printed of an embedded context.
pub open spec fn embedded_limits(limits: GlLimits) -> Seq<LimitModel> {
    seq![
        number_row("max-texture-size", limits.max_texture_size as nat),
        number_row("max-renderbuffer-size", limits.max_renderbuffer_size as nat),
        number_row("max-vertex-attributes", limits.max_vertex_attributes as nat),
        size_row("max-viewport", limits.max_viewport_dimensions),
        number_row("max-samples", limits.max_samples as nat),
    ]
}

pub fn list_embedded_limits(limits: &GlLimits) -> (result: Vec<LimitRow>)
    ensures
        limits_seen(result@) == embedded_limits(*limits),
{
    let mut rows: Vec<LimitRow> = Vec::new();
    push_number(&mut rows, "max-texture-size", limits.max_texture_size as u64);
    push_number(&mut rows, "max-renderbuffer-size", limits.max_renderbuffer_size as u64);
    push_number(&mut rows, "max-vertex-attributes", limits.max_vertex_attributes as u64);
    push_size(&mut rows, "max-viewport", limits.max_viewport_dimensions);
    push_number(&mut rows, "max-samples", limits.max_samples as u64);
    assert(limits_seen(rows@) =~= embedded_limits(*limits));
    rows
}

/// The limits that are printed of a desktop context.
pub open spec fn desktop_limits(limits: GlLimits) -> Seq<LimitModel> {
    seq![
        number_row("max_texture_size", limits.max_texture_size as nat),
        number_row("max_renderbuffer_size", limits.max_renderbuffer_size as nat),
        number_row("max_vertex_attributes", limits.max_vertex_attributes as nat),
        size_row("max_viewport", limits.max_viewport_dimensions),
        number_row("max_samples", limits.max_samples as nat),
        number_row("uniform_buffer_offset_alignment", limits.uniform_buffer_offset_alignment as nat),
        number_row("storage_buffer_offset_alignment", limits.storage_buffer_offset_alignment as nat),
        number_row("max_multiview_view_count", limits.max_multiview_view_count as nat),
    ]
}

pub fn list_desktop_limits(limits: &GlLimits) -> (result: Vec<LimitRow>)
    ensures
        limits_seen(result@) == desktop_limits(*limits),
{
    let mut rows: Vec<LimitRow> = Vec::new();
    push_number(&mut rows, "max_texture_size", limits.max_texture_size as u64);
    push_number(&mut rows, "max_renderbuffer_size", limits.max_renderbuffer_size as u64);
    push_number(&mut rows, "max_vertex_attributes", limits.max_vertex_attributes as u64);
    push_size(&mut rows, "max_viewport", limits.max_viewport_dimensions);
    push_number(&mut rows, "max_samples", limits.max_samples as u64);
    push_number(
        &mut rows,
        "uniform_buffer_offset_alignment",
        limits.uniform_buffer_offset_alignment,
    );
    push_number(
        &mut rows,
        "storage_buffer_offset_alignment",
        limits.storage_buffer_offset_alignment,
    );
    push_number(&mut rows, "max_multiview_view_count", limits.max_multiview_view_count as u64);
    assert(limits_seen(rows@) =~= desktop_limits(*limits));
    rows
}

/// An extension that the library knows, and how far it has come.
#[derive(Clone, Copy, Debug, PartialEq, Eq, Structural)]
pub struct TypedExtension {
    pub extension: GlKnownExtension,
    pub provenance: ExtensionProvenance,
}

/// Of some names, those that the library knows and has in its ledger.
pub open spec fn typed(names: Seq<String>, ledger: LedgerModel) -> Seq<TypedExtension>
    decreases names.len(),
{
    if names.len() == 0 {
        Seq::empty()
    } else {
        let rest = typed(names.drop_last(), ledger);
        match extension::named_from(names.last()@, 0) {
            Some(extension) => match ledger.provenance(extension) {
                Some(provenance) => rest.push(TypedExtension { extension, provenance }),
                None => rest,
            },
            None => rest,
        }
    }
}

pub fn list_typed(names: &Vec<String>, ledger: &GlExtensionSet) -> (result: Vec<TypedExtension>)
    requires
        ledger.wf(),
    ensures
        result@ == typed(names@, ledger@),
{
    let mut rows: Vec<TypedExtension> = Vec::new();
    let mut at: usize = 0;
    while at < names.len()
        invariant
            ledger.wf(),
            at <= names@.len(),
            rows@ == typed(names@.take(at as int), ledger@),
        decreases names@.len() - at,
    {
        let ghost before = names@.take(at as int);
        match GlKnownExtension::from_raw_name(names[at].as_str()) {
            Some(extension) => match ledger.provenance(extension) {
                Some(provenance) => {
                    rows.push(TypedExtension { extension, provenance });
                },
                None => {},
            },
            None => {},
        }
        at += 1;
        assert(names@.take(at as int).drop_last() =~= before);
    }
    assert(names@.take(at as int) =~= names@);
    rows
}

} // verus!
