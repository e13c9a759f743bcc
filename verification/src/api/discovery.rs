//! What was found out about one context.

use vstd::prelude::*;
use crate::api::extension::{
    CapabilityEvidence, CoreOrExtension, GlExtensionSet, GlKnownExtension, LedgerModel,
};
use crate::api::format::GlFormat;
use crate::api::gl::GlFamilyProfile;
use crate::api::identity::ContextStamp;
use crate::assoc::Assoc;
use crate::exact::Exact;
use crate::text::TextSet;

verus! {

/// The limits of a context. Floating-point limits are bit patterns.
#[derive(Clone, Copy, Debug, PartialEq, Eq)]
pub struct GlLimits {
    pub max_texture_size: u32,
    pub max_3d_texture_size: u32,
    pub max_array_texture_layers: u32,
    pub max_cube_map_texture_size: u32,
    pub max_renderbuffer_size: u32,
    pub max_color_attachments: u32,
    pub max_draw_buffers: u32,
    pub max_vertex_attributes: u32,
    pub max_viewport_dimensions: (u32, u32),
    pub max_viewports: u32,
    pub max_vertex_texture_image_units: u32,
    pub max_fragment_texture_image_units: u32,
    pub max_combined_texture_image_units: u32,
    pub max_uniform_buffer_bindings: u32,
    pub max_uniform_block_size: u64,
    pub uniform_buffer_offset_alignment: u64,
    pub max_vertex_uniform_blocks: u32,
    pub max_fragment_uniform_blocks: u32,
    pub max_compute_uniform_blocks: u32,
    pub max_combined_uniform_blocks: u32,
    pub max_storage_buffer_bindings: u32,
    pub max_storage_block_size: u64,
    pub storage_buffer_offset_alignment: u64,
    pub max_vertex_storage_blocks: u32,
    pub max_fragment_storage_blocks: u32,
    pub max_compute_storage_blocks: u32,
    pub max_combined_storage_blocks: u32,
    pub max_image_units: u32,
    pub max_combined_image_units: u32,
    pub max_samples: u32,
    pub max_color_texture_samples: u32,
    pub max_depth_texture_samples: u32,
    pub max_integer_samples: u32,
    pub max_compute_work_group_count: (u32, u32, u32),
    pub max_compute_work_group_size: (u32, u32, u32),
    pub max_compute_work_group_invocations: u32,
    pub max_multi_draw_indirect_count: Option<u32>,
    pub max_multiview_view_count: u32,
    pub query_counter_bits: u32,
    pub max_texture_anisotropy: Option<u32>,
}

impl GlLimits {
    /// Several indirect draws need a queried count of at least one.
    pub open spec fn spec_supports_multi_draw_indirect(self) -> bool {
        self.max_multi_draw_indirect_count is Some && self.max_multi_draw_indirect_count->0 >= 1
    }

    pub fn supports_multi_draw_indirect(&self) -> (result: bool)
        ensures
            result == self.spec_supports_multi_draw_indirect(),
    {
        match self.max_multi_draw_indirect_count {
            Some(count) => count >= 1,
            None => false,
        }
    }
}

/// What a format is stored in.
#[derive(Clone, Copy, Debug, PartialEq, Eq, Structural)]
pub enum GlFormatResourceKind {
    Texture,
    Renderbuffer,
}

/// Why a row about a format is believed.
#[derive(Clone, Copy, Debug, PartialEq, Eq, Structural)]
pub enum GlFormatEvidence {
    /// Every accepted context can do this.
    CoreGuaranteed,
    /// An extension of this context brings it.
    ExtensionAcquired(GlKnownExtension),
    /// An operation was tried.
    OperationProbed,
}

/// What can be done with a format in one kind of storage.
#[derive(Clone, Copy, Debug, PartialEq, Eq, Structural)]
pub struct GlFormatCapabilities {
    pub format: GlFormat,
    pub resource_kind: GlFormatResourceKind,
    pub sample_count: u32,
    pub evidence: GlFormatEvidence,
    pub sampled: bool,
    pub filterable: bool,
    pub renderable: bool,
    pub blendable: bool,
    pub storage_read: bool,
    pub storage_write: bool,
    pub copy_source: bool,
    pub copy_destination: bool,
}

/// What a row is about.
#[derive(Clone, Copy, Debug, PartialEq, Eq, Structural)]
pub struct FormatKey {
    pub kind: GlFormatResourceKind,
    pub format: GlFormat,
    pub samples: u32,
}

impl Exact for FormatKey {
    fn same(&self, other: &Self) -> (result: bool) {
        *self == *other
    }
}

impl GlFormatCapabilities {
    /// What this row is about.
    pub open spec fn spec_key(self) -> FormatKey {
        FormatKey { kind: self.resource_kind, format: self.format, samples: self.sample_count }
    }

    pub fn key(&self) -> (result: FormatKey)
        ensures
            result == self.spec_key(),
    {
        FormatKey { kind: self.resource_kind, format: self.format, samples: self.sample_count }
    }
}

/// Why a row was refused.
#[derive(Clone, Copy, Debug, PartialEq, Eq, Structural)]
pub enum GlFormatTableError {
    /// Another row says something else.
    Conflict(FormatKey),
    /// No version guarantees rendering to a floating-point color format.
    UnsupportedCoreGuarantee(GlFormat),
}

/// Whether a row claims more than any version guarantees.
pub open spec fn overclaims(row: GlFormatCapabilities) -> bool {
    row.evidence is CoreGuaranteed && (row.format is Rgba16Float || row.format is Rgba32Float)
}

/// The table after a row was added, or why it was refused.
pub open spec fn recorded(
    rows: Map<FormatKey, GlFormatCapabilities>,
    row: GlFormatCapabilities,
) -> Result<Map<FormatKey, GlFormatCapabilities>, GlFormatTableError> {
    if overclaims(row) {
        Err(GlFormatTableError::UnsupportedCoreGuarantee(row.format))
    } else if rows.contains_key(row.spec_key()) && rows[row.spec_key()] != row {
        Err(GlFormatTableError::Conflict(row.spec_key()))
    } else {
        Ok(rows.insert(row.spec_key(), row))
    }
}

/// The rows about the formats of one context.
#[derive(Debug)]
pub struct GlFormatTable {
    pub rows: Assoc<FormatKey, GlFormatCapabilities>,
}

impl View for GlFormatTable {
    type V = Map<FormatKey, GlFormatCapabilities>;

    open spec fn view(&self) -> Map<FormatKey, GlFormatCapabilities> {
        self.rows@
    }
}

impl GlFormatTable {
    pub open spec fn wf(&self) -> bool {
        self.rows.wf()
    }

    pub fn new() -> (result: Self)
        ensures
            result.wf(),
            result@ == Map::<FormatKey, GlFormatCapabilities>::empty(),
    {
        GlFormatTable { rows: Assoc::new() }
    }

    /// Adds a row. The same row may be added again; a different one about the
    /// same storage is refused.
    pub fn record(&mut self, row: GlFormatCapabilities) -> (result: Result<(), GlFormatTableError>)
        requires
            old(self).wf(),
        ensures
            final(self).wf(),
            match recorded(old(self)@, row) {
                Ok(rows) => result is Ok && final(self)@ == rows,
                Err(error) => result == Err::<(), _>(error) && final(self)@ == old(self)@,
            },
    {
        match row.evidence {
            GlFormatEvidence::CoreGuaranteed => match row.format {
                GlFormat::Rgba16Float | GlFormat::Rgba32Float => {
                    return Err(GlFormatTableError::UnsupportedCoreGuarantee(row.format));
                },
                _ => {},
            },
            _ => {},
        }
        let key = row.key();
        match self.rows.get(&key) {
            Some(other) => {
                if *other != row {
                    return Err(GlFormatTableError::Conflict(key));
                }
            },
            None => {},
        }
        self.rows.insert(key, row);
        Ok(())
    }

    /// The row about one kind of storage.
    pub fn get_for(&self, kind: GlFormatResourceKind, format: GlFormat, samples: u32) -> (result:
        Option<GlFormatCapabilities>)
        requires
            self.wf(),
        ensures
            result == (if self@.contains_key(FormatKey { kind, format, samples }) {
                Some(self@[FormatKey { kind, format, samples }])
            } else {
                None
            }),
    {
        match self.rows.get(&FormatKey { kind, format, samples }) {
            Some(row) => Some(*row),
            None => None,
        }
    }
}

/// The drawable of a context.
#[derive(Clone, Copy, Debug, PartialEq, Eq)]
pub enum GlSurfaceFacts {
    /// It could not be observed.
    Unavailable,
    /// It was observed, with the bits of red, green, blue and alpha.
    Observed { color_bits: (u32, u32, u32, u32) },
}

/// The flags of a context, and free remarks on it.
#[derive(Debug)]
pub struct GlContextFlags {
    pub debug: bool,
    pub forward_compatible: bool,
    pub no_error: bool,
    pub robust_access: bool,
    pub other: TextSet,
}

/// The flags of a context by value.
#[verifier::ext_equal]
pub struct FlagsModel {
    pub debug: bool,
    pub forward_compatible: bool,
    pub no_error: bool,
    pub robust_access: bool,
    pub other: Set<Seq<char>>,
}

impl View for GlContextFlags {
    type V = FlagsModel;

    open spec fn view(&self) -> FlagsModel {
        FlagsModel {
            debug: self.debug,
            forward_compatible: self.forward_compatible,
            no_error: self.no_error,
            robust_access: self.robust_access,
            other: self.other@,
        }
    }
}

impl GlContextFlags {
    /// No flag and no remark.
    pub fn new() -> (result: Self)
        ensures
            result@ == (FlagsModel {
                debug: false,
                forward_compatible: false,
                no_error: false,
                robust_access: false,
                other: Set::empty(),
            }),
    {
        GlContextFlags {
            debug: false,
            forward_compatible: false,
            no_error: false,
            robust_access: false,
            other: TextSet::new(),
        }
    }
}

/// How a context describes itself.
#[derive(Debug)]
pub struct GlContextInfo {
    pub profile: GlFamilyProfile,
    pub version: String,
    pub shading_language: String,
    pub vendor: String,
    pub renderer: String,
    /// What the platform says of its driver.
    pub driver: String,
    pub flags: GlContextFlags,
}

/// The description of a context by value.
#[verifier::ext_equal]
pub struct InfoModel {
    pub profile: GlFamilyProfile,
    pub version: Seq<char>,
    pub shading_language: Seq<char>,
    pub vendor: Seq<char>,
    pub renderer: Seq<char>,
    pub driver: Seq<char>,
    pub flags: FlagsModel,
}

impl View for GlContextInfo {
    type V = InfoModel;

    open spec fn view(&self) -> InfoModel {
        InfoModel {
            profile: self.profile,
            version: self.version@,
            shading_language: self.shading_language@,
            vendor: self.vendor@,
            renderer: self.renderer@,
            driver: self.driver@,
            flags: self.flags@,
        }
    }
}

/// A command domain that not every context has.
#[derive(Clone, Copy, Debug, PartialEq, Eq, Structural)]
pub enum GlCapability {
    Compute,
    StorageBuffer,
    StorageImage,
    IndirectDraw,
    IndirectDispatch,
    MultiDrawIndirect,
    MultiDraw,
    Multiview,
    TimerQuery,
}

impl Exact for GlCapability {
    fn same(&self, other: &Self) -> (result: bool) {
        *self == *other
    }
}

/// What an operation showed.
#[derive(Clone, Copy, Debug, PartialEq, Eq, Structural)]
pub enum GlOperationProbe {
    /// Nothing has to be tried.
    NotRequired,
    /// It was not tried.
    NotRun,
    Passed,
    Failed,
}

/// What is known of one capability.
#[derive(Clone, Copy, Debug, PartialEq, Eq, Structural)]
pub struct GlCapabilityFact {
    pub evidence: Option<CapabilityEvidence>,
    pub probe: GlOperationProbe,
    /// Whether the limits of the context allow it.
    pub within_limits: bool,
}

impl GlCapabilityFact {
    /// A capability is there if there is a way to it, nothing that was tried
    /// speaks against it, and the limits allow it.
    pub open spec fn spec_enabled(self) -> bool {
        self.evidence is Some && (self.probe is NotRequired || self.probe is Passed)
            && self.within_limits
    }

    pub fn enabled(&self) -> (result: bool)
        ensures
            result == self.spec_enabled(),
    {
        let passed = match self.probe {
            GlOperationProbe::NotRequired | GlOperationProbe::Passed => true,
            GlOperationProbe::NotRun | GlOperationProbe::Failed => false,
        };
        self.evidence.is_some() && passed && self.within_limits
    }
}

/// Whether the limits of a context allow a capability.
pub open spec fn allowed_by(limits: GlLimits, capability: GlCapability) -> bool {
    match capability {
        GlCapability::MultiDrawIndirect => limits.spec_supports_multi_draw_indirect(),
        GlCapability::Multiview => limits.max_multiview_view_count >= 2,
        _ => true,
    }
}

/// Why what was collected is no complete record.
#[derive(Clone, Copy, Debug, PartialEq, Eq, Structural)]
pub enum GlDiscoveryError {
    InvalidFormats(GlFormatTableError),
    /// There is no row about a format that every record holds.
    MissingFormat(GlFormat),
}

/// A record by value.
#[verifier::ext_equal]
pub struct SnapshotModel {
    pub stamp: ContextStamp,
    pub context: InfoModel,
    pub extensions: LedgerModel,
    pub limits: GlLimits,
    pub formats: Map<FormatKey, GlFormatCapabilities>,
    pub surface: GlSurfaceFacts,
    pub capabilities: Map<GlCapability, GlCapabilityFact>,
}

impl SnapshotModel {
    /// Whether a context has a capability.
    pub open spec fn supports(self, capability: GlCapability) -> bool {
        self.capabilities.contains_key(capability)
            && self.capabilities[capability].spec_enabled()
    }

    /// The record after one more capability was resolved.
    pub open spec fn resolved(
        self,
        capability: GlCapability,
        row: CoreOrExtension,
        probe: GlOperationProbe,
    ) -> SnapshotModel {
        SnapshotModel {
            capabilities: self.capabilities.insert(
                capability,
                GlCapabilityFact {
                    evidence: row.spec_resolve(self.context.profile, self.extensions),
                    probe,
                    within_limits: allowed_by(self.limits, capability),
                },
            ),
            ..self
        }
    }
}

/// The record of what was found out about one context. It belongs to the
/// context with its stamp.
#[derive(Debug)]
pub struct GlDiscoverySnapshot {
    pub stamp: ContextStamp,
    pub context: GlContextInfo,
    pub extensions: GlExtensionSet,
    pub limits: GlLimits,
    pub formats: GlFormatTable,
    pub surface: GlSurfaceFacts,
    pub capabilities: Assoc<GlCapability, GlCapabilityFact>,
}

impl View for GlDiscoverySnapshot {
    type V = SnapshotModel;

    open spec fn view(&self) -> SnapshotModel {
        SnapshotModel {
            stamp: self.stamp,
            context: self.context@,
            extensions: self.extensions@,
            limits: self.limits,
            formats: self.formats@,
            surface: self.surface,
            capabilities: self.capabilities@,
        }
    }
}

/// The row that every record holds.
pub open spec fn depth_key() -> FormatKey {
    FormatKey {
        kind: GlFormatResourceKind::Texture,
        format: GlFormat::Depth32Float,
        samples: 1,
    }
}

impl GlDiscoverySnapshot {
    pub open spec fn wf(&self) -> bool {
        self.extensions.wf() && self.formats.wf() && self.capabilities.wf()
    }

    /// A record without any capability yet. It needs a row about depth
    /// textures.
    pub fn new(
        stamp: ContextStamp,
        context: GlContextInfo,
        extensions: GlExtensionSet,
        limits: GlLimits,
        formats: GlFormatTable,
    ) -> (result: Result<Self, GlDiscoveryError>)
        requires
            extensions.wf(),
            formats.wf(),
        ensures
            result is Ok <==> formats@.contains_key(depth_key()),
            match result {
                Ok(record) => {
                    &&& record.wf()
                    &&& record@ == (SnapshotModel {
                        stamp,
                        context: context@,
                        extensions: extensions@,
                        limits,
                        formats: formats@,
                        surface: GlSurfaceFacts::Unavailable,
                        capabilities: Map::empty(),
                    })
                },
                Err(error) => error == GlDiscoveryError::MissingFormat(GlFormat::Depth32Float),
            },
    {
        if formats.get_for(GlFormatResourceKind::Texture, GlFormat::Depth32Float, 1).is_none() {
            return Err(GlDiscoveryError::MissingFormat(GlFormat::Depth32Float));
        }
        Ok(
            GlDiscoverySnapshot {
                stamp,
                context,
                extensions,
                limits,
                formats,
                surface: GlSurfaceFacts::Unavailable,
                capabilities: Assoc::new(),
            },
        )
    }

    /// Notes the drawable.
    pub fn surface_facts(&mut self, surface: GlSurfaceFacts)
        requires
            old(self).wf(),
        ensures
            final(self).wf(),
            final(self)@ == (SnapshotModel { surface, ..old(self)@ }),
    {
        self.surface = surface;
    }

    /// Notes how the context has a capability, and what was tried of it.
    pub fn resolve(
        &mut self,
        capability: GlCapability,
        row: &CoreOrExtension,
        probe: GlOperationProbe,
    )
        requires
            old(self).wf(),
        ensures
            final(self).wf(),
            final(self)@ == old(self)@.resolved(capability, *row, probe),
    {
        let evidence = row.resolve(self.context.profile, &self.extensions);
        let within_limits = match capability {
            GlCapability::MultiDrawIndirect => self.limits.supports_multi_draw_indirect(),
            GlCapability::Multiview => self.limits.max_multiview_view_count >= 2,
            _ => true,
        };
        self.capabilities.insert(
            capability,
            GlCapabilityFact { evidence, probe, within_limits },
        );
    }

    /// Whether the context has a capability.
    pub fn supports(&self, capability: GlCapability) -> (result: bool)
        requires
            self.wf(),
        ensures
            result == self@.supports(capability),
    {
        match self.capabilities.get(&capability) {
            Some(fact) => fact.enabled(),
            None => false,
        }
    }
}

/// A way to a capability is needed, but never enough: what was not seen to
/// work, and was not exempt, stays off.
pub proof fn routes_alone_enable_nothing(
    record: SnapshotModel,
    capability: GlCapability,
    row: CoreOrExtension,
    probe: GlOperationProbe,
)
    ensures
        record.resolved(capability, row, probe).supports(capability) ==> {
            &&& row.spec_resolve(record.context.profile, record.extensions) is Some
            &&& (probe is Passed || probe is NotRequired)
            &&& allowed_by(record.limits, capability)
        },
        (probe is NotRun || probe is Failed) ==> !record.resolved(
            capability,
            row,
            probe,
        ).supports(capability),
{
}

} // verus!
