//! What the operations that were tried on a context showed.

use vstd::prelude::*;
use crate::api::discovery::GlOperationProbe;
use crate::api::extension::{
    ExtensionProvenance, GlExtensionSet, GlKnownExtension, LedgerModel,
};
use crate::api::gl::GlFamilyProfile;

verus! {

/// The outcome of one operation.
#[derive(Clone, Copy, Debug, PartialEq, Eq, Structural)]
pub enum ProbeAnswer {
    /// It could not be tried.
    Unavailable,
    /// The driver refused it.
    Failed,
    Passed,
}

impl ProbeAnswer {
    /// Whether the operation was tried.
    pub open spec fn spec_ran(self) -> bool {
        !(self is Unavailable)
    }

    pub fn ran(self) -> (result: bool)
        ensures
            result == self.spec_ran(),
    {
        match self {
            ProbeAnswer::Unavailable => false,
            ProbeAnswer::Failed | ProbeAnswer::Passed => true,
        }
    }

    /// The outcome as a record states it.
    pub open spec fn spec_to_operation_probe(self) -> GlOperationProbe {
        match self {
            ProbeAnswer::Unavailable => GlOperationProbe::NotRun,
            ProbeAnswer::Failed => GlOperationProbe::Failed,
            ProbeAnswer::Passed => GlOperationProbe::Passed,
        }
    }

    pub fn to_operation_probe(self) -> (result: GlOperationProbe)
        ensures
            result == self.spec_to_operation_probe(),
    {
        match self {
            ProbeAnswer::Unavailable => GlOperationProbe::NotRun,
            ProbeAnswer::Failed => GlOperationProbe::Failed,
            ProbeAnswer::Passed => GlOperationProbe::Passed,
        }
    }
}

/// The outcomes of all operations that were tried.
#[derive(Clone, Copy, Debug, PartialEq, Eq, Structural)]
pub struct ProbeReport {
    pub compute: ProbeAnswer,
    pub storage_buffer: ProbeAnswer,
    pub storage_image: ProbeAnswer,
    pub indirect_draw: ProbeAnswer,
    pub indirect_dispatch: ProbeAnswer,
    pub multi_draw_indirect: ProbeAnswer,
    pub rgba8_storage: ProbeAnswer,
    pub depth_texture_attachment: ProbeAnswer,
    pub depth_renderbuffer_attachment: ProbeAnswer,
    pub rgba16f_attachment: ProbeAnswer,
    pub rgba32f_attachment: ProbeAnswer,
    /// How many bits the time counter has, if the driver says.
    pub query_counter_bits: Option<u32>,
}

impl ProbeReport {
    /// Nothing could be tried.
    pub open spec fn spec_nothing() -> ProbeReport {
        ProbeReport {
            compute: ProbeAnswer::Unavailable,
            storage_buffer: ProbeAnswer::Unavailable,
            storage_image: ProbeAnswer::Unavailable,
            indirect_draw: ProbeAnswer::Unavailable,
            indirect_dispatch: ProbeAnswer::Unavailable,
            multi_draw_indirect: ProbeAnswer::Unavailable,
            rgba8_storage: ProbeAnswer::Unavailable,
            depth_texture_attachment: ProbeAnswer::Unavailable,
            depth_renderbuffer_attachment: ProbeAnswer::Unavailable,
            rgba16f_attachment: ProbeAnswer::Unavailable,
            rgba32f_attachment: ProbeAnswer::Unavailable,
            query_counter_bits: None,
        }
    }

    pub fn nothing() -> (result: Self)
        ensures
            result == ProbeReport::spec_nothing(),
    {
        ProbeReport {
            compute: ProbeAnswer::Unavailable,
            storage_buffer: ProbeAnswer::Unavailable,
            storage_image: ProbeAnswer::Unavailable,
            indirect_draw: ProbeAnswer::Unavailable,
            indirect_dispatch: ProbeAnswer::Unavailable,
            multi_draw_indirect: ProbeAnswer::Unavailable,
            rgba8_storage: ProbeAnswer::Unavailable,
            depth_texture_attachment: ProbeAnswer::Unavailable,
            depth_renderbuffer_attachment: ProbeAnswer::Unavailable,
            rgba16f_attachment: ProbeAnswer::Unavailable,
            rgba32f_attachment: ProbeAnswer::Unavailable,
            query_counter_bits: None,
        }
    }
}

/// The operation that shows that an extension works.
pub open spec fn shows_extension(report: ProbeReport, extension: GlKnownExtension) -> ProbeAnswer {
    match extension {
        GlKnownExtension::ArbComputeShader => report.compute,
        GlKnownExtension::ArbShaderStorageBufferObject => report.storage_buffer,
        GlKnownExtension::ArbShaderImageLoadStore => report.storage_image,
        _ => ProbeAnswer::Unavailable,
    }
}

/// The ledger after one extension was compared with its operation. Only an
/// extension that the family can have, and whose operation passed, moves on.
pub open spec fn promoted(
    ledger: LedgerModel,
    profile: GlFamilyProfile,
    report: ProbeReport,
    extension: GlKnownExtension,
) -> LedgerModel {
    if extension.spec_is_legal_for(profile) && shows_extension(report, extension) is Passed {
        ledger.moved(extension, ExtensionProvenance::Acquired, ExtensionProvenance::Probed)
    } else {
        ledger
    }
}

/// The ledger after all operations.
pub open spec fn with_probes(
    ledger: LedgerModel,
    profile: GlFamilyProfile,
    report: ProbeReport,
) -> LedgerModel {
    promoted(
        promoted(
            promoted(ledger, profile, report, GlKnownExtension::ArbComputeShader),
            profile,
            report,
            GlKnownExtension::ArbShaderStorageBufferObject,
        ),
        profile,
        report,
        GlKnownExtension::ArbShaderImageLoadStore,
    )
}

fn promote(
    profile: GlFamilyProfile,
    answer: ProbeAnswer,
    extension: GlKnownExtension,
    extensions: &mut GlExtensionSet,
)
    requires
        old(extensions).wf(),
    ensures
        final(extensions).wf(),
        final(extensions)@ == (if extension.spec_is_legal_for(profile) && answer is Passed {
            old(extensions)@.moved(
                extension,
                ExtensionProvenance::Acquired,
                ExtensionProvenance::Probed,
            )
        } else {
            old(extensions)@
        }),
{
    match answer {
        ProbeAnswer::Passed => {
            if extension.is_legal_for(profile) {
                let _ = extensions.probe(extension);
            }
        },
        _ => {},
    }
}

/// Moves the extensions on whose operation ran and passed.
pub fn record_extension_probes(
    profile: GlFamilyProfile,
    report: &ProbeReport,
    extensions: &mut GlExtensionSet,
)
    requires
        old(extensions).wf(),
    ensures
        final(extensions).wf(),
        final(extensions)@ == with_probes(old(extensions)@, profile, *report),
{
    promote(profile, report.compute, GlKnownExtension::ArbComputeShader, extensions);
    promote(
        profile,
        report.storage_buffer,
        GlKnownExtension::ArbShaderStorageBufferObject,
        extensions,
    );
    promote(
        profile,
        report.storage_image,
        GlKnownExtension::ArbShaderImageLoadStore,
        extensions,
    );
}

/// An extension is seen to work exactly if it already was, or if it was
/// acquired, the family can have it, and its own operation passed. Everything
/// else in the ledger stays as it was.
pub proof fn only_passed_operations_promote(
    ledger: LedgerModel,
    profile: GlFamilyProfile,
    report: ProbeReport,
    extension: GlKnownExtension,
)
    ensures
        with_probes(ledger, profile, report).is_probed(extension) <==> (ledger.is_probed(extension)
            || (ledger.provenance(extension) == Some(ExtensionProvenance::Acquired)
            && extension.spec_is_legal_for(profile) && shows_extension(
            report,
            extension,
        ) is Passed)),
        with_probes(ledger, profile, report).is_acquired(extension) == ledger.is_acquired(extension),
        !with_probes(ledger, profile, report).is_probed(extension) ==> with_probes(
            ledger,
            profile,
            report,
        ).provenance(extension) == ledger.provenance(extension),
        with_probes(ledger, profile, report).raw == ledger.raw,
{
}

} // verus!
