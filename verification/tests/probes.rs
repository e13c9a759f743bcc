use fluxel_gl::api::discovery::GlOperationProbe;
use fluxel_gl::api::extension::{
    CapabilityEvidence, CoreOrExtension, ExtensionProvenance, GlExtensionSet, GlKnownExtension,
};
use fluxel_gl::api::gl::{GlFamilyProfile, GlVersion};
use fluxel_gl::native::probes::{record_extension_probes, ProbeAnswer, ProbeReport};

const DESKTOP_42: GlFamilyProfile = GlFamilyProfile::Desktop { major: 4, minor: 2 };

/// A report in which only the compute probe answered; every other field
/// stays at its fail-closed default.
fn compute_only(answer: ProbeAnswer) -> ProbeReport {
    ProbeReport { compute: answer, ..ProbeReport::nothing() }
}

/// A ledger that reported and acquired the desktop compute extension.
fn acquired_compute() -> GlExtensionSet {
    let mut extensions = GlExtensionSet::new();
    extensions.report_raw(GlKnownExtension::ArbComputeShader.raw_name());
    assert!(extensions.acquire(GlKnownExtension::ArbComputeShader));
    extensions
}

#[test]
fn a_passed_probe_is_what_lets_the_extension_route_resolve() {
    let compute_row = CoreOrExtension {
        desktop_core: Some(GlVersion::new(4, 3)),
        embedded_core: Some(GlVersion::new(3, 1)),
        extension: Some(GlKnownExtension::ArbComputeShader),
        extension_requires_probe: true,
    };
    let mut extensions = acquired_compute();
    assert_eq!(compute_row.resolve(DESKTOP_42, &extensions), None);
    record_extension_probes(
        DESKTOP_42,
        &compute_only(ProbeAnswer::Passed),
        &mut extensions,
    );
    assert_eq!(
        compute_row.resolve(DESKTOP_42, &extensions),
        Some(CapabilityEvidence::Extension(
            GlKnownExtension::ArbComputeShader
        ))
    );
    assert_eq!(
        compute_row.resolve(GlFamilyProfile::Desktop { major: 4, minor: 6 }, &extensions),
        Some(CapabilityEvidence::Core(GlFamilyProfile::Desktop {
            major: 4,
            minor: 6
        }))
    );
}

#[test]
fn a_passed_probe_promotes_an_acquired_extension_to_probed() {
    let mut extensions = acquired_compute();
    record_extension_probes(
        DESKTOP_42,
        &compute_only(ProbeAnswer::Passed),
        &mut extensions,
    );
    assert!(extensions.is_probed(GlKnownExtension::ArbComputeShader));
    assert!(extensions.is_acquired(GlKnownExtension::ArbComputeShader));
}

#[test]
fn a_probe_that_did_not_pass_leaves_the_ledger_acquired() {
    for answer in [ProbeAnswer::Unavailable, ProbeAnswer::Failed] {
        let mut extensions = acquired_compute();
        record_extension_probes(DESKTOP_42, &compute_only(answer), &mut extensions);
        assert_eq!(
            extensions.provenance(GlKnownExtension::ArbComputeShader),
            Some(ExtensionProvenance::Acquired),
            "{answer:?}"
        );
        assert!(!extensions.is_probed(GlKnownExtension::ArbComputeShader));
    }
}

#[test]
fn a_merely_reported_name_is_never_promoted_by_a_probe() {
    let mut extensions = GlExtensionSet::new();
    extensions.report_raw(GlKnownExtension::ArbComputeShader.raw_name());
    record_extension_probes(
        DESKTOP_42,
        &compute_only(ProbeAnswer::Passed),
        &mut extensions,
    );
    assert_eq!(
        extensions.provenance(GlKnownExtension::ArbComputeShader),
        Some(ExtensionProvenance::Reported)
    );
}

#[test]
fn a_failed_acquisition_is_not_revived_by_a_probe() {
    let mut extensions = GlExtensionSet::new();
    extensions.report_raw(GlKnownExtension::ArbComputeShader.raw_name());
    assert!(extensions.fail(GlKnownExtension::ArbComputeShader));
    record_extension_probes(
        DESKTOP_42,
        &compute_only(ProbeAnswer::Passed),
        &mut extensions,
    );
    assert_eq!(
        extensions.provenance(GlKnownExtension::ArbComputeShader),
        Some(ExtensionProvenance::Failed)
    );
}

#[test]
fn a_route_illegal_for_the_profile_is_never_promoted() {
    let mut extensions = acquired_compute();
    record_extension_probes(
        GlFamilyProfile::WebGl2,
        &compute_only(ProbeAnswer::Passed),
        &mut extensions,
    );
    assert!(!extensions.is_probed(GlKnownExtension::ArbComputeShader));
}

#[test]
fn a_probe_only_promotes_the_extension_it_belongs_to() {
    let mut extensions = GlExtensionSet::new();
    for extension in [
        GlKnownExtension::ArbComputeShader,
        GlKnownExtension::ArbShaderStorageBufferObject,
        GlKnownExtension::ArbShaderImageLoadStore,
    ] {
        extensions.report_raw(extension.raw_name());
        assert!(extensions.acquire(extension));
    }
    let report = ProbeReport { storage_buffer: ProbeAnswer::Passed, ..ProbeReport::nothing() };
    record_extension_probes(DESKTOP_42, &report, &mut extensions);
    assert!(extensions.is_probed(GlKnownExtension::ArbShaderStorageBufferObject));
    assert!(!extensions.is_probed(GlKnownExtension::ArbComputeShader));
    assert!(!extensions.is_probed(GlKnownExtension::ArbShaderImageLoadStore));
}

#[test]
fn an_answer_says_whether_the_probe_ran() {
    assert!(!ProbeAnswer::Unavailable.ran());
    assert!(ProbeAnswer::Failed.ran());
    assert!(ProbeAnswer::Passed.ran());
    assert_eq!(ProbeAnswer::Unavailable.to_operation_probe(), GlOperationProbe::NotRun);
    assert_eq!(ProbeAnswer::Failed.to_operation_probe(), GlOperationProbe::Failed);
    assert_eq!(ProbeAnswer::Passed.to_operation_probe(), GlOperationProbe::Passed);
}

#[test]
fn extension_names_lead_back_to_their_extension() {
    let extension = GlKnownExtension::KhrTextureCompressionAstcHdr;
    assert_eq!(GlKnownExtension::from_raw_name(extension.raw_name()), Some(extension));
    assert_eq!(GlKnownExtension::from_raw_name("GL_ARB_compute_shade"), None);
}

#[test]
fn a_name_alone_acquires_nothing() {
    let mut extensions = GlExtensionSet::new();
    assert!(!extensions.acquire(GlKnownExtension::KhrDebug));
    assert!(!extensions.probe(GlKnownExtension::KhrDebug));
    extensions.report_raw(GlKnownExtension::KhrDebug.raw_name());
    assert!(!extensions.is_acquired(GlKnownExtension::KhrDebug));
    assert!(extensions.acquire(GlKnownExtension::KhrDebug));
    extensions.report_raw(GlKnownExtension::KhrDebug.raw_name());
    assert!(extensions.is_acquired(GlKnownExtension::KhrDebug));
}
