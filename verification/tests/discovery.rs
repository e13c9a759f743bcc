use fluxel_gl::api::discovery::{
    GlCapability, GlCapabilityFact, GlFormatEvidence, GlFormatResourceKind, GlFormatTable, GlFormatTableError,
    GlOperationProbe, GlSurfaceFacts,
};
use fluxel_gl::api::extension::{
    CapabilityEvidence, ExtensionProvenance, GlExtensionSet, GlKnownExtension,
};
use fluxel_gl::api::format::{GlAstcBlock, GlCompressedColorSpace, GlFormat, TextureFormat};
use fluxel_gl::api::gl::GlFamilyProfile;
use fluxel_gl::api::identity::{ContextEpoch, ContextStamp, DeviceIdentity};
use fluxel_gl::native::capabilities::v13_capability_snapshot;
use fluxel_gl::native::discovery::{
    discover_with_query, discover_with_query_identified, NativeDiscoveryError,
    DRIVER_IDENTITY_UNAVAILABLE,
};
use fluxel_gl::native::formats::{
    compressed_direct_copy, float_fact, is_core_compressed_for, native_compressed_extension,
    native_optional_compressed_formats, rgba8_texture_facts, supports_multisample_texture_storage,
    texture_sample_class, TextureSampleClass,
};
use fluxel_gl::native::glow_const;
use fluxel_gl::native::probes::{ProbeAnswer, ProbeReport};
use fluxel_gl::native::query::{NativeGlProbes, NativeGlQuery, QueryLink};
use fluxel_gl::native::report::{list_capabilities, list_desktop_limits, list_typed};

struct Driver {
    version: &'static str,
    extensions: Vec<&'static str>,
    silent: u32,
    dirty: bool,
    bound: i64,
    depth_samples: i64,
}

impl NativeGlQuery for Driver {
    fn take_error(&mut self) -> bool {
        self.dirty
    }

    fn string(&mut self, name: u32) -> Option<String> {
        if name == self.silent {
            return None;
        }
        match name {
            glow_const::VERSION => Some(self.version.to_owned()),
            glow_const::SHADING_LANGUAGE_VERSION => Some("4.60".to_owned()),
            glow_const::VENDOR => Some("Vendor".to_owned()),
            glow_const::RENDERER => Some("Renderer".to_owned()),
            _ => None,
        }
    }

    fn integer(&mut self, name: u32) -> Option<i64> {
        if name == self.silent {
            return None;
        }
        match name {
            glow_const::NUM_EXTENSIONS => Some(self.extensions.len() as i64),
            glow_const::DRAW_FRAMEBUFFER_BINDING => Some(self.bound),
            glow_const::MAX_TEXTURE_SIZE => Some(16384),
            glow_const::MAX_SAMPLES => Some(4),
            glow_const::MAX_COLOR_TEXTURE_SAMPLES => Some(8),
            glow_const::MAX_DEPTH_TEXTURE_SAMPLES => Some(self.depth_samples),
            glow_const::SAMPLES | glow_const::SAMPLE_BUFFERS => Some(0),
            glow_const::CONTEXT_FLAGS => Some(2),
            _ => Some(16),
        }
    }

    fn integer_pair(&mut self, name: u32) -> Option<(i64, i64)> {
        assert_eq!(name, glow_const::MAX_VIEWPORT_DIMS);
        Some((8192, 4096))
    }

    fn indexed_integer(&mut self, _: u32, index: u32) -> Option<i64> {
        Some(1024 + i64::from(index))
    }

    fn float(&mut self, _: u32) -> Option<u32> {
        Some(16.0f32.to_bits())
    }

    fn indexed_string(&mut self, name: u32, index: u32) -> Option<String> {
        assert_eq!(name, glow_const::EXTENSIONS);
        self.extensions.get(index as usize).map(|name| (*name).to_owned())
    }

    fn drawable_attachment(&mut self, _: u32, name: u32) -> Option<i64> {
        match name {
            glow_const::FRAMEBUFFER_ATTACHMENT_OBJECT_TYPE => Some(0x8218),
            glow_const::FRAMEBUFFER_ATTACHMENT_DEPTH_SIZE => Some(24),
            _ => Some(8),
        }
    }
}

struct Probes {
    report: ProbeReport,
}

impl NativeGlProbes for Probes {
    fn run_operation_probes(
        &mut self,
        _: GlFamilyProfile,
        _: &GlExtensionSet,
    ) -> ProbeReport {
        self.report
    }
}

fn stamp() -> ContextStamp {
    ContextStamp::new(DeviceIdentity::new(3).unwrap(), ContextEpoch::initial())
}

fn desktop() -> Driver {
    Driver {
        version: "4.6.0 Vendor",
        extensions: vec!["GL_ARB_compute_shader", "GL_EXT_texture_filter_anisotropic", "GL_other"],
        silent: 0,
        dirty: false,
        bound: 0,
        depth_samples: 2,
    }
}

fn passing() -> ProbeReport {
    ProbeReport {
        compute: ProbeAnswer::Passed,
        rgba8_storage: ProbeAnswer::Failed,
        depth_texture_attachment: ProbeAnswer::Passed,
        rgba16f_attachment: ProbeAnswer::Passed,
        rgba32f_attachment: ProbeAnswer::Failed,
        query_counter_bits: Some(64),
        ..ProbeReport::nothing()
    }
}

#[test]
fn a_desktop_context_is_recorded() {
    let mut link = QueryLink::new(desktop(), Probes { report: passing() });
    let record = discover_with_query_identified(&mut link, stamp(), " driver 1 ").unwrap();
    assert_eq!(record.stamp, stamp());
    assert_eq!(record.context.profile, GlFamilyProfile::Desktop { major: 4, minor: 6 });
    assert_eq!(record.context.vendor, "Vendor");
    assert_eq!(record.context.driver, "driver 1");
    assert!(record.context.flags.debug);
    assert!(record.context.flags.other.contains("gl.desktop-context-floor=4.0"));
    assert_eq!(record.limits.max_texture_size, 16384);
    assert_eq!(record.limits.max_viewport_dimensions, (8192, 4096));
    assert_eq!(record.limits.max_compute_work_group_count, (1024, 1025, 1026));
    assert_eq!(record.limits.query_counter_bits, 64);
    assert_eq!(record.limits.max_texture_anisotropy, Some(16.0f32.to_bits()));
    assert_eq!(record.surface, GlSurfaceFacts::Observed { color_bits: (8, 8, 8, 8) });
    assert!(record.supports(GlCapability::Compute));
    assert!(!record.supports(GlCapability::StorageImage));
    assert_eq!(
        record.extensions.provenance(GlKnownExtension::ArbComputeShader),
        Some(ExtensionProvenance::Probed)
    );
}

#[test]
fn formats_are_recorded_up_to_their_ceiling() {
    let mut link = QueryLink::new(desktop(), Probes { report: passing() });
    let record = discover_with_query(&mut link, stamp()).unwrap();
    assert_eq!(record.context.driver, DRIVER_IDENTITY_UNAVAILABLE);
    let texture = GlFormatResourceKind::Texture;
    let formats = &record.formats;
    assert!(formats.get_for(texture, GlFormat::Rgba8Unorm, 8).is_some());
    assert!(formats.get_for(texture, GlFormat::Rgba8Unorm, 16).is_none());
    assert!(formats.get_for(texture, GlFormat::Depth32Float, 2).is_some());
    assert!(formats.get_for(texture, GlFormat::Depth32Float, 4).is_none());
    let buffer = GlFormatResourceKind::Renderbuffer;
    assert!(formats.get_for(buffer, GlFormat::Rgba8Srgb, 4).is_some());
    assert!(formats.get_for(buffer, GlFormat::Rgba8Srgb, 8).is_none());
    let half = formats.get_for(texture, GlFormat::Rgba16Float, 1).unwrap();
    assert!(half.renderable && half.blendable && half.copy_source);
    let full = formats.get_for(texture, GlFormat::Rgba32Float, 1).unwrap();
    assert!(!full.renderable && !full.blendable && full.filterable);
    let plain = formats.get_for(texture, GlFormat::Rgba8Unorm, 1).unwrap();
    assert_eq!(plain.evidence, GlFormatEvidence::OperationProbed);
    assert!(!plain.storage_read);
}

#[test]
fn each_refusal_has_its_reason() {
    let mut dirty = QueryLink::new(Driver { dirty: true, ..desktop() }, Probes { report: passing() });
    assert!(matches!(
        discover_with_query(&mut dirty, stamp()),
        Err(NativeDiscoveryError::PreExistingGlError)
    ));
    let mut old =
        QueryLink::new(Driver { version: "3.3", ..desktop() }, Probes { report: passing() });
    assert!(matches!(
        discover_with_query(&mut old, stamp()),
        Err(NativeDiscoveryError::UnsupportedProfile(text)) if text == "3.3"
    ));
    let mut nameless = QueryLink::new(
        Driver { silent: glow_const::VENDOR, ..desktop() },
        Probes { report: passing() },
    );
    assert!(matches!(
        discover_with_query(&mut nameless, stamp()),
        Err(NativeDiscoveryError::InvalidContextString("GL_VENDOR"))
    ));
    let mut limitless = QueryLink::new(
        Driver { silent: glow_const::MAX_TEXTURE_SIZE, ..desktop() },
        Probes { report: passing() },
    );
    assert!(matches!(
        discover_with_query(&mut limitless, stamp()),
        Err(NativeDiscoveryError::QueryFailed("GL_MAX_TEXTURE_SIZE"))
    ));
}

#[test]
fn an_offscreen_binding_hides_the_drawable() {
    let mut link = QueryLink::new(Driver { bound: 5, ..desktop() }, Probes { report: passing() });
    let record = discover_with_query(&mut link, stamp()).unwrap();
    assert_eq!(record.surface, GlSurfaceFacts::Unavailable);
    let facts = record.context.flags.other.sorted();
    let surface: Vec<&String> =
        facts.iter().filter(|fact| fact.starts_with("gl.surface-")).collect();
    assert_eq!(surface, vec!["gl.surface-facts-unavailable=draw-framebuffer-bound"]);
}

#[test]
fn an_observed_drawable_leaves_no_reason() {
    let mut link = QueryLink::new(desktop(), Probes { report: passing() });
    let record = discover_with_query(&mut link, stamp()).unwrap();
    let facts = record.context.flags.other.sorted();
    assert!(facts.iter().any(|fact| fact == "gl.surface-color-bits=8,8,8,8"));
    assert!(facts.iter().any(|fact| fact == "gl.surface-depth-bits=24"));
    assert!(!facts.iter().any(|fact| fact.starts_with("gl.surface-facts-unavailable=")));
}

#[test]
fn integer_formats_are_sampled_as_integers() {
    for format in [
        GlFormat::R8Uint,
        GlFormat::Rgba8Sint,
        GlFormat::Rg16Uint,
        GlFormat::Rgba16Sint,
        GlFormat::R32Uint,
        GlFormat::Rgba32Sint,
    ] {
        assert_eq!(texture_sample_class(format), TextureSampleClass::Integer);
    }
    assert_eq!(texture_sample_class(GlFormat::Rgba8Unorm), TextureSampleClass::Color);
    assert_eq!(texture_sample_class(GlFormat::Depth32Float), TextureSampleClass::DepthStencil);
}

#[test]
fn float_formats_are_rendered_to_only_where_that_was_seen() {
    let embedded =
        Driver { version: "OpenGL ES 3.1 Vendor", extensions: vec![], depth_samples: 4, ..desktop() };
    let mut link = QueryLink::new(embedded, Probes { report: ProbeReport::nothing() });
    let record = discover_with_query(&mut link, stamp()).unwrap();
    assert_eq!(record.context.profile, GlFamilyProfile::Embedded { major: 3, minor: 1 });
    for format in [GlFormat::Depth32Float, GlFormat::Rgba16Float, GlFormat::Rgba32Float] {
        for kind in [GlFormatResourceKind::Texture, GlFormatResourceKind::Renderbuffer] {
            for samples in 1..17 {
                if let Some(row) = record.formats.get_for(kind, format, samples) {
                    assert!(!row.renderable);
                }
            }
        }
    }
    let mut link = QueryLink::new(desktop(), Probes { report: passing() });
    let record = discover_with_query(&mut link, stamp()).unwrap();
    let row = record.formats.get_for(GlFormatResourceKind::Texture, GlFormat::Depth32Float, 2);
    let row = row.unwrap();
    assert!(row.renderable);
    assert_eq!(row.evidence, GlFormatEvidence::OperationProbed);
}

#[test]
fn a_record_is_published_as_it_is() {
    let mut link = QueryLink::new(desktop(), Probes { report: passing() });
    let record = discover_with_query(&mut link, stamp()).unwrap();
    let facts = v13_capability_snapshot(&record);
    assert_eq!(facts.profile, record.context.profile);
    assert_eq!(facts.feature_probe.profile, record.context.profile);
    assert_eq!(facts.limits, record.limits);
    assert!(facts.formats.iter().any(|row| row.format == TextureFormat::Rgba8Unorm));
    assert!(!facts.textures.is_empty());
    for row in &facts.textures {
        assert_eq!(row.query.sample_count, 1);
        assert!(!row.query.usage.storage && !row.query.usage.depth_stencil_attachment);
    }
    let rows = list_capabilities(&record);
    assert!(rows.iter().any(|row| row.name == "compute" && row.supported));
    let limits = list_desktop_limits(&record.limits);
    assert!(limits.iter().any(|row| row.name == "max_texture_size" && row.value == "16384"));
    let typed = list_typed(&record.extensions.raw.sorted(), &record.extensions);
    assert_eq!(typed.len(), 2);
}

#[test]
fn a_second_opinion_on_a_format_is_a_conflict() {
    let mut table = GlFormatTable::new();
    let row = rgba8_texture_facts();
    assert_eq!(table.record(row), Ok(()));
    assert_eq!(table.record(row), Ok(()));
    let mut other = row;
    other.renderable = false;
    assert!(matches!(table.record(other), Err(GlFormatTableError::Conflict(_))));
    let mut float = row;
    float.format = GlFormat::Rgba16Float;
    assert!(matches!(
        table.record(float),
        Err(GlFormatTableError::UnsupportedCoreGuarantee(GlFormat::Rgba16Float))
    ));
}

#[test]
fn float_facts_follow_their_probe() {
    let failed = float_fact(GlFormat::Rgba32Float, true, ProbeAnswer::Failed, true);
    assert!(!failed.renderable && !failed.blendable && !failed.copy_source);
    let passed = float_fact(GlFormat::Rgba32Float, false, ProbeAnswer::Passed, false);
    assert!(passed.renderable && !passed.blendable && passed.copy_destination);
}

#[test]
fn compressed_formats_have_their_routes() {
    let embedded = GlFamilyProfile::Embedded { major: 3, minor: 0 };
    let desktop = GlFamilyProfile::Desktop { major: 4, minor: 3 };
    assert!(is_core_compressed_for(GlFormat::Etc2Rgb8Unorm, embedded));
    assert!(!is_core_compressed_for(GlFormat::Bc7RgbaUnorm, embedded));
    assert!(compressed_direct_copy(desktop));
    assert!(!compressed_direct_copy(embedded));
    assert!(!compressed_direct_copy(GlFamilyProfile::WebGl2));
    assert!(supports_multisample_texture_storage(desktop));
    assert!(!supports_multisample_texture_storage(embedded));
    assert_eq!(native_optional_compressed_formats().len(), 16 + 3 * 14 + 10);
    let astc = GlFormat::Astc {
        block: GlAstcBlock::B4x4,
        color_space: GlCompressedColorSpace::Hdr,
    };
    let mut extensions = GlExtensionSet::new();
    let hdr = GlKnownExtension::KhrTextureCompressionAstcHdr;
    assert_eq!(native_compressed_extension(astc, &extensions), None);
    extensions.report_raw(hdr.raw_name());
    extensions.acquire(hdr);
    assert_eq!(native_compressed_extension(astc, &extensions), Some(hdr));
}

#[test]
fn a_route_alone_enables_nothing() {
    let route = CapabilityEvidence::Extension(GlKnownExtension::ArbComputeShader);
    let fact = |evidence, probe, within_limits| {
        GlCapabilityFact { evidence, probe, within_limits }.enabled()
    };
    assert!(!fact(Some(route), GlOperationProbe::NotRun, true));
    assert!(!fact(Some(route), GlOperationProbe::Failed, true));
    assert!(!fact(Some(route), GlOperationProbe::Passed, false));
    assert!(!fact(None, GlOperationProbe::Passed, true));
    assert!(fact(Some(route), GlOperationProbe::Passed, true));
    assert!(fact(Some(route), GlOperationProbe::NotRequired, true));
}
