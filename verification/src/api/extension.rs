//! The ledger of extensions: what a driver reported, what was acquired, and
//! what was seen to work.

use vstd::prelude::*;
use crate::api::gl::{GlFamilyProfile, GlVersion};
use crate::assoc::Assoc;
use crate::exact::Exact;
use crate::text::TextSet;

verus! {

/// An extension that the library knows.
#[derive(Clone, Copy, Debug, PartialEq, Eq, Structural)]
pub enum GlKnownExtension {
    ArbComputeShader,
    ArbShaderStorageBufferObject,
    ArbShaderImageLoadStore,
    ArbDrawIndirect,
    ExtTextureFilterAnisotropic,
    OesTextureFloatLinear,
    KhrRobustness,
    KhrDebug,
    WebglMultiDraw,
    OvrMultiview2,
    ExtTextureCompressionS3tc,
    CompressedTextureS3tcSrgb,
    ExtTextureCompressionRgtc,
    ArbTextureCompressionBptc,
    ArbEs3Compatibility,
    OesCompressedEtc2Rgb8Texture,
    KhrTextureCompressionAstcLdr,
    KhrTextureCompressionAstcHdr,
}

impl Exact for GlKnownExtension {
    fn same(&self, other: &Self) -> (result: bool) {
        *self == *other
    }
}

impl GlKnownExtension {
    /// The name under which drivers report the extension.
    pub open spec fn spec_raw_name(self) -> &'static str {
        match self {
            GlKnownExtension::ArbComputeShader => "GL_ARB_compute_shader",
            GlKnownExtension::ArbShaderStorageBufferObject => "GL_ARB_shader_storage_buffer_object",
            GlKnownExtension::ArbShaderImageLoadStore => "GL_ARB_shader_image_load_store",
            GlKnownExtension::ArbDrawIndirect => "GL_ARB_draw_indirect",
            GlKnownExtension::ExtTextureFilterAnisotropic => "GL_EXT_texture_filter_anisotropic",
            GlKnownExtension::OesTextureFloatLinear => "GL_OES_texture_float_linear",
            GlKnownExtension::KhrRobustness => "GL_KHR_robustness",
            GlKnownExtension::KhrDebug => "GL_KHR_debug",
            GlKnownExtension::WebglMultiDraw => "WEBGL_multi_draw",
            GlKnownExtension::OvrMultiview2 => "GL_OVR_multiview2",
            GlKnownExtension::ExtTextureCompressionS3tc => "GL_EXT_texture_compression_s3tc",
            GlKnownExtension::CompressedTextureS3tcSrgb => "GL_EXT_texture_compression_s3tc_srgb",
            GlKnownExtension::ExtTextureCompressionRgtc => "GL_EXT_texture_compression_rgtc",
            GlKnownExtension::ArbTextureCompressionBptc => "GL_ARB_texture_compression_bptc",
            GlKnownExtension::ArbEs3Compatibility => "GL_ARB_ES3_compatibility",
            GlKnownExtension::OesCompressedEtc2Rgb8Texture => "GL_OES_compressed_ETC2_RGB8_texture",
            GlKnownExtension::KhrTextureCompressionAstcLdr => "GL_KHR_texture_compression_astc_ldr",
            GlKnownExtension::KhrTextureCompressionAstcHdr => "GL_KHR_texture_compression_astc_hdr",
        }
    }

    pub fn raw_name(self) -> (result: &'static str)
        ensures
            result == self.spec_raw_name(),
    {
        match self {
            GlKnownExtension::ArbComputeShader => "GL_ARB_compute_shader",
            GlKnownExtension::ArbShaderStorageBufferObject => "GL_ARB_shader_storage_buffer_object",
            GlKnownExtension::ArbShaderImageLoadStore => "GL_ARB_shader_image_load_store",
            GlKnownExtension::ArbDrawIndirect => "GL_ARB_draw_indirect",
            GlKnownExtension::ExtTextureFilterAnisotropic => "GL_EXT_texture_filter_anisotropic",
            GlKnownExtension::OesTextureFloatLinear => "GL_OES_texture_float_linear",
            GlKnownExtension::KhrRobustness => "GL_KHR_robustness",
            GlKnownExtension::KhrDebug => "GL_KHR_debug",
            GlKnownExtension::WebglMultiDraw => "WEBGL_multi_draw",
            GlKnownExtension::OvrMultiview2 => "GL_OVR_multiview2",
            GlKnownExtension::ExtTextureCompressionS3tc => "GL_EXT_texture_compression_s3tc",
            GlKnownExtension::CompressedTextureS3tcSrgb => "GL_EXT_texture_compression_s3tc_srgb",
            GlKnownExtension::ExtTextureCompressionRgtc => "GL_EXT_texture_compression_rgtc",
            GlKnownExtension::ArbTextureCompressionBptc => "GL_ARB_texture_compression_bptc",
            GlKnownExtension::ArbEs3Compatibility => "GL_ARB_ES3_compatibility",
            GlKnownExtension::OesCompressedEtc2Rgb8Texture => "GL_OES_compressed_ETC2_RGB8_texture",
            GlKnownExtension::KhrTextureCompressionAstcLdr => "GL_KHR_texture_compression_astc_ldr",
            GlKnownExtension::KhrTextureCompressionAstcHdr => "GL_KHR_texture_compression_astc_hdr",
        }
    }

    /// Whether the family of a context can have the extension.
    pub open spec fn spec_is_legal_for(self, profile: GlFamilyProfile) -> bool {
        match self {
            GlKnownExtension::ArbComputeShader | GlKnownExtension::ArbShaderStorageBufferObject | GlKnownExtension::ArbShaderImageLoadStore | GlKnownExtension::ArbDrawIndirect | GlKnownExtension::ArbTextureCompressionBptc | GlKnownExtension::ArbEs3Compatibility => profile is Desktop,
            GlKnownExtension::ExtTextureFilterAnisotropic | GlKnownExtension::ExtTextureCompressionS3tc | GlKnownExtension::CompressedTextureS3tcSrgb | GlKnownExtension::ExtTextureCompressionRgtc | GlKnownExtension::KhrTextureCompressionAstcLdr | GlKnownExtension::KhrTextureCompressionAstcHdr => profile is Desktop || profile is Embedded || profile is WebGl2,
            GlKnownExtension::OesTextureFloatLinear | GlKnownExtension::OvrMultiview2 => profile is Embedded || profile is WebGl2,
            GlKnownExtension::KhrRobustness | GlKnownExtension::KhrDebug => profile is Desktop || profile is Embedded,
            GlKnownExtension::WebglMultiDraw => profile is WebGl2,
            GlKnownExtension::OesCompressedEtc2Rgb8Texture => profile is Embedded,
        }
    }

    pub fn is_legal_for(self, profile: GlFamilyProfile) -> (result: bool)
        ensures
            result == self.spec_is_legal_for(profile),
    {
        match self {
            GlKnownExtension::ArbComputeShader | GlKnownExtension::ArbShaderStorageBufferObject | GlKnownExtension::ArbShaderImageLoadStore | GlKnownExtension::ArbDrawIndirect | GlKnownExtension::ArbTextureCompressionBptc | GlKnownExtension::ArbEs3Compatibility => match profile {
                GlFamilyProfile::Desktop { .. } => true,
                _ => false,
            },
            GlKnownExtension::ExtTextureFilterAnisotropic | GlKnownExtension::ExtTextureCompressionS3tc | GlKnownExtension::CompressedTextureS3tcSrgb | GlKnownExtension::ExtTextureCompressionRgtc | GlKnownExtension::KhrTextureCompressionAstcLdr | GlKnownExtension::KhrTextureCompressionAstcHdr => true,
            GlKnownExtension::OesTextureFloatLinear | GlKnownExtension::OvrMultiview2 => match profile {
                GlFamilyProfile::Embedded { .. } | GlFamilyProfile::WebGl2 => true,
                _ => false,
            },
            GlKnownExtension::KhrRobustness | GlKnownExtension::KhrDebug => match profile {
                GlFamilyProfile::Desktop { .. } | GlFamilyProfile::Embedded { .. } => true,
                _ => false,
            },
            GlKnownExtension::WebglMultiDraw => match profile {
                GlFamilyProfile::WebGl2 => true,
                _ => false,
            },
            GlKnownExtension::OesCompressedEtc2Rgb8Texture => match profile {
                GlFamilyProfile::Embedded { .. } => true,
                _ => false,
            },
        }
    }
}

/// All extensions that the library knows.
pub open spec fn known_extensions() -> Seq<GlKnownExtension> {
    seq![
        GlKnownExtension::ArbComputeShader,
        GlKnownExtension::ArbShaderStorageBufferObject,
        GlKnownExtension::ArbShaderImageLoadStore,
        GlKnownExtension::ArbDrawIndirect,
        GlKnownExtension::ExtTextureFilterAnisotropic,
        GlKnownExtension::OesTextureFloatLinear,
        GlKnownExtension::KhrRobustness,
        GlKnownExtension::KhrDebug,
        GlKnownExtension::WebglMultiDraw,
        GlKnownExtension::OvrMultiview2,
        GlKnownExtension::ExtTextureCompressionS3tc,
        GlKnownExtension::CompressedTextureS3tcSrgb,
        GlKnownExtension::ExtTextureCompressionRgtc,
        GlKnownExtension::ArbTextureCompressionBptc,
        GlKnownExtension::ArbEs3Compatibility,
        GlKnownExtension::OesCompressedEtc2Rgb8Texture,
        GlKnownExtension::KhrTextureCompressionAstcLdr,
        GlKnownExtension::KhrTextureCompressionAstcHdr,
    ]
}

/// Where an extension stands among them.
pub open spec fn known_position(extension: GlKnownExtension) -> int {
    match extension {
        GlKnownExtension::ArbComputeShader => 0,
        GlKnownExtension::ArbShaderStorageBufferObject => 1,
        GlKnownExtension::ArbShaderImageLoadStore => 2,
        GlKnownExtension::ArbDrawIndirect => 3,
        GlKnownExtension::ExtTextureFilterAnisotropic => 4,
        GlKnownExtension::OesTextureFloatLinear => 5,
        GlKnownExtension::KhrRobustness => 6,
        GlKnownExtension::KhrDebug => 7,
        GlKnownExtension::WebglMultiDraw => 8,
        GlKnownExtension::OvrMultiview2 => 9,
        GlKnownExtension::ExtTextureCompressionS3tc => 10,
        GlKnownExtension::CompressedTextureS3tcSrgb => 11,
        GlKnownExtension::ExtTextureCompressionRgtc => 12,
        GlKnownExtension::ArbTextureCompressionBptc => 13,
        GlKnownExtension::ArbEs3Compatibility => 14,
        GlKnownExtension::OesCompressedEtc2Rgb8Texture => 15,
        GlKnownExtension::KhrTextureCompressionAstcLdr => 16,
        GlKnownExtension::KhrTextureCompressionAstcHdr => 17,
    }
}

/// Every extension is among them.
pub proof fn all_extensions_are_known(extension: GlKnownExtension)
    ensures
        0 <= known_position(extension) < known_extensions().len(),
        known_extensions()[known_position(extension)] == extension,
{
}

fn list_extensions() -> (result: Vec<GlKnownExtension>)
    ensures
        result@ == known_extensions(),
{
    let mut all: Vec<GlKnownExtension> = Vec::new();
    all.push(GlKnownExtension::ArbComputeShader);
    all.push(GlKnownExtension::ArbShaderStorageBufferObject);
    all.push(GlKnownExtension::ArbShaderImageLoadStore);
    all.push(GlKnownExtension::ArbDrawIndirect);
    all.push(GlKnownExtension::ExtTextureFilterAnisotropic);
    all.push(GlKnownExtension::OesTextureFloatLinear);
    all.push(GlKnownExtension::KhrRobustness);
    all.push(GlKnownExtension::KhrDebug);
    all.push(GlKnownExtension::WebglMultiDraw);
    all.push(GlKnownExtension::OvrMultiview2);
    all.push(GlKnownExtension::ExtTextureCompressionS3tc);
    all.push(GlKnownExtension::CompressedTextureS3tcSrgb);
    all.push(GlKnownExtension::ExtTextureCompressionRgtc);
    all.push(GlKnownExtension::ArbTextureCompressionBptc);
    all.push(GlKnownExtension::ArbEs3Compatibility);
    all.push(GlKnownExtension::OesCompressedEtc2Rgb8Texture);
    all.push(GlKnownExtension::KhrTextureCompressionAstcLdr);
    all.push(GlKnownExtension::KhrTextureCompressionAstcHdr);
    assert(all@ =~= known_extensions());
    all
}

/// The first extension with a name, from a place in the list on.
pub open spec fn named_from(name: Seq<char>, at: int) -> Option<GlKnownExtension>
    decreases known_extensions().len() - at,
{
    if at < 0 || at >= known_extensions().len() {
        None
    } else if known_extensions()[at].spec_raw_name()@ == name {
        Some(known_extensions()[at])
    } else {
        named_from(name, at + 1)
    }
}

impl GlKnownExtension {
    /// The extension with this name, if the library knows it.
    pub fn from_raw_name(name: &str) -> (result: Option<GlKnownExtension>)
        ensures
            result == named_from(name@, 0),
    {
        let wanted = name.to_owned();
        let all = list_extensions();
        let mut at: usize = 0;
        while at < all.len()
            invariant
                at <= all@.len(),
                all@ == known_extensions(),
                wanted@ == name@,
                named_from(name@, 0) == named_from(name@, at as int),
            decreases all@.len() - at,
        {
            let extension = all[at];
            let spelled = extension.raw_name().to_owned();
            assert(known_extensions()[at as int] == extension);
            if spelled == wanted {
                return Some(extension);
            }
            at += 1;
        }
        None
    }
}

/// How far an extension has come.
#[derive(Clone, Copy, Debug, PartialEq, Eq, Structural)]
pub enum ExtensionProvenance {
    /// The driver named it.
    Reported,
    /// Its interface was loaded.
    Acquired,
    /// An operation of it ran and passed.
    Probed,
    /// It could not be acquired.
    Failed,
}

/// A ledger by value.
#[verifier::ext_equal]
pub struct LedgerModel {
    /// All names that the driver reported.
    pub raw: Set<Seq<char>>,
    pub known: Map<GlKnownExtension, ExtensionProvenance>,
}

impl LedgerModel {
    pub open spec fn provenance(self, extension: GlKnownExtension) -> Option<ExtensionProvenance> {
        if self.known.contains_key(extension) {
            Some(self.known[extension])
        } else {
            None
        }
    }

    /// Whether the interface of an extension is there.
    pub open spec fn is_acquired(self, extension: GlKnownExtension) -> bool {
        self.known.contains_key(extension) && (self.known[extension] is Acquired
            || self.known[extension] is Probed)
    }

    /// Whether an extension was seen to work.
    pub open spec fn is_probed(self, extension: GlKnownExtension) -> bool {
        self.known.contains_key(extension) && self.known[extension] is Probed
    }

    /// The ledger after a driver reported a name. A name that is already in the
    /// ledger changes nothing.
    pub open spec fn reported(self, name: Seq<char>) -> LedgerModel {
        LedgerModel {
            raw: self.raw.insert(name),
            known: Map::new(
                |extension: GlKnownExtension|
                    self.known.contains_key(extension) || extension.spec_raw_name()@ == name,
                |extension: GlKnownExtension|
                    if self.known.contains_key(extension) {
                        self.known[extension]
                    } else {
                        ExtensionProvenance::Reported
                    },
            ),
        }
    }

    /// The ledger after an extension moved from one stage to another, if it
    /// stood at the first.
    pub open spec fn moved(
        self,
        extension: GlKnownExtension,
        from: ExtensionProvenance,
        to: ExtensionProvenance,
    ) -> LedgerModel {
        if self.provenance(extension) == Some(from) {
            LedgerModel { known: self.known.insert(extension, to), ..self }
        } else {
            self
        }
    }
}

/// The ledger of the extensions of one context.
#[derive(Debug)]
pub struct GlExtensionSet {
    pub raw: TextSet,
    pub known: Assoc<GlKnownExtension, ExtensionProvenance>,
}

impl View for GlExtensionSet {
    type V = LedgerModel;

    open spec fn view(&self) -> LedgerModel {
        LedgerModel { raw: self.raw@, known: self.known@ }
    }
}

impl GlExtensionSet {
    pub open spec fn wf(&self) -> bool {
        self.known.wf()
    }

    pub fn new() -> (result: Self)
        ensures
            result.wf(),
            result@ == (LedgerModel { raw: Set::empty(), known: Map::empty() }),
    {
        GlExtensionSet { raw: TextSet::new(), known: Assoc::new() }
    }

    /// Notes a name that the driver reported.
    pub fn report_raw(&mut self, name: &str)
        requires
            old(self).wf(),
        ensures
            final(self).wf(),
            final(self)@ == old(self)@.reported(name@),
    {
        self.raw.insert(name.to_owned());
        let wanted = name.to_owned();
        let all = list_extensions();
        let ghost before = self.known@;
        let mut at: usize = 0;
        while at < all.len()
            invariant
                at <= all@.len(),
                all@ == known_extensions(),
                wanted@ == name@,
                self.known.wf(),
                self.raw@ == old(self).raw@.insert(name@),
                forall|extension: GlKnownExtension| #[trigger]
                    self.known@.contains_key(extension) == (before.contains_key(extension) || (
                    extension.spec_raw_name()@ == name@ && known_position(extension) < at)),
                forall|extension: GlKnownExtension| #[trigger]
                    self.known@.contains_key(extension) ==> self.known@[extension] == (
                    if before.contains_key(extension) {
                        before[extension]
                    } else {
                        ExtensionProvenance::Reported
                    }),
            decreases all@.len() - at,
        {
            let extension = all[at];
            assert(known_position(extension) == at);
            let spelled = extension.raw_name().to_owned();
            if spelled == wanted {
                if self.known.get(&extension).is_none() {
                    self.known.insert(extension, ExtensionProvenance::Reported);
                }
            }
            proof {
                assert forall|other: GlKnownExtension| known_position(other) == at implies other
                    == extension by {
                    all_extensions_are_known(other);
                }
            }
            at += 1;
        }
        proof {
            assert forall|extension: GlKnownExtension| #[trigger]
                known_position(extension) < all@.len() by {
                all_extensions_are_known(extension);
            }
            assert(self@ =~= old(self)@.reported(name@));
        }
    }

    pub fn provenance(&self, extension: GlKnownExtension) -> (result: Option<ExtensionProvenance>)
        requires
            self.wf(),
        ensures
            result == self@.provenance(extension),
    {
        match self.known.get(&extension) {
            Some(stage) => Some(*stage),
            None => None,
        }
    }

    pub fn is_acquired(&self, extension: GlKnownExtension) -> (result: bool)
        requires
            self.wf(),
        ensures
            result == self@.is_acquired(extension),
    {
        match self.known.get(&extension) {
            Some(stage) => matches!(stage, ExtensionProvenance::Acquired | ExtensionProvenance::Probed),
            None => false,
        }
    }

    pub fn is_probed(&self, extension: GlKnownExtension) -> (result: bool)
        requires
            self.wf(),
        ensures
            result == self@.is_probed(extension),
    {
        match self.known.get(&extension) {
            Some(stage) => matches!(stage, ExtensionProvenance::Probed),
            None => false,
        }
    }

    fn advance(
        &mut self,
        extension: GlKnownExtension,
        from: ExtensionProvenance,
        to: ExtensionProvenance,
    ) -> (result: bool)
        requires
            old(self).wf(),
        ensures
            final(self).wf(),
            final(self)@ == old(self)@.moved(extension, from, to),
            result == (old(self)@.provenance(extension) == Some(from)),
    {
        match self.provenance(extension) {
            Some(stage) => {
                if stage == from {
                    self.known.insert(extension, to);
                    true
                } else {
                    false
                }
            },
            None => false,
        }
    }

    /// Notes that the interface of a reported extension was loaded.
    pub fn acquire(&mut self, extension: GlKnownExtension) -> (result: bool)
        requires
            old(self).wf(),
        ensures
            final(self).wf(),
            final(self)@ == old(self)@.moved(
                extension,
                ExtensionProvenance::Reported,
                ExtensionProvenance::Acquired,
            ),
            result == (old(self)@.provenance(extension) == Some(ExtensionProvenance::Reported)),
    {
        self.advance(extension, ExtensionProvenance::Reported, ExtensionProvenance::Acquired)
    }

    /// Notes that a reported extension could not be acquired.
    pub fn fail(&mut self, extension: GlKnownExtension) -> (result: bool)
        requires
            old(self).wf(),
        ensures
            final(self).wf(),
            final(self)@ == old(self)@.moved(
                extension,
                ExtensionProvenance::Reported,
                ExtensionProvenance::Failed,
            ),
            result == (old(self)@.provenance(extension) == Some(ExtensionProvenance::Reported)),
    {
        self.advance(extension, ExtensionProvenance::Reported, ExtensionProvenance::Failed)
    }

    /// Notes that an acquired extension was seen to work.
    pub fn probe(&mut self, extension: GlKnownExtension) -> (result: bool)
        requires
            old(self).wf(),
        ensures
            final(self).wf(),
            final(self)@ == old(self)@.moved(
                extension,
                ExtensionProvenance::Acquired,
                ExtensionProvenance::Probed,
            ),
            result == (old(self)@.provenance(extension) == Some(ExtensionProvenance::Acquired)),
    {
        self.advance(extension, ExtensionProvenance::Acquired, ExtensionProvenance::Probed)
    }
}

/// Why a context has a capability.
#[derive(Clone, Copy, Debug, PartialEq, Eq, Structural)]
pub enum CapabilityEvidence {
    /// Its version brings it.
    Core(GlFamilyProfile),
    /// An extension brings it.
    Extension(GlKnownExtension),
}

/// The ways in which a context can have a capability.
#[derive(Clone, Copy, Debug, PartialEq, Eq, Structural)]
pub struct CoreOrExtension {
    pub desktop_core: Option<GlVersion>,
    pub embedded_core: Option<GlVersion>,
    pub extension: Option<GlKnownExtension>,
    /// Whether the extension must have been seen to work.
    pub extension_requires_probe: bool,
}

impl CoreOrExtension {
    /// How a context has the capability. Its version comes first.
    pub open spec fn spec_resolve(
        self,
        profile: GlFamilyProfile,
        extensions: LedgerModel,
    ) -> Option<CapabilityEvidence> {
        if profile.spec_meets(self.desktop_core, self.embedded_core) {
            Some(CapabilityEvidence::Core(profile))
        } else {
            match self.extension {
                Some(extension) => if extension.spec_is_legal_for(profile) && (
                if self.extension_requires_probe {
                    extensions.is_probed(extension)
                } else {
                    extensions.is_acquired(extension)
                }) {
                    Some(CapabilityEvidence::Extension(extension))
                } else {
                    None
                },
                None => None,
            }
        }
    }

    pub fn resolve(&self, profile: GlFamilyProfile, extensions: &GlExtensionSet) -> (result: Option<
        CapabilityEvidence,
    >)
        requires
            extensions.wf(),
        ensures
            result == self.spec_resolve(profile, extensions@),
    {
        if profile.meets(self.desktop_core, self.embedded_core) {
            return Some(CapabilityEvidence::Core(profile));
        }
        match self.extension {
            Some(extension) => {
                let there = if self.extension_requires_probe {
                    extensions.is_probed(extension)
                } else {
                    extensions.is_acquired(extension)
                };
                if extension.is_legal_for(profile) && there {
                    Some(CapabilityEvidence::Extension(extension))
                } else {
                    None
                }
            },
            None => None,
        }
    }
}

/// What the driver reports again changes nothing, and no report takes away
/// what an extension has reached.
pub proof fn reports_never_demote(ledger: LedgerModel, name: Seq<char>, extension: GlKnownExtension)
    ensures
        ledger.known.contains_key(extension) ==> ledger.reported(name).provenance(extension)
            == ledger.provenance(extension),
        ledger.reported(name).reported(name) == ledger.reported(name),
{
    assert(ledger.reported(name).reported(name) =~= ledger.reported(name));
}

/// A name alone opens nothing: an extension that was only reported is neither
/// acquired nor probed, and cannot become probed at once.
pub proof fn names_alone_open_nothing(
    ledger: LedgerModel,
    name: Seq<char>,
    extension: GlKnownExtension,
)
    requires
        !ledger.known.contains_key(extension),
    ensures
        !ledger.reported(name).is_acquired(extension),
        ledger.reported(name).moved(
            extension,
            ExtensionProvenance::Acquired,
            ExtensionProvenance::Probed,
        ) == ledger.reported(name),
{
}

} // verus!
