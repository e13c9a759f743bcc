//! Finding out what a current context can do.
//!
//! Nothing here makes a window, a surface or a context. The record that comes
//! out is data only, and belongs to the context with its stamp.

use vstd::prelude::*;
use vstd::string::*;
use crate::api::discovery;
use crate::api::discovery::{
    FlagsModel, GlCapability, GlContextFlags, GlContextInfo, GlDiscoveryError, GlDiscoverySnapshot,
    GlLimits, GlOperationProbe, InfoModel, SnapshotModel,
};
use crate::api::extension::{
    CoreOrExtension, ExtensionProvenance, GlExtensionSet, GlKnownExtension, LedgerModel,
};
use crate::api::gl::{GlFamilyProfile, GlVersion};
use crate::api::identity::ContextStamp;
use crate::float;
use crate::native::formats;
use crate::native::formats::{
    native_formats, supports_multisample_texture_storage, FormatContext,
};
use crate::native::glow_const;
use crate::native::probe::read_numbers;
use crate::native::probes;
use crate::native::probes::{record_extension_probes, ProbeReport};
use crate::native::query;
use crate::native::query::{Inspection, NativeGlProbes, NativeGlQuery, QueryLink, QueryStep};
use crate::native::surface_facts;
use crate::text;
use crate::text::{
    chars_of, has_prefix, is_blank, lead_end, push_decimal, push_hexadecimal, trim,
    CharClass,
};

verus! {

/// Why no complete record came about.
#[derive(Clone, Debug, PartialEq, Eq)]
pub enum NativeDiscoveryError {
    /// The context carried an error before it was asked anything. Whose it is
    /// cannot be known.
    PreExistingGlError,
    /// A text of the driver was missing or blank.
    InvalidContextString(&'static str),
    /// The version is outside the accepted families.
    UnsupportedProfile(String),
    /// A number that is required could not be had.
    QueryFailed(&'static str),
    /// The facts make no record.
    Snapshot(GlDiscoveryError),
}

/// The reason by value.
pub enum ReasonModel {
    PreExistingGlError,
    InvalidContextString(&'static str),
    UnsupportedProfile(Seq<char>),
    QueryFailed(&'static str),
    Snapshot(GlDiscoveryError),
}

impl View for NativeDiscoveryError {
    type V = ReasonModel;

    open spec fn view(&self) -> ReasonModel {
        match *self {
            NativeDiscoveryError::PreExistingGlError => ReasonModel::PreExistingGlError,
            NativeDiscoveryError::InvalidContextString(name) => ReasonModel::InvalidContextString(
                name,
            ),
            NativeDiscoveryError::UnsupportedProfile(version) => ReasonModel::UnsupportedProfile(
                version@,
            ),
            NativeDiscoveryError::QueryFailed(name) => ReasonModel::QueryFailed(name),
            NativeDiscoveryError::Snapshot(error) => ReasonModel::Snapshot(error),
        }
    }
}

pub open spec fn text_result(result: Result<String, NativeDiscoveryError>) -> Result<
    Seq<char>,
    ReasonModel,
> {
    match result {
        Ok(text) => Ok(text@),
        Err(error) => Err(error@),
    }
}

pub open spec fn plain_result<T>(result: Result<T, NativeDiscoveryError>) -> Result<
    T,
    ReasonModel,
> {
    match result {
        Ok(value) => Ok(value),
        Err(error) => Err(error@),
    }
}

pub open spec fn list_result(result: Result<Vec<u32>, NativeDiscoveryError>) -> Result<
    Seq<u32>,
    ReasonModel,
> {
    match result {
        Ok(values) => Ok(values@),
        Err(error) => Err(error@),
    }
}

pub open spec fn ledger_result(result: Result<GlExtensionSet, NativeDiscoveryError>) -> Result<
    LedgerModel,
    ReasonModel,
> {
    match result {
        Ok(ledger) => Ok(ledger@),
        Err(error) => Err(error@),
    }
}

pub open spec fn record_result(result: Result<GlDiscoverySnapshot, NativeDiscoveryError>) -> Result<
    SnapshotModel,
    ReasonModel,
> {
    match result {
        Ok(record) => Ok(record@),
        Err(error) => Err(error@),
    }
}

/// What stands for the driver where the platform says nothing of it. The
/// version is no stand-in: it would read as something that was observed.
pub const DRIVER_IDENTITY_UNAVAILABLE: &'static str = "gl.driver-identity-unavailable=true";

/// What a record says of the driver.
pub open spec fn driver_identity(supplied: Seq<char>) -> Seq<char> {
    if text::trimmed(supplied).len() == 0 {
        "gl.driver-identity-unavailable=true"@
    } else {
        text::trimmed(supplied)
    }
}

/// What a record says of the driver. A blank text is nothing.
pub fn normalized_driver_identity(supplied: &str) -> (result: String)
    ensures
        result@ == driver_identity(supplied@),
{
    let trimmed = trim(supplied);
    if trimmed.as_str().unicode_len() == 0 {
        "gl.driver-identity-unavailable=true".to_owned()
    } else {
        trimmed
    }
}

/// A number that fits, or the reason.
pub open spec fn fitting(value: i64, name: &'static str) -> Result<u32, ReasonModel> {
    if 0 <= value <= u32::MAX {
        Ok(value as u32)
    } else {
        Err(ReasonModel::QueryFailed(name))
    }
}

/// A number that was answered and fits, or the reason.
pub open spec fn answered(value: Option<i64>, name: &'static str) -> Result<u32, ReasonModel> {
    match value {
        None => Err(ReasonModel::QueryFailed(name)),
        Some(value) => fitting(value, name),
    }
}

pub fn to_u32(value: i64, name: &'static str) -> (result: Result<u32, NativeDiscoveryError>)
    ensures
        plain_result(result) == fitting(value, name),
{
    if 0 <= value && value <= 0xffff_ffff {
        Ok(value as u32)
    } else {
        Err(NativeDiscoveryError::QueryFailed(name))
    }
}

pub fn nonnegative(value: Option<i64>, name: &'static str) -> (result: Result<
    u32,
    NativeDiscoveryError,
>)
    ensures
        plain_result(result) == answered(value, name),
{
    match value {
        None => Err(NativeDiscoveryError::QueryFailed(name)),
        Some(value) => to_u32(value, name),
    }
}

/// The first stretch of digits and dots that holds a dot.
pub open spec fn dotted(s: Seq<char>) -> Option<Seq<char>>
    decreases s.len(),
{
    let n = text::lead(s, CharClass::Version);
    let run = s.take(n as int);
    if run.contains('.') {
        Some(run)
    } else if n < s.len() {
        dotted(s.skip(n as int + 1))
    } else {
        None
    }
}

/// The profile that a version string stands for, read with goodwill: the first
/// version in it counts.
pub open spec fn profile_in(version: Seq<char>) -> Option<GlFamilyProfile> {
    let embedded = text::starts_with(version, "OpenGL ES "@);
    let rest = if embedded {
        version.skip("OpenGL ES "@.len() as int)
    } else {
        version
    };
    match dotted(rest) {
        None => None,
        Some(run) => match crate::native::probe::version_numbers(run) {
            None => None,
            Some((major, minor)) => if !embedded && major == 4 {
                Some(GlFamilyProfile::Desktop { major, minor })
            } else if embedded && major == 3 {
                Some(GlFamilyProfile::Embedded { major, minor })
            } else {
                None
            },
        },
    }
}

fn has_dot(chars: &Vec<char>, from: usize, to: usize) -> (result: bool)
    requires
        from <= to <= chars@.len(),
    ensures
        result == chars@.subrange(from as int, to as int).contains('.'),
{
    let ghost run = chars@.subrange(from as int, to as int);
    let mut at: usize = from;
    while at < to
        invariant
            from <= at <= to <= chars@.len(),
            run == chars@.subrange(from as int, to as int),
            forall|i: int| 0 <= i < at - from ==> #[trigger] run[i] != '.',
        decreases to - at,
    {
        assert(run[at - from] == chars@[at as int]);
        if chars[at] == '.' {
            return true;
        }
        at += 1;
    }
    false
}

/// Reads a version string of the accepted native families: 4.x and ES 3.x.
pub fn parse_native_profile(version: &str) -> (result: Option<GlFamilyProfile>)
    ensures
        result == profile_in(version@),
{
    let chars = chars_of(version);
    let n = chars.len();
    let embedded = has_prefix(&chars, "OpenGL ES ");
    let mut from: usize = if embedded {
        "OpenGL ES ".unicode_len()
    } else {
        0
    };
    let ghost rest = if embedded {
        chars@.skip("OpenGL ES "@.len() as int)
    } else {
        chars@
    };
    assert(rest =~= chars@.subrange(from as int, n as int));
    loop
        invariant
            from <= n,
            n == chars@.len(),
            dotted(rest) == dotted(chars@.subrange(from as int, n as int)),
            version@ == chars@,
            embedded == text::starts_with(version@, "OpenGL ES "@),
            rest == (if embedded {
                version@.skip("OpenGL ES "@.len() as int)
            } else {
                version@
            }),
        decreases n - from,
    {
        let end = lead_end(&chars, from, n, CharClass::Version);
        let ghost s = chars@.subrange(from as int, n as int);
        assert(s.take(end - from) =~= chars@.subrange(from as int, end as int));
        if has_dot(&chars, from, end) {
            return match read_numbers(&chars, from, end) {
                None => None,
                Some((major, minor)) => if !embedded && major == 4 {
                    Some(GlFamilyProfile::Desktop { major, minor })
                } else if embedded && major == 3 {
                    Some(GlFamilyProfile::Embedded { major, minor })
                } else {
                    None
                },
            };
        }
        if end == n {
            return None;
        }
        assert(s.skip(end - from + 1) =~= chars@.subrange(end + 1, n as int));
        from = end + 1;
    }
}

/// Only native families are accepted: desktop contexts of version 4 and
/// embedded ones of version 3.
pub proof fn accepted_profiles_are_native(version: Seq<char>)
    ensures
        match profile_in(version) {
            Some(GlFamilyProfile::Desktop { major, .. }) => major == 4,
            Some(GlFamilyProfile::Embedded { major, .. }) => major == 3,
            Some(GlFamilyProfile::WebGl2) => false,
            None => true,
        },
{
}

/// The desktop version that the native family requires. Nothing of a later
/// version follows from it.
pub open spec fn floor_marker() -> Seq<char> {
    "gl.desktop-context-floor="@ + text::decimal(4) + "."@ + text::decimal(0)
}

pub const REQUIRED_DESKTOP_MAJOR: u8 = 4;

pub const REQUIRED_DESKTOP_MINOR: u8 = 0;

/// The remark on the required version, so that a record can be read by itself.
pub fn desktop_context_floor_marker() -> (result: String)
    ensures
        result@ == floor_marker(),
{
    let mut result = "gl.desktop-context-floor=".to_owned();
    push_decimal(&mut result, REQUIRED_DESKTOP_MAJOR as u64);
    result.append(".");
    push_decimal(&mut result, REQUIRED_DESKTOP_MINOR as u64);
    result
}

/// The ways that a context has to limits which not every context has.
#[derive(Clone, Copy, Debug, PartialEq, Eq, Structural)]
pub struct OptionalLimitRoutes {
    pub compute: bool,
    pub storage: bool,
    pub image: bool,
}

pub open spec fn limit_routes(profile: GlFamilyProfile, ledger: LedgerModel) -> OptionalLimitRoutes {
    let desktop = profile is Desktop;
    OptionalLimitRoutes {
        compute: profile.spec_meets(
            Some(GlVersion { major: 4, minor: 3 }),
            Some(GlVersion { major: 3, minor: 1 }),
        ) || (desktop && ledger.is_acquired(GlKnownExtension::ArbComputeShader)),
        storage: profile.spec_meets(
            Some(GlVersion { major: 4, minor: 3 }),
            Some(GlVersion { major: 3, minor: 1 }),
        ) || (desktop && ledger.is_acquired(GlKnownExtension::ArbShaderStorageBufferObject)),
        image: profile.spec_meets(
            Some(GlVersion { major: 4, minor: 2 }),
            Some(GlVersion { major: 3, minor: 1 }),
        ) || (desktop && ledger.is_acquired(GlKnownExtension::ArbShaderImageLoadStore)),
    }
}

fn desktop_extension(
    profile: GlFamilyProfile,
    extensions: &GlExtensionSet,
    extension: GlKnownExtension,
) -> (result: bool)
    requires
        extensions.wf(),
    ensures
        result == (profile is Desktop && extension.spec_is_legal_for(profile)
            && extensions@.is_acquired(extension)),
{
    match profile {
        GlFamilyProfile::Desktop { .. } => extension.is_legal_for(profile)
            && extensions.is_acquired(extension),
        _ => false,
    }
}

/// The ways to optional limits. An embedded context does not inherit the
/// extensions of a desktop one.
pub fn optional_limit_routes(profile: GlFamilyProfile, extensions: &GlExtensionSet) -> (result:
    OptionalLimitRoutes)
    requires
        extensions.wf(),
    ensures
        result == limit_routes(profile, extensions@),
{
    OptionalLimitRoutes {
        compute: profile.meets(Some(GlVersion::new(4, 3)), Some(GlVersion::new(3, 1)))
            || desktop_extension(profile, extensions, GlKnownExtension::ArbComputeShader),
        storage: profile.meets(Some(GlVersion::new(4, 3)), Some(GlVersion::new(3, 1)))
            || desktop_extension(
            profile,
            extensions,
            GlKnownExtension::ArbShaderStorageBufferObject,
        ),
        image: profile.meets(Some(GlVersion::new(4, 2)), Some(GlVersion::new(3, 1)))
            || desktop_extension(
            profile,
            extensions,
            GlKnownExtension::ArbShaderImageLoadStore,
        ),
    }
}

/// One limit to ask for.
#[derive(Clone, Copy, Debug, PartialEq, Eq)]
pub enum Ask {
    /// Without it there is no record.
    Required { token: u32, name: &'static str },
    /// It is zero where there is no way to it, or no answer.
    Optional { enabled: bool, token: u32 },
    /// One of several; otherwise as the one before.
    Indexed { enabled: bool, token: u32, index: u32 },
}

/// An optional answer: zero where there is none that fits.
pub open spec fn or_zero(value: Option<i64>) -> u32 {
    match value {
        Some(value) => if 0 <= value <= u32::MAX {
            value as u32
        } else {
            0
        },
        None => 0,
    }
}

fn zero_unless(value: Option<i64>) -> (result: u32)
    ensures
        result == or_zero(value),
{
    match value {
        Some(value) => if 0 <= value && value <= 0xffff_ffff {
            value as u32
        } else {
            0
        },
        None => 0,
    }
}

/// The sizes that every context has.
pub open spec fn size_asks() -> Seq<Ask> {
    seq![
        Ask::Required { token: glow_const::MAX_TEXTURE_SIZE, name: "GL_MAX_TEXTURE_SIZE" },
        Ask::Required { token: glow_const::MAX_3D_TEXTURE_SIZE, name: "GL_MAX_3D_TEXTURE_SIZE" },
        Ask::Required { token: glow_const::MAX_ARRAY_TEXTURE_LAYERS, name: "GL_MAX_ARRAY_TEXTURE_LAYERS" },
        Ask::Required { token: glow_const::MAX_CUBE_MAP_TEXTURE_SIZE, name: "GL_MAX_CUBE_MAP_TEXTURE_SIZE" },
        Ask::Required { token: glow_const::MAX_RENDERBUFFER_SIZE, name: "GL_MAX_RENDERBUFFER_SIZE" },
        Ask::Required { token: glow_const::MAX_COLOR_ATTACHMENTS, name: "GL_MAX_COLOR_ATTACHMENTS" },
        Ask::Required { token: glow_const::MAX_DRAW_BUFFERS, name: "GL_MAX_DRAW_BUFFERS" },
        Ask::Required { token: glow_const::MAX_VERTEX_ATTRIBS, name: "GL_MAX_VERTEX_ATTRIBS" },
    ]
}

fn list_size_asks() -> (result: Vec<Ask>)
    ensures
        result@ == size_asks(),
{
    let mut result: Vec<Ask> = Vec::new();
    result.push(Ask::Required { token: glow_const::MAX_TEXTURE_SIZE, name: "GL_MAX_TEXTURE_SIZE" });
    result.push(Ask::Required { token: glow_const::MAX_3D_TEXTURE_SIZE, name: "GL_MAX_3D_TEXTURE_SIZE" });
    result.push(Ask::Required { token: glow_const::MAX_ARRAY_TEXTURE_LAYERS, name: "GL_MAX_ARRAY_TEXTURE_LAYERS" });
    result.push(Ask::Required { token: glow_const::MAX_CUBE_MAP_TEXTURE_SIZE, name: "GL_MAX_CUBE_MAP_TEXTURE_SIZE" });
    result.push(Ask::Required { token: glow_const::MAX_RENDERBUFFER_SIZE, name: "GL_MAX_RENDERBUFFER_SIZE" });
    result.push(Ask::Required { token: glow_const::MAX_COLOR_ATTACHMENTS, name: "GL_MAX_COLOR_ATTACHMENTS" });
    result.push(Ask::Required { token: glow_const::MAX_DRAW_BUFFERS, name: "GL_MAX_DRAW_BUFFERS" });
    result.push(Ask::Required { token: glow_const::MAX_VERTEX_ATTRIBS, name: "GL_MAX_VERTEX_ATTRIBS" });
    assert(result@ =~= size_asks());
    result
}

/// Whether a context has more than one viewport.
pub open spec fn has_viewports(profile: GlFamilyProfile) -> bool {
    match profile {
        GlFamilyProfile::Desktop { major, minor } => major == 4 && minor >= 1,
        _ => false,
    }
}

/// The other limits, in the order in which they are asked for.
pub open spec fn other_asks(
    viewports: bool,
    routes: OptionalLimitRoutes,
    multisample: bool,
    multiview: bool,
) -> Seq<Ask> {
    seq![
        Ask::Optional { enabled: viewports, token: glow_const::MAX_VIEWPORTS },
        Ask::Required { token: glow_const::MAX_VERTEX_TEXTURE_IMAGE_UNITS, name: "GL_MAX_VERTEX_TEXTURE_IMAGE_UNITS" },
        Ask::Required { token: glow_const::MAX_TEXTURE_IMAGE_UNITS, name: "GL_MAX_TEXTURE_IMAGE_UNITS" },
        Ask::Required { token: glow_const::MAX_COMBINED_TEXTURE_IMAGE_UNITS, name: "GL_MAX_COMBINED_TEXTURE_IMAGE_UNITS" },
        Ask::Required { token: glow_const::MAX_UNIFORM_BUFFER_BINDINGS, name: "GL_MAX_UNIFORM_BUFFER_BINDINGS" },
        Ask::Required { token: glow_const::MAX_UNIFORM_BLOCK_SIZE, name: "GL_MAX_UNIFORM_BLOCK_SIZE" },
        Ask::Required { token: glow_const::UNIFORM_BUFFER_OFFSET_ALIGNMENT, name: "GL_UNIFORM_BUFFER_OFFSET_ALIGNMENT" },
        Ask::Required { token: glow_const::MAX_VERTEX_UNIFORM_BLOCKS, name: "GL_MAX_VERTEX_UNIFORM_BLOCKS" },
        Ask::Required { token: glow_const::MAX_FRAGMENT_UNIFORM_BLOCKS, name: "GL_MAX_FRAGMENT_UNIFORM_BLOCKS" },
        Ask::Optional { enabled: routes.compute, token: glow_const::MAX_COMPUTE_UNIFORM_BLOCKS },
        Ask::Required { token: glow_const::MAX_COMBINED_UNIFORM_BLOCKS, name: "GL_MAX_COMBINED_UNIFORM_BLOCKS" },
        Ask::Optional { enabled: routes.storage, token: glow_const::MAX_SHADER_STORAGE_BUFFER_BINDINGS },
        Ask::Optional { enabled: routes.storage, token: glow_const::MAX_SHADER_STORAGE_BLOCK_SIZE },
        Ask::Optional { enabled: routes.storage, token: glow_const::SHADER_STORAGE_BUFFER_OFFSET_ALIGNMENT },
        Ask::Optional { enabled: routes.storage, token: glow_const::MAX_VERTEX_SHADER_STORAGE_BLOCKS },
        Ask::Optional { enabled: routes.storage, token: glow_const::MAX_FRAGMENT_SHADER_STORAGE_BLOCKS },
        Ask::Optional { enabled: routes.storage, token: glow_const::MAX_COMPUTE_SHADER_STORAGE_BLOCKS },
        Ask::Optional { enabled: routes.storage, token: glow_const::MAX_COMBINED_SHADER_STORAGE_BLOCKS },
        Ask::Optional { enabled: routes.image, token: glow_const::MAX_IMAGE_UNITS },
        Ask::Optional { enabled: routes.image, token: glow_const::MAX_COMBINED_IMAGE_UNIFORMS },
        Ask::Required { token: glow_const::MAX_SAMPLES, name: "GL_MAX_SAMPLES" },
        Ask::Optional { enabled: multisample, token: glow_const::MAX_COLOR_TEXTURE_SAMPLES },
        Ask::Optional { enabled: multisample, token: glow_const::MAX_DEPTH_TEXTURE_SAMPLES },
        Ask::Optional { enabled: multisample, token: glow_const::MAX_INTEGER_SAMPLES },
        Ask::Indexed { enabled: routes.compute, token: glow_const::MAX_COMPUTE_WORK_GROUP_COUNT, index: 0 },
        Ask::Indexed { enabled: routes.compute, token: glow_const::MAX_COMPUTE_WORK_GROUP_COUNT, index: 1 },
        Ask::Indexed { enabled: routes.compute, token: glow_const::MAX_COMPUTE_WORK_GROUP_COUNT, index: 2 },
        Ask::Indexed { enabled: routes.compute, token: glow_const::MAX_COMPUTE_WORK_GROUP_SIZE, index: 0 },
        Ask::Indexed { enabled: routes.compute, token: glow_const::MAX_COMPUTE_WORK_GROUP_SIZE, index: 1 },
        Ask::Indexed { enabled: routes.compute, token: glow_const::MAX_COMPUTE_WORK_GROUP_SIZE, index: 2 },
        Ask::Optional { enabled: routes.compute, token: glow_const::MAX_COMPUTE_WORK_GROUP_INVOCATIONS },
        Ask::Optional { enabled: multiview, token: glow_const::MAX_MULTIVIEW_VIEWS },
    ]
}

fn list_other_asks(
    viewports: bool,
    routes: OptionalLimitRoutes,
    multisample: bool,
    multiview: bool,
) -> (result: Vec<Ask>)
    ensures
        result@ == other_asks(viewports, routes, multisample, multiview),
{
    let mut result: Vec<Ask> = Vec::new();
    result.push(Ask::Optional { enabled: viewports, token: glow_const::MAX_VIEWPORTS });
    result.push(Ask::Required { token: glow_const::MAX_VERTEX_TEXTURE_IMAGE_UNITS, name: "GL_MAX_VERTEX_TEXTURE_IMAGE_UNITS" });
    result.push(Ask::Required { token: glow_const::MAX_TEXTURE_IMAGE_UNITS, name: "GL_MAX_TEXTURE_IMAGE_UNITS" });
    result.push(Ask::Required { token: glow_const::MAX_COMBINED_TEXTURE_IMAGE_UNITS, name: "GL_MAX_COMBINED_TEXTURE_IMAGE_UNITS" });
    result.push(Ask::Required { token: glow_const::MAX_UNIFORM_BUFFER_BINDINGS, name: "GL_MAX_UNIFORM_BUFFER_BINDINGS" });
    result.push(Ask::Required { token: glow_const::MAX_UNIFORM_BLOCK_SIZE, name: "GL_MAX_UNIFORM_BLOCK_SIZE" });
    result.push(Ask::Required { token: glow_const::UNIFORM_BUFFER_OFFSET_ALIGNMENT, name: "GL_UNIFORM_BUFFER_OFFSET_ALIGNMENT" });
    result.push(Ask::Required { token: glow_const::MAX_VERTEX_UNIFORM_BLOCKS, name: "GL_MAX_VERTEX_UNIFORM_BLOCKS" });
    result.push(Ask::Required { token: glow_const::MAX_FRAGMENT_UNIFORM_BLOCKS, name: "GL_MAX_FRAGMENT_UNIFORM_BLOCKS" });
    result.push(Ask::Optional { enabled: routes.compute, token: glow_const::MAX_COMPUTE_UNIFORM_BLOCKS });
    result.push(Ask::Required { token: glow_const::MAX_COMBINED_UNIFORM_BLOCKS, name: "GL_MAX_COMBINED_UNIFORM_BLOCKS" });
    result.push(Ask::Optional { enabled: routes.storage, token: glow_const::MAX_SHADER_STORAGE_BUFFER_BINDINGS });
    result.push(Ask::Optional { enabled: routes.storage, token: glow_const::MAX_SHADER_STORAGE_BLOCK_SIZE });
    result.push(Ask::Optional { enabled: routes.storage, token: glow_const::SHADER_STORAGE_BUFFER_OFFSET_ALIGNMENT });
    result.push(Ask::Optional { enabled: routes.storage, token: glow_const::MAX_VERTEX_SHADER_STORAGE_BLOCKS });
    result.push(Ask::Optional { enabled: routes.storage, token: glow_const::MAX_FRAGMENT_SHADER_STORAGE_BLOCKS });
    result.push(Ask::Optional { enabled: routes.storage, token: glow_const::MAX_COMPUTE_SHADER_STORAGE_BLOCKS });
    result.push(Ask::Optional { enabled: routes.storage, token: glow_const::MAX_COMBINED_SHADER_STORAGE_BLOCKS });
    result.push(Ask::Optional { enabled: routes.image, token: glow_const::MAX_IMAGE_UNITS });
    result.push(Ask::Optional { enabled: routes.image, token: glow_const::MAX_COMBINED_IMAGE_UNIFORMS });
    result.push(Ask::Required { token: glow_const::MAX_SAMPLES, name: "GL_MAX_SAMPLES" });
    result.push(Ask::Optional { enabled: multisample, token: glow_const::MAX_COLOR_TEXTURE_SAMPLES });
    result.push(Ask::Optional { enabled: multisample, token: glow_const::MAX_DEPTH_TEXTURE_SAMPLES });
    result.push(Ask::Optional { enabled: multisample, token: glow_const::MAX_INTEGER_SAMPLES });
    result.push(Ask::Indexed { enabled: routes.compute, token: glow_const::MAX_COMPUTE_WORK_GROUP_COUNT, index: 0 });
    result.push(Ask::Indexed { enabled: routes.compute, token: glow_const::MAX_COMPUTE_WORK_GROUP_COUNT, index: 1 });
    result.push(Ask::Indexed { enabled: routes.compute, token: glow_const::MAX_COMPUTE_WORK_GROUP_COUNT, index: 2 });
    result.push(Ask::Indexed { enabled: routes.compute, token: glow_const::MAX_COMPUTE_WORK_GROUP_SIZE, index: 0 });
    result.push(Ask::Indexed { enabled: routes.compute, token: glow_const::MAX_COMPUTE_WORK_GROUP_SIZE, index: 1 });
    result.push(Ask::Indexed { enabled: routes.compute, token: glow_const::MAX_COMPUTE_WORK_GROUP_SIZE, index: 2 });
    result.push(Ask::Optional { enabled: routes.compute, token: glow_const::MAX_COMPUTE_WORK_GROUP_INVOCATIONS });
    result.push(Ask::Optional { enabled: multiview, token: glow_const::MAX_MULTIVIEW_VIEWS });
    assert(result@ =~= other_asks(viewports, routes, multisample, multiview));
    result
}

/// At least one.
pub open spec fn at_least_one(n: u32) -> u32 {
    if n == 0 {
        1
    } else {
        n
    }
}

fn one_or_more(n: u32) -> (result: u32)
    ensures
        result == at_least_one(n),
{
    if n == 0 {
        1
    } else {
        n
    }
}

/// The limits that the answers stand for.
pub open spec fn limits_of(
    sizes: Seq<u32>,
    dimensions: (u32, u32),
    others: Seq<u32>,
    report: ProbeReport,
    anisotropy: Option<u32>,
) -> GlLimits {
    GlLimits {
        max_texture_size: sizes[0],
        max_3d_texture_size: sizes[1],
        max_array_texture_layers: sizes[2],
        max_cube_map_texture_size: sizes[3],
        max_renderbuffer_size: sizes[4],
        max_color_attachments: sizes[5],
        max_draw_buffers: sizes[6],
        max_vertex_attributes: sizes[7],
        max_viewport_dimensions: dimensions,
        max_viewports: others[0],
        max_vertex_texture_image_units: others[1],
        max_fragment_texture_image_units: others[2],
        max_combined_texture_image_units: others[3],
        max_uniform_buffer_bindings: others[4],
        max_uniform_block_size: others[5] as u64,
        uniform_buffer_offset_alignment: others[6] as u64,
        max_vertex_uniform_blocks: others[7],
        max_fragment_uniform_blocks: others[8],
        max_compute_uniform_blocks: others[9],
        max_combined_uniform_blocks: others[10],
        max_storage_buffer_bindings: others[11],
        max_storage_block_size: others[12] as u64,
        storage_buffer_offset_alignment: others[13] as u64,
        max_vertex_storage_blocks: others[14],
        max_fragment_storage_blocks: others[15],
        max_compute_storage_blocks: others[16],
        max_combined_storage_blocks: others[17],
        max_image_units: others[18],
        max_combined_image_units: others[19],
        max_samples: others[20],
        max_color_texture_samples: at_least_one(others[21]),
        max_depth_texture_samples: at_least_one(others[22]),
        max_integer_samples: at_least_one(others[23]),
        max_compute_work_group_count: (others[24], others[25], others[26]),
        max_compute_work_group_size: (others[27], others[28], others[29]),
        max_compute_work_group_invocations: others[30],
        max_multiview_view_count: others[31],
        max_multi_draw_indirect_count: None,
        query_counter_bits: match report.query_counter_bits {
            Some(bits) => bits,
            None => 0,
        },
        max_texture_anisotropy: anisotropy,
    }
}

/// A floating-point answer that is a number.
pub open spec fn finite_answer(value: Option<u32>) -> Option<u32> {
    match value {
        Some(bits) => if float::spec_is_finite(bits) {
            Some(bits)
        } else {
            None
        },
        None => None,
    }
}

/// The extensions that are acquired where the driver reports them. Their
/// commands are loaded before anything is asked; that they work is still to be
/// seen. Multiview is not among them: none of its commands is loaded.
pub open spec fn acquired_by_loading() -> Seq<GlKnownExtension> {
    seq![
        GlKnownExtension::ArbComputeShader,
        GlKnownExtension::ArbShaderStorageBufferObject,
        GlKnownExtension::ArbShaderImageLoadStore,
        GlKnownExtension::ExtTextureFilterAnisotropic,
        GlKnownExtension::OesTextureFloatLinear,
        GlKnownExtension::KhrRobustness,
        GlKnownExtension::KhrDebug,
    ]
}

fn list_acquired_by_loading() -> (result: Vec<GlKnownExtension>)
    ensures
        result@ == acquired_by_loading(),
{
    let mut result: Vec<GlKnownExtension> = Vec::new();
    result.push(GlKnownExtension::ArbComputeShader);
    result.push(GlKnownExtension::ArbShaderStorageBufferObject);
    result.push(GlKnownExtension::ArbShaderImageLoadStore);
    result.push(GlKnownExtension::ExtTextureFilterAnisotropic);
    result.push(GlKnownExtension::OesTextureFloatLinear);
    result.push(GlKnownExtension::KhrRobustness);
    result.push(GlKnownExtension::KhrDebug);
    assert(result@ =~= acquired_by_loading());
    result
}

/// The ledger after the first so many extensions were acquired.
pub open spec fn acquired_all(
    ledger: LedgerModel,
    profile: GlFamilyProfile,
    wanted: Seq<GlKnownExtension>,
) -> LedgerModel
    decreases wanted.len(),
{
    if wanted.len() == 0 {
        ledger
    } else {
        let next = if wanted[0].spec_is_legal_for(profile) {
            ledger.moved(wanted[0], ExtensionProvenance::Reported, ExtensionProvenance::Acquired)
        } else {
            ledger
        };
        acquired_all(next, profile, wanted.skip(1))
    }
}

/// The way to a capability.
pub open spec fn capability_row(capability: GlCapability) -> CoreOrExtension {
    match capability {
        GlCapability::Compute => CoreOrExtension {
            desktop_core: Some(GlVersion { major: 4, minor: 3 }),
            embedded_core: Some(GlVersion { major: 3, minor: 1 }),
            extension: Some(GlKnownExtension::ArbComputeShader),
            extension_requires_probe: true,
        },
        GlCapability::StorageBuffer => CoreOrExtension {
            desktop_core: Some(GlVersion { major: 4, minor: 3 }),
            embedded_core: Some(GlVersion { major: 3, minor: 1 }),
            extension: Some(GlKnownExtension::ArbShaderStorageBufferObject),
            extension_requires_probe: true,
        },
        GlCapability::StorageImage => CoreOrExtension {
            desktop_core: Some(GlVersion { major: 4, minor: 2 }),
            embedded_core: Some(GlVersion { major: 3, minor: 1 }),
            extension: Some(GlKnownExtension::ArbShaderImageLoadStore),
            extension_requires_probe: true,
        },
        GlCapability::IndirectDraw => CoreOrExtension {
            desktop_core: Some(GlVersion { major: 4, minor: 0 }),
            embedded_core: Some(GlVersion { major: 3, minor: 1 }),
            extension: None,
            extension_requires_probe: false,
        },
        GlCapability::IndirectDispatch => CoreOrExtension {
            desktop_core: Some(GlVersion { major: 4, minor: 3 }),
            embedded_core: Some(GlVersion { major: 3, minor: 1 }),
            extension: None,
            extension_requires_probe: false,
        },
        GlCapability::MultiDrawIndirect => CoreOrExtension {
            desktop_core: Some(GlVersion { major: 4, minor: 3 }),
            embedded_core: None,
            extension: None,
            extension_requires_probe: false,
        },
        GlCapability::MultiDraw => CoreOrExtension {
            desktop_core: None,
            embedded_core: None,
            extension: Some(GlKnownExtension::WebglMultiDraw),
            extension_requires_probe: false,
        },
        GlCapability::Multiview => CoreOrExtension {
            desktop_core: None,
            embedded_core: None,
            extension: Some(GlKnownExtension::OvrMultiview2),
            extension_requires_probe: true,
        },
        GlCapability::TimerQuery => CoreOrExtension {
            desktop_core: Some(GlVersion { major: 3, minor: 3 }),
            embedded_core: Some(GlVersion { major: 3, minor: 0 }),
            extension: None,
            extension_requires_probe: false,
        },
    }
}

/// What was seen of a capability. A time counter needs nothing to be tried:
/// its width is a limit. Nothing tries several draws or several views.
pub open spec fn capability_probe(capability: GlCapability, report: ProbeReport) -> GlOperationProbe {
    match capability {
        GlCapability::Compute => report.compute.spec_to_operation_probe(),
        GlCapability::StorageBuffer => report.storage_buffer.spec_to_operation_probe(),
        GlCapability::StorageImage => report.storage_image.spec_to_operation_probe(),
        GlCapability::IndirectDraw => report.indirect_draw.spec_to_operation_probe(),
        GlCapability::IndirectDispatch => report.indirect_dispatch.spec_to_operation_probe(),
        GlCapability::MultiDrawIndirect => report.multi_draw_indirect.spec_to_operation_probe(),
        GlCapability::MultiDraw => GlOperationProbe::NotRun,
        GlCapability::Multiview => GlOperationProbe::NotRun,
        GlCapability::TimerQuery => GlOperationProbe::NotRequired,
    }
}

fn row_of(capability: GlCapability) -> (result: CoreOrExtension)
    ensures
        result == capability_row(capability),
{
    match capability {
        GlCapability::Compute => CoreOrExtension {
            desktop_core: Some(GlVersion { major: 4, minor: 3 }),
            embedded_core: Some(GlVersion { major: 3, minor: 1 }),
            extension: Some(GlKnownExtension::ArbComputeShader),
            extension_requires_probe: true,
        },
        GlCapability::StorageBuffer => CoreOrExtension {
            desktop_core: Some(GlVersion { major: 4, minor: 3 }),
            embedded_core: Some(GlVersion { major: 3, minor: 1 }),
            extension: Some(GlKnownExtension::ArbShaderStorageBufferObject),
            extension_requires_probe: true,
        },
        GlCapability::StorageImage => CoreOrExtension {
            desktop_core: Some(GlVersion { major: 4, minor: 2 }),
            embedded_core: Some(GlVersion { major: 3, minor: 1 }),
            extension: Some(GlKnownExtension::ArbShaderImageLoadStore),
            extension_requires_probe: true,
        },
        GlCapability::IndirectDraw => CoreOrExtension {
            desktop_core: Some(GlVersion { major: 4, minor: 0 }),
            embedded_core: Some(GlVersion { major: 3, minor: 1 }),
            extension: None,
            extension_requires_probe: false,
        },
        GlCapability::IndirectDispatch => CoreOrExtension {
            desktop_core: Some(GlVersion { major: 4, minor: 3 }),
            embedded_core: Some(GlVersion { major: 3, minor: 1 }),
            extension: None,
            extension_requires_probe: false,
        },
        GlCapability::MultiDrawIndirect => CoreOrExtension {
            desktop_core: Some(GlVersion { major: 4, minor: 3 }),
            embedded_core: None,
            extension: None,
            extension_requires_probe: false,
        },
        GlCapability::MultiDraw => CoreOrExtension {
            desktop_core: None,
            embedded_core: None,
            extension: Some(GlKnownExtension::WebglMultiDraw),
            extension_requires_probe: false,
        },
        GlCapability::Multiview => CoreOrExtension {
            desktop_core: None,
            embedded_core: None,
            extension: Some(GlKnownExtension::OvrMultiview2),
            extension_requires_probe: true,
        },
        GlCapability::TimerQuery => CoreOrExtension {
            desktop_core: Some(GlVersion { major: 3, minor: 3 }),
            embedded_core: Some(GlVersion { major: 3, minor: 0 }),
            extension: None,
            extension_requires_probe: false,
        },
    }
}

fn probe_of(capability: GlCapability, report: &ProbeReport) -> (result: GlOperationProbe)
    ensures
        result == capability_probe(capability, *report),
{
    match capability {
        GlCapability::Compute => report.compute.to_operation_probe(),
        GlCapability::StorageBuffer => report.storage_buffer.to_operation_probe(),
        GlCapability::StorageImage => report.storage_image.to_operation_probe(),
        GlCapability::IndirectDraw => report.indirect_draw.to_operation_probe(),
        GlCapability::IndirectDispatch => report.indirect_dispatch.to_operation_probe(),
        GlCapability::MultiDrawIndirect => report.multi_draw_indirect.to_operation_probe(),
        GlCapability::MultiDraw => GlOperationProbe::NotRun,
        GlCapability::Multiview => GlOperationProbe::NotRun,
        GlCapability::TimerQuery => GlOperationProbe::NotRequired,
    }
}

/// The record with one capability.
pub open spec fn with_capability(
    record: SnapshotModel,
    capability: GlCapability,
    report: ProbeReport,
) -> SnapshotModel {
    record.resolved(
        capability,
        capability_row(capability),
        capability_probe(capability, report),
    )
}

/// The record with all capabilities.
pub open spec fn with_capabilities(record: SnapshotModel, report: ProbeReport) -> SnapshotModel {
    let r1 = with_capability(record, GlCapability::Compute, report);
    let r2 = with_capability(r1, GlCapability::StorageBuffer, report);
    let r3 = with_capability(r2, GlCapability::StorageImage, report);
    let r4 = with_capability(r3, GlCapability::IndirectDraw, report);
    let r5 = with_capability(r4, GlCapability::IndirectDispatch, report);
    let r6 = with_capability(r5, GlCapability::MultiDrawIndirect, report);
    let r7 = with_capability(r6, GlCapability::MultiDraw, report);
    let r8 = with_capability(r7, GlCapability::Multiview, report);
    with_capability(r8, GlCapability::TimerQuery, report)
}

/// On a native context several draws and several views are never enabled, and
/// every other capability needs both a way to it and an operation that passed,
/// except for time counters.
pub proof fn capabilities_are_earned(
    record: SnapshotModel,
    report: ProbeReport,
    capability: GlCapability,
)
    requires
        record.limits.max_multi_draw_indirect_count is None,
    ensures
        ({
            let done = with_capabilities(record, report);
            &&& done.capabilities.contains_key(capability)
            &&& done.supports(capability) ==> {
                &&& !(capability is MultiDraw || capability is Multiview
                    || capability is MultiDrawIndirect)
                &&& capability_row(capability).spec_resolve(
                    record.context.profile,
                    record.extensions,
                ) is Some
                &&& capability is TimerQuery || capability_probe(capability, report) is Passed
            }
        }),
{
}

/// The flags of a context before its drawable was looked at.
pub open spec fn no_flags() -> FlagsModel {
    FlagsModel {
        debug: false,
        forward_compatible: false,
        no_error: false,
        robust_access: false,
        other: Set::empty(),
    }
}

/// The flags that a mask of bits stands for.
pub open spec fn flag_bits(bits: Option<i64>) -> FlagsModel {
    match bits {
        Some(bits) => FlagsModel {
            debug: bits & 2 != 0,
            forward_compatible: bits & 1 != 0,
            no_error: bits & 8 != 0,
            robust_access: false,
            other: set!["gl.context-flags=0x"@ + text::hexadecimal((bits as u64) as nat, 8)],
        },
        None => FlagsModel {
            other: set!["gl.context-flags-unavailable=true"@],
            ..no_flags()
        },
    }
}

/// The flags with the remark on the kind of desktop context.
pub open spec fn profile_bits(flags: FlagsModel, mask: Option<i64>) -> FlagsModel {
    match mask {
        Some(mask) => if mask & 1 != 0 {
            FlagsModel { other: flags.other.insert("gl.profile=core"@), ..flags }
        } else if mask & 2 != 0 {
            FlagsModel { other: flags.other.insert("gl.profile=compatibility"@), ..flags }
        } else {
            flags
        },
        None => flags,
    }
}

impl Inspection {
    pub open spec fn required_string(self, token: u32, name: &'static str, o: Seq<QueryStep>) -> (
        Inspection,
        Result<Seq<char>, ReasonModel>,
    ) {
        let (m, reply) = self.string(token, o);
        (
            m,
            match reply {
                Some(text) => if text::spec_is_blank(text@) {
                    Err(ReasonModel::InvalidContextString(name))
                } else {
                    Ok(text@)
                },
                None => Err(ReasonModel::InvalidContextString(name)),
            },
        )
    }

    /// The ledger with so many more reported names.
    pub open spec fn reported_names(
        self,
        ledger: LedgerModel,
        index: u32,
        count: u32,
        o: Seq<QueryStep>,
    ) -> (Inspection, Result<LedgerModel, ReasonModel>)
        decreases count - index,
    {
        if index >= count {
            (self, Ok(ledger))
        } else {
            let (m, reply) = self.indexed_string(glow_const::EXTENSIONS, index, o);
            match reply {
                None => (m, Err(ReasonModel::QueryFailed("glGetStringi(GL_EXTENSIONS)"))),
                Some(name) => m.reported_names(
                    ledger.reported(name@),
                    (index + 1) as u32,
                    count,
                    o,
                ),
            }
        }
    }

    pub open spec fn extensions(self, profile: GlFamilyProfile, o: Seq<QueryStep>) -> (
        Inspection,
        Result<LedgerModel, ReasonModel>,
    ) {
        let (m1, count) = self.integer(glow_const::NUM_EXTENSIONS, o);
        match answered(count, "GL_NUM_EXTENSIONS") {
            Err(error) => (m1, Err(error)),
            Ok(count) => {
                let (m2, names) = m1.reported_names(
                    LedgerModel { raw: Set::empty(), known: Map::empty() },
                    0,
                    count,
                    o,
                );
                match names {
                    Err(error) => (m2, Err(error)),
                    Ok(ledger) => (
                        m2,
                        Ok(acquired_all(ledger, profile, acquired_by_loading())),
                    ),
                }
            },
        }
    }

    /// One limit.
    pub open spec fn answer(self, ask: Ask, o: Seq<QueryStep>) -> (
        Inspection,
        Result<u32, ReasonModel>,
    ) {
        match ask {
            Ask::Required { token, name } => {
                let (m, reply) = self.integer(token, o);
                (m, answered(reply, name))
            },
            Ask::Optional { enabled, token } => if enabled {
                let (m, reply) = self.integer(token, o);
                (m, Ok(or_zero(reply)))
            } else {
                (self, Ok(0))
            },
            Ask::Indexed { enabled, token, index } => if enabled {
                let (m, reply) = self.indexed_integer(token, index, o);
                (m, Ok(or_zero(reply)))
            } else {
                (self, Ok(0))
            },
        }
    }

    /// Several limits, after those that are already known.
    pub open spec fn answers(self, asks: Seq<Ask>, known: Seq<u32>, o: Seq<QueryStep>) -> (
        Inspection,
        Result<Seq<u32>, ReasonModel>,
    )
        decreases asks.len(),
    {
        if asks.len() == 0 {
            (self, Ok(known))
        } else {
            let (m, value) = self.answer(asks[0], o);
            match value {
                Err(error) => (m, Err(error)),
                Ok(value) => m.answers(asks.skip(1), known.push(value), o),
            }
        }
    }

    /// The largest anisotropy, if the context has it.
    pub open spec fn anisotropy(self, ledger: LedgerModel, o: Seq<QueryStep>) -> (
        Inspection,
        Option<u32>,
    ) {
        if ledger.is_acquired(GlKnownExtension::ExtTextureFilterAnisotropic) {
            let (m, reply) = self.float(glow_const::MAX_TEXTURE_MAX_ANISOTROPY_EXT, o);
            (m, finite_answer(reply))
        } else {
            (self, None)
        }
    }

    pub open spec fn limits(
        self,
        profile: GlFamilyProfile,
        ledger: LedgerModel,
        report: ProbeReport,
        o: Seq<QueryStep>,
    ) -> (Inspection, Result<GlLimits, ReasonModel>) {
        let (m1, pair) = self.integer_pair(glow_const::MAX_VIEWPORT_DIMS, o);
        match pair {
            None => (m1, Err(ReasonModel::QueryFailed("GL_MAX_VIEWPORT_DIMS"))),
            Some(pair) => {
                let (m2, anisotropy) = m1.anisotropy(ledger, o);
                let (m3, sizes) = m2.answers(size_asks(), Seq::empty(), o);
                match sizes {
                    Err(error) => (m3, Err(error)),
                    Ok(sizes) => match (
                        fitting(pair.0, "GL_MAX_VIEWPORT_DIMS"),
                        fitting(pair.1, "GL_MAX_VIEWPORT_DIMS"),
                    ) {
                        (Ok(width), Ok(height)) => {
                            let (m4, others) = m3.answers(
                                other_asks(
                                    has_viewports(profile),
                                    limit_routes(profile, ledger),
                                    formats::has_multisample_textures(profile),
                                    ledger.is_acquired(GlKnownExtension::OvrMultiview2),
                                ),
                                Seq::empty(),
                                o,
                            );
                            match others {
                                Err(error) => (m4, Err(error)),
                                Ok(others) => (
                                    m4,
                                    Ok(limits_of(sizes, (width, height), others, report, anisotropy)),
                                ),
                            }
                        },
                        _ => (m3, Err(ReasonModel::QueryFailed("GL_MAX_VIEWPORT_DIMS"))),
                    },
                }
            },
        }
    }

    pub open spec fn context_flags(self, profile: GlFamilyProfile, o: Seq<QueryStep>) -> (
        Inspection,
        FlagsModel,
    ) {
        if profile is Desktop {
            let (m1, bits) = self.integer(glow_const::CONTEXT_FLAGS, o);
            let (m2, mask) = m1.integer(glow_const::CONTEXT_PROFILE_MASK, o);
            let (m3, robust) = m2.integer(glow_const::CONTEXT_ROBUST_ACCESS, o);
            (
                m3,
                FlagsModel {
                    robust_access: robust is Some && robust->0 != 0,
                    ..profile_bits(flag_bits(bits), mask)
                },
            )
        } else {
            (
                self,
                FlagsModel { other: set!["gl.context-flags=unavailable"@], ..no_flags() },
            )
        }
    }

    /// The record of a context whose texts are known.
    pub open spec fn record(
        self,
        stamp: ContextStamp,
        profile: GlFamilyProfile,
        version: Seq<char>,
        shading_language: Seq<char>,
        vendor: Seq<char>,
        renderer: Seq<char>,
        driver: Seq<char>,
        o: Seq<QueryStep>,
    ) -> (Inspection, Result<SnapshotModel, ReasonModel>) {
        let (m1, names) = self.extensions(profile, o);
        match names {
            Err(error) => (m1, Err(error)),
            Ok(ledger) => {
                let (m2, report) = m1.run_operation_probes(profile, ledger, o);
                let probed = probes::with_probes(ledger, profile, report);
                let (m3, limits) = m2.limits(profile, probed, report, o);
                match limits {
                    Err(error) => (m3, Err(error)),
                    Ok(limits) => {
                        let (m4, flags) = m3.context_flags(profile, o);
                        let (m5, surface, remarks) = m4.observe(o);
                        let all = flags.other + remarks;
                        (
                            m5,
                            Ok(
                                with_capabilities(
                                    SnapshotModel {
                                        stamp,
                                        context: InfoModel {
                                            profile,
                                            version,
                                            shading_language,
                                            vendor,
                                            renderer,
                                            driver: driver_identity(driver),
                                            flags: FlagsModel {
                                                other: if profile is Desktop {
                                                    all.insert(floor_marker())
                                                } else {
                                                    all
                                                },
                                                ..flags
                                            },
                                        },
                                        extensions: probed,
                                        limits,
                                        formats: formats::native_rows(
                                            FormatContext { profile, ledger: probed, limits, report },
                                        ),
                                        surface,
                                        capabilities: Map::empty(),
                                    },
                                    report,
                                ),
                            ),
                        )
                    },
                }
            },
        }
    }

    /// The record of a context.
    pub open spec fn discover(self, stamp: ContextStamp, driver: Seq<char>, o: Seq<QueryStep>) -> (
        Inspection,
        Result<SnapshotModel, ReasonModel>,
    ) {
        let (m0, pending) = self.take_error(o);
        if pending {
            (m0, Err(ReasonModel::PreExistingGlError))
        } else {
            let (m1, outcome) = m0.required_string(glow_const::VERSION, "GL_VERSION", o);
            match outcome {
                Err(error) => (m1, Err(error)),
                Ok(version) => {
                    match profile_in(version) {
                        None => (m1, Err(ReasonModel::UnsupportedProfile(version))),
                        Some(profile) => {
                            let (m2, outcome) = m1.required_string(glow_const::SHADING_LANGUAGE_VERSION, "GL_SHADING_LANGUAGE_VERSION", o);
                            match outcome {
                                Err(error) => (m2, Err(error)),
                                Ok(glsl) => {
                                    let (m3, outcome) = m2.required_string(glow_const::VENDOR, "GL_VENDOR", o);
                                    match outcome {
                                        Err(error) => (m3, Err(error)),
                                        Ok(vendor) => {
                                            let (m4, outcome) = m3.required_string(glow_const::RENDERER, "GL_RENDERER", o);
                                            match outcome {
                                                Err(error) => (m4, Err(error)),
                                                Ok(renderer) => {
                                                    m4.record(stamp, profile, version, glsl, vendor, renderer, driver, o)
                                                },
                                            }
                                        },
                                    }
                                },
                            }
                        },
                    }
                },
            }
        }
    }
}

/// A record is that of an accepted profile, is stamped as asked, and has the
/// depth row that every record has. The driver in it is never the version that
/// the context reports, unless the platform itself says so.
pub proof fn records_are_complete(
    seen: Inspection,
    stamp: ContextStamp,
    driver: Seq<char>,
    o: Seq<QueryStep>,
)
    requires
        seen.discover(stamp, driver, o).1 is Ok,
    ensures
        ({
            let record = seen.discover(stamp, driver, o).1->Ok_0;
            &&& record.stamp == stamp
            &&& profile_in(record.context.version) == Some(record.context.profile)
            &&& record.formats.contains_key(discovery::depth_key())
            &&& record.context.driver == driver_identity(driver)
            &&& record.context.profile is Desktop ==> record.context.flags.other.contains(
                floor_marker(),
            )
        }),
{
}

impl<Q: NativeGlQuery, P: NativeGlProbes> QueryLink<Q, P> {
    /// A text that has to be there.
    pub fn required_string(&mut self, token: u32, name: &'static str) -> (result: Result<
        String,
        NativeDiscoveryError,
    >)
        requires
            old(self).wf(),
        ensures
            final(self).wf(),
            query::grows(old(self)@.log, final(self)@.log),
            forall|o: Seq<QueryStep>|
                query::grows(final(self)@.log, o) ==> #[trigger] old(self)@.required_string(token, name, o) == (
                    final(self)@,
                    text_result(result),
                ),
    {
        match self.string(token) {
            Some(text) => if is_blank(text.as_str()) {
                Err(NativeDiscoveryError::InvalidContextString(name))
            } else {
                Ok(text)
            },
            None => Err(NativeDiscoveryError::InvalidContextString(name)),
        }
    }

    /// The ledger of the context.
    pub fn extensions(&mut self, profile: GlFamilyProfile) -> (result: Result<
        GlExtensionSet,
        NativeDiscoveryError,
    >)
        requires
            old(self).wf(),
        ensures
            result is Ok ==> result->Ok_0.wf(),
            query::grows(old(self)@.log, final(self)@.log),
            forall|o: Seq<QueryStep>|
                query::grows(final(self)@.log, o) ==> #[trigger] old(self)@.extensions(profile, o)
                    == (final(self)@, ledger_result(result)),
    {
        let reply = self.integer(glow_const::NUM_EXTENSIONS);
        let count = match nonnegative(reply, "GL_NUM_EXTENSIONS") {
            Ok(count) => count,
            Err(error) => {
                return Err(error);
            },
        };
        let ghost start = self@;
        let mut result = GlExtensionSet::new();
        let mut index: u32 = 0;
        let ghost empty = result@;
        while index < count
            invariant
                index <= count,
                result.wf(),
                query::grows(old(self)@.log, start.log),
                query::grows(start.log, self@.log),
                forall|o: Seq<QueryStep>|
                    query::grows(self@.log, o) ==> #[trigger] start.reported_names(
                        empty,
                        0,
                        count,
                        o,
                    ) == self@.reported_names(result@, index, count, o),
                start == old(self)@.asked(
                    QueryStep::Integer { name: glow_const::NUM_EXTENSIONS, reply },
                ),
                answered(reply, "GL_NUM_EXTENSIONS") == Ok::<u32, ReasonModel>(count),
                empty == (LedgerModel { raw: Set::empty(), known: Map::empty() }),
            decreases count - index,
        {
            let ghost before = self@;
            let ghost sofar = result@;
            match self.indexed_string(glow_const::EXTENSIONS, index) {
                Some(name) => {
                    result.report_raw(name.as_str());
                },
                None => {
                    return Err(NativeDiscoveryError::QueryFailed("glGetStringi(GL_EXTENSIONS)"));
                },
            }
            index += 1;
        }
        let wanted = list_acquired_by_loading();
        let ghost reported = result@;
        let mut at: usize = 0;
        assert(wanted@.skip(0) =~= wanted@);
        while at < wanted.len()
            invariant
                at <= wanted@.len(),
                result.wf(),
                acquired_all(reported, profile, wanted@) == acquired_all(
                    result@,
                    profile,
                    wanted@.skip(at as int),
                ),
            decreases wanted@.len() - at,
        {
            assert(wanted@.skip(at as int).skip(1) =~= wanted@.skip(at + 1));
            let known = wanted[at];
            if known.is_legal_for(profile) && result.provenance(known).is_some() {
                let _ = result.acquire(known);
            }
            at += 1;
        }
        Ok(result)
    }

    fn answer(&mut self, ask: Ask) -> (result: Result<u32, NativeDiscoveryError>)
        requires
            old(self).wf(),
        ensures
            final(self).wf(),
            query::grows(old(self)@.log, final(self)@.log),
            forall|o: Seq<QueryStep>|
                query::grows(final(self)@.log, o) ==> #[trigger] old(self)@.answer(ask, o) == (
                    final(self)@,
                    plain_result(result),
                ),
    {
        match ask {
            Ask::Required { token, name } => {
                let reply = self.integer(token);
                nonnegative(reply, name)
            },
            Ask::Optional { enabled, token } => if enabled {
                let reply = self.integer(token);
                Ok(zero_unless(reply))
            } else {
                Ok(0)
            },
            Ask::Indexed { enabled, token, index } => if enabled {
                let reply = self.indexed_integer(token, index);
                Ok(zero_unless(reply))
            } else {
                Ok(0)
            },
        }
    }

    fn answers(&mut self, asks: &Vec<Ask>) -> (result: Result<Vec<u32>, NativeDiscoveryError>)
        requires
            old(self).wf(),
        ensures
            result is Ok ==> result->Ok_0@.len() == asks@.len(),
            query::grows(old(self)@.log, final(self)@.log),
            forall|o: Seq<QueryStep>|
                query::grows(final(self)@.log, o) ==> #[trigger] old(self)@.answers(
                    asks@,
                    Seq::empty(),
                    o,
                ) == (final(self)@, list_result(result)),
    {
        let mut values: Vec<u32> = Vec::new();
        let mut at: usize = 0;
        assert(asks@.skip(0) =~= asks@);
        assert(values@ =~= Seq::<u32>::empty());
        while at < asks.len()
            invariant
                at <= asks@.len(),
                values@.len() == at,
                query::grows(old(self)@.log, self@.log),
                forall|o: Seq<QueryStep>|
                    query::grows(self@.log, o) ==> #[trigger] old(self)@.answers(
                        asks@,
                        Seq::empty(),
                        o,
                    ) == self@.answers(asks@.skip(at as int), values@, o),
            decreases asks@.len() - at,
        {
            assert(asks@.skip(at as int).skip(1) =~= asks@.skip(at + 1));
            let ghost before = self@;
            match self.answer(asks[at]) {
                Ok(value) => {
                    values.push(value);
                },
                Err(error) => {
                    return Err(error);
                },
            }
            at += 1;
        }
        Ok(values)
    }

    fn anisotropy(&mut self, extensions: &GlExtensionSet) -> (result: Option<u32>)
        requires
            old(self).wf(),
            extensions.wf(),
        ensures
            final(self).wf(),
            query::grows(old(self)@.log, final(self)@.log),
            forall|o: Seq<QueryStep>|
                query::grows(final(self)@.log, o) ==> #[trigger] old(self)@.anisotropy(extensions@, o) == (
                    final(self)@,
                    result,
                ),
    {
        if !extensions.is_acquired(GlKnownExtension::ExtTextureFilterAnisotropic) {
            return None;
        }
        match self.float(glow_const::MAX_TEXTURE_MAX_ANISOTROPY_EXT) {
            Some(bits) => if float::is_finite(bits) {
                Some(bits)
            } else {
                None
            },
            None => None,
        }
    }

    /// The limits of the context. Only what every accepted context has can fail.
    pub fn limits(
        &mut self,
        profile: GlFamilyProfile,
        extensions: &GlExtensionSet,
        report: &ProbeReport,
    ) -> (result: Result<GlLimits, NativeDiscoveryError>)
        requires
            old(self).wf(),
            extensions.wf(),
        ensures
            final(self).wf(),
            query::grows(old(self)@.log, final(self)@.log),
            forall|o: Seq<QueryStep>|
                query::grows(final(self)@.log, o) ==> #[trigger] old(self)@.limits(profile, extensions@, *report, o) == (
                    final(self)@,
                    plain_result(result),
                ),
    {
        let pair = match self.integer_pair(glow_const::MAX_VIEWPORT_DIMS) {
            Some(pair) => pair,
            None => {
                return Err(NativeDiscoveryError::QueryFailed("GL_MAX_VIEWPORT_DIMS"));
            },
        };
        let routes = optional_limit_routes(profile, extensions);
        let multisample = supports_multisample_texture_storage(profile);
        let anisotropy = self.anisotropy(extensions);
        let asks = list_size_asks();
        let sizes = match self.answers(&asks) {
            Ok(value) => value,
            Err(error) => {
                return Err(error);
            },
        };
        let width = match to_u32(pair.0, "GL_MAX_VIEWPORT_DIMS") {
            Ok(value) => value,
            Err(error) => {
                return Err(error);
            },
        };
        let height = match to_u32(pair.1, "GL_MAX_VIEWPORT_DIMS") {
            Ok(value) => value,
            Err(error) => {
                return Err(error);
            },
        };
        let viewports = match profile {
            GlFamilyProfile::Desktop { major, minor } => major == 4 && minor >= 1,
            _ => false,
        };
        let more = list_other_asks(
            viewports,
            routes,
            multisample,
            extensions.is_acquired(GlKnownExtension::OvrMultiview2),
        );
        let others = match self.answers(&more) {
            Ok(value) => value,
            Err(error) => {
                return Err(error);
            },
        };
        Ok(
            GlLimits {
                max_texture_size: sizes[0],
                max_3d_texture_size: sizes[1],
                max_array_texture_layers: sizes[2],
                max_cube_map_texture_size: sizes[3],
                max_renderbuffer_size: sizes[4],
                max_color_attachments: sizes[5],
                max_draw_buffers: sizes[6],
                max_vertex_attributes: sizes[7],
                max_viewport_dimensions: (width, height),
                max_viewports: others[0],
                max_vertex_texture_image_units: others[1],
                max_fragment_texture_image_units: others[2],
                max_combined_texture_image_units: others[3],
                max_uniform_buffer_bindings: others[4],
                max_uniform_block_size: others[5] as u64,
                uniform_buffer_offset_alignment: others[6] as u64,
                max_vertex_uniform_blocks: others[7],
                max_fragment_uniform_blocks: others[8],
                max_compute_uniform_blocks: others[9],
                max_combined_uniform_blocks: others[10],
                max_storage_buffer_bindings: others[11],
                max_storage_block_size: others[12] as u64,
                storage_buffer_offset_alignment: others[13] as u64,
                max_vertex_storage_blocks: others[14],
                max_fragment_storage_blocks: others[15],
                max_compute_storage_blocks: others[16],
                max_combined_storage_blocks: others[17],
                max_image_units: others[18],
                max_combined_image_units: others[19],
                max_samples: others[20],
                max_color_texture_samples: one_or_more(others[21]),
                max_depth_texture_samples: one_or_more(others[22]),
                max_integer_samples: one_or_more(others[23]),
                max_compute_work_group_count: (others[24], others[25], others[26]),
                max_compute_work_group_size: (others[27], others[28], others[29]),
                max_compute_work_group_invocations: others[30],
                max_multiview_view_count: others[31],
                max_multi_draw_indirect_count: None,
                query_counter_bits: match report.query_counter_bits {
                    Some(bits) => bits,
                    None => 0,
                },
                max_texture_anisotropy: anisotropy,
            },
        )
    }

    /// The flags of the context. Where it cannot be asked for them, that is
    /// remarked.
    pub fn context_flags(&mut self, profile: GlFamilyProfile) -> (result: GlContextFlags)
        requires
            old(self).wf(),
        ensures
            query::grows(old(self)@.log, final(self)@.log),
            forall|o: Seq<QueryStep>|
                query::grows(final(self)@.log, o) ==> #[trigger] old(self)@.context_flags(
                    profile,
                    o,
                ) == (final(self)@, result@),
    {
        let mut flags = GlContextFlags::new();
        match profile {
            GlFamilyProfile::Desktop { .. } => {
                let bits = self.integer(glow_const::CONTEXT_FLAGS);
                match bits {
                    Some(bits) => {
                        let mut remark = "gl.context-flags=0x".to_owned();
                        push_hexadecimal(&mut remark, bits as u64, 8);
                        flags.other.insert(remark);
                        flags.debug = bits & 2 != 0;
                        flags.forward_compatible = bits & 1 != 0;
                        flags.no_error = bits & 8 != 0;
                    },
                    None => {
                        flags.other.insert("gl.context-flags-unavailable=true".to_owned());
                    },
                }
                assert(flags@ =~= flag_bits(bits));
                if let Some(mask) = self.integer(glow_const::CONTEXT_PROFILE_MASK) {
                    if mask & 1 != 0 {
                        flags.other.insert("gl.profile=core".to_owned());
                    } else if mask & 2 != 0 {
                        flags.other.insert("gl.profile=compatibility".to_owned());
                    }
                }
                if let Some(robust) = self.integer(glow_const::CONTEXT_ROBUST_ACCESS) {
                    flags.robust_access = robust != 0;
                }
            },
            GlFamilyProfile::Embedded { .. } | GlFamilyProfile::WebGl2 => {
                flags.other.insert("gl.context-flags=unavailable".to_owned());
                assert(flags@.other =~= set!["gl.context-flags=unavailable"@]);
            },
        }
        flags
    }

    fn record(
        &mut self,
        stamp: ContextStamp,
        profile: GlFamilyProfile,
        version: String,
        shading_language: String,
        vendor: String,
        renderer: String,
        driver: &str,
    ) -> (result: Result<GlDiscoverySnapshot, NativeDiscoveryError>)
        requires
            old(self).wf(),
        ensures
            result is Ok ==> result->Ok_0.wf(),
            query::grows(old(self)@.log, final(self)@.log),
            forall|o: Seq<QueryStep>|
                query::grows(final(self)@.log, o) ==> #[trigger] old(self)@.record(
                    stamp,
                    profile,
                    version@,
                    shading_language@,
                    vendor@,
                    renderer@,
                    driver@,
                    o,
                ) == (final(self)@, record_result(result)),
    {
        let mut extensions = match self.extensions(profile) {
            Ok(value) => value,
            Err(error) => {
                return Err(error);
            },
        };
        let report = self.run_operation_probes(profile, &extensions);
        record_extension_probes(profile, &report, &mut extensions);
        let limits = match self.limits(profile, &extensions, &report) {
            Ok(value) => value,
            Err(error) => {
                return Err(error);
            },
        };
        let formats = match native_formats(profile, &extensions, &limits, &report) {
            Ok(formats) => formats,
            Err(error) => {
                return Err(NativeDiscoveryError::Snapshot(error));
            },
        };
        let mut flags = self.context_flags(profile);
        let (surface, remarks) = surface_facts::observe(self);
        flags.other.extend(remarks);
        match profile {
            GlFamilyProfile::Desktop { .. } => {
                flags.other.insert(desktop_context_floor_marker());
            },
            _ => {},
        }
        let info = GlContextInfo {
            profile,
            version,
            shading_language,
            vendor,
            renderer,
            driver: normalized_driver_identity(driver),
            flags,
        };
        let mut record = match GlDiscoverySnapshot::new(
            stamp,
            info,
            extensions,
            limits,
            formats,
        ) {
            Ok(record) => record,
            Err(error) => {
                return Err(NativeDiscoveryError::Snapshot(error));
            },
        };
        record.surface_facts(surface);
        resolve_all(&mut record, &report);
        Ok(record)
    }

    /// Finds out what the context can do. `driver` is what the platform says of
    /// its driver; it cannot be read from the context.
    pub fn discover_with_query_pair(&mut self, stamp: ContextStamp, driver: &str) -> (result: Result<
        GlDiscoverySnapshot,
        NativeDiscoveryError,
    >)
        requires
            old(self).wf(),
        ensures
            result is Ok ==> result->Ok_0.wf(),
            query::grows(old(self)@.log, final(self)@.log),
            forall|o: Seq<QueryStep>|
                query::grows(final(self)@.log, o) ==> #[trigger] old(self)@.discover(
                    stamp,
                    driver@,
                    o,
                ) == (final(self)@, record_result(result)),
    {
        if self.take_error() {
            return Err(NativeDiscoveryError::PreExistingGlError);
        }
        let version = match self.required_string(glow_const::VERSION, "GL_VERSION") {
            Ok(value) => value,
            Err(error) => {
                return Err(error);
            },
        };
        let profile = match parse_native_profile(version.as_str()) {
            Some(profile) => profile,
            None => {
                return Err(NativeDiscoveryError::UnsupportedProfile(version));
            },
        };
        let glsl = match self.required_string(glow_const::SHADING_LANGUAGE_VERSION, "GL_SHADING_LANGUAGE_VERSION") {
            Ok(value) => value,
            Err(error) => {
                return Err(error);
            },
        };
        let vendor = match self.required_string(glow_const::VENDOR, "GL_VENDOR") {
            Ok(value) => value,
            Err(error) => {
                return Err(error);
            },
        };
        let renderer = match self.required_string(glow_const::RENDERER, "GL_RENDERER") {
            Ok(value) => value,
            Err(error) => {
                return Err(error);
            },
        };
        self.record(stamp, profile, version, glsl, vendor, renderer, driver)
    }
}

fn resolve_one(record: &mut GlDiscoverySnapshot, capability: GlCapability, report: &ProbeReport)
    requires
        old(record).wf(),
    ensures
        final(record).wf(),
        final(record)@ == with_capability(old(record)@, capability, *report),
{
    let row = row_of(capability);
    record.resolve(capability, &row, probe_of(capability, report));
}

fn resolve_all(record: &mut GlDiscoverySnapshot, report: &ProbeReport)
    requires
        old(record).wf(),
    ensures
        final(record).wf(),
        final(record)@ == with_capabilities(old(record)@, *report),
{
    resolve_one(record, GlCapability::Compute, report);
    resolve_one(record, GlCapability::StorageBuffer, report);
    resolve_one(record, GlCapability::StorageImage, report);
    resolve_one(record, GlCapability::IndirectDraw, report);
    resolve_one(record, GlCapability::IndirectDispatch, report);
    resolve_one(record, GlCapability::MultiDrawIndirect, report);
    resolve_one(record, GlCapability::MultiDraw, report);
    resolve_one(record, GlCapability::Multiview, report);
    resolve_one(record, GlCapability::TimerQuery, report);
}

/// Finds out what a context can do whose platform says nothing of its driver.
pub fn discover_with_query<Q: NativeGlQuery, P: NativeGlProbes>(
    link: &mut QueryLink<Q, P>,
    stamp: ContextStamp,
) -> (result: Result<GlDiscoverySnapshot, NativeDiscoveryError>)
    requires
        old(link).wf(),
    ensures
        result is Ok ==> result->Ok_0.wf(),
        query::grows(old(link)@.log, final(link)@.log),
        forall|o: Seq<QueryStep>|
            query::grows(final(link)@.log, o) ==> #[trigger] old(link)@.discover(
                stamp,
                "gl.driver-identity-unavailable=true"@,
                o,
            ) == (final(link)@, record_result(result)),
{
    discover_with_query_identified(link, stamp, DRIVER_IDENTITY_UNAVAILABLE)
}

/// Finds out what a context can do, with what the platform says of its driver.
pub fn discover_with_query_identified<Q: NativeGlQuery, P: NativeGlProbes>(
    link: &mut QueryLink<Q, P>,
    stamp: ContextStamp,
    driver: &str,
) -> (result: Result<GlDiscoverySnapshot, NativeDiscoveryError>)
    requires
        old(link).wf(),
    ensures
        result is Ok ==> result->Ok_0.wf(),
        query::grows(old(link)@.log, final(link)@.log),
        forall|o: Seq<QueryStep>|
            query::grows(final(link)@.log, o) ==> #[trigger] old(link)@.discover(stamp, driver@, o)
                == (final(link)@, record_result(result)),
{
    link.discover_with_query_pair(stamp, driver)
}

} // verus!
