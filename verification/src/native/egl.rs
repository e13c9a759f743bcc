//! What EGL is asked for, and what its failures mean.
//!
//! Windows of X11, Wayland and Android are supported, and buffers off the
//! screen. A handle without a documented way to a display is refused.

use vstd::prelude::*;
use vstd::string::*;
use crate::api::error::{GlError, Message};
use crate::api::gl::GlFamilyProfile;
use crate::api::identity::ContextStamp;
use crate::native::discovery::{NativeDiscoveryError, ReasonModel};
use crate::native::drawable;
use crate::native::drawable::{
    describe_extent, push_quoted, push_reason, within_viewport_limit,
};
use crate::text;
use crate::text::{chars_of, has_prefix, has_word, lead_end, push_decimal, trim, CharClass};

verus! {

pub const OPENGL_ES_API: u32 = 0x30A0;

pub const VENDOR: i32 = 0x3053;

pub const VERSION: i32 = 0x3054;

pub const EXTENSIONS: i32 = 0x3055;

pub const SURFACE_TYPE: i32 = 0x3033;

pub const WINDOW_BIT: i32 = 0x0004;

pub const PBUFFER_BIT: i32 = 0x0001;

pub const RENDERABLE_TYPE: i32 = 0x3040;

pub const OPENGL_ES3_BIT: i32 = 0x0040;

pub const ALPHA_SIZE: i32 = 0x3021;

pub const BLUE_SIZE: i32 = 0x3022;

pub const GREEN_SIZE: i32 = 0x3023;

pub const RED_SIZE: i32 = 0x3024;

pub const DEPTH_SIZE: i32 = 0x3025;

pub const STENCIL_SIZE: i32 = 0x3026;

pub const NONE: i32 = 0x3038;

pub const HEIGHT: i32 = 0x3056;

pub const WIDTH: i32 = 0x3057;

pub const CONTEXT_CLIENT_VERSION: i32 = 0x3098;

pub const CONTEXT_MAJOR_VERSION_KHR: i32 = 0x3098;

pub const CONTEXT_MINOR_VERSION_KHR: i32 = 0x30FB;

/// A version of OpenGL ES that is asked for.
#[derive(Clone, Copy, Debug, PartialEq, Eq, Structural)]
pub enum EglGlesVersion {
    V3_0,
    V3_1,
    V3_2,
}

impl EglGlesVersion {
    pub open spec fn spec_minor(self) -> i32 {
        match self {
            EglGlesVersion::V3_0 => 0,
            EglGlesVersion::V3_1 => 1,
            EglGlesVersion::V3_2 => 2,
        }
    }

    pub fn minor(self) -> (result: i32)
        ensures
            result == self.spec_minor(),
    {
        match self {
            EglGlesVersion::V3_0 => 0,
            EglGlesVersion::V3_1 => 1,
            EglGlesVersion::V3_2 => 2,
        }
    }

    pub open spec fn spec_profile(self) -> GlFamilyProfile {
        GlFamilyProfile::Embedded { major: 3, minor: self.spec_minor() as u8 }
    }

    pub fn profile(self) -> (result: GlFamilyProfile)
        ensures
            result == self.spec_profile(),
    {
        GlFamilyProfile::Embedded { major: 3, minor: self.minor() as u8 }
    }

    pub open spec fn spec_satisfies(self, requested: EglGlesVersion) -> bool {
        self.spec_minor() >= requested.spec_minor()
    }

    /// Whether a context of this version will do where another was asked for.
    /// What is asked for is a floor.
    pub fn satisfies(self, requested: EglGlesVersion) -> (result: bool)
        ensures
            result == self.spec_satisfies(requested),
    {
        self.minor() >= requested.minor()
    }

    /// The name of the version.
    pub open spec fn spec_name(self) -> &'static str {
        match self {
            EglGlesVersion::V3_0 => "V3_0",
            EglGlesVersion::V3_1 => "V3_1",
            EglGlesVersion::V3_2 => "V3_2",
        }
    }

    pub fn name(self) -> (result: &'static str)
        ensures
            result == self.spec_name(),
    {
        match self {
            EglGlesVersion::V3_0 => "V3_0",
            EglGlesVersion::V3_1 => "V3_1",
            EglGlesVersion::V3_2 => "V3_2",
        }
    }

    /// The version as numbers.
    pub open spec fn spec_number(self) -> &'static str {
        match self {
            EglGlesVersion::V3_0 => "3.0",
            EglGlesVersion::V3_1 => "3.1",
            EglGlesVersion::V3_2 => "3.2",
        }
    }

    pub fn number(self) -> (result: &'static str)
        ensures
            result == self.spec_number(),
    {
        match self {
            EglGlesVersion::V3_0 => "3.0",
            EglGlesVersion::V3_1 => "3.1",
            EglGlesVersion::V3_2 => "3.2",
        }
    }
}

/// A version never stands in for a later one, and always for itself and for
/// earlier ones.
pub proof fn versions_are_floors(a: EglGlesVersion, b: EglGlesVersion, c: EglGlesVersion)
    ensures
        a.spec_satisfies(a),
        a.spec_satisfies(b) || b.spec_satisfies(a),
        a.spec_satisfies(b) && b.spec_satisfies(a) ==> a == b,
        a.spec_satisfies(b) && b.spec_satisfies(c) ==> a.spec_satisfies(c),
{
}

/// The size of a buffer off the screen.
#[derive(Clone, Copy, Debug, PartialEq, Eq, Structural)]
pub struct EglPbufferSize {
    pub width: u32,
    pub height: u32,
}

/// Whether EGL can express a size, and it has an area.
pub open spec fn size_is_valid(size: EglPbufferSize) -> bool {
    0 < size.width <= i32::MAX && 0 < size.height <= i32::MAX
}

impl EglPbufferSize {
    /// A small size for probes.
    pub fn probe() -> (result: Self)
        ensures
            result == (EglPbufferSize { width: 16, height: 16 }),
    {
        EglPbufferSize { width: 16, height: 16 }
    }

    pub open spec fn spec_checked(self) -> Result<(i32, i32), EglFailure> {
        if size_is_valid(self) {
            Ok((self.width as i32, self.height as i32))
        } else {
            Err(EglFailure::InvalidSize(self))
        }
    }

    pub fn checked(self) -> (result: Result<(i32, i32), EglProviderError>)
        ensures
            plain(result) == self.spec_checked(),
    {
        if self.width > i32::MAX as u32 {
            return Err(EglProviderError::InvalidSize(self));
        }
        if self.height > i32::MAX as u32 {
            return Err(EglProviderError::InvalidSize(self));
        }
        if self.width == 0 || self.height == 0 {
            return Err(EglProviderError::InvalidSize(self));
        }
        Ok((self.width as i32, self.height as i32))
    }
}

/// An error of EGL.
#[derive(Clone, Copy, Debug, PartialEq, Eq, Structural)]
pub enum EglError {
    NotInitialized,
    BadAccess,
    BadAlloc,
    BadAttribute,
    BadContext,
    BadConfig,
    BadCurrentSurface,
    BadDisplay,
    BadSurface,
    BadMatch,
    BadParameter,
    BadNativePixmap,
    BadNativeWindow,
    ContextLost,
}

impl EglError {
    /// What is said of the error.
    pub open spec fn spec_text(self) -> &'static str {
        match self {
            EglError::NotInitialized => "EGL error: NotInitialized",
            EglError::BadAccess => "EGL error: BadAccess",
            EglError::BadAlloc => "EGL error: BadAlloc",
            EglError::BadAttribute => "EGL error: BadAttribute",
            EglError::BadContext => "EGL error: BadContext",
            EglError::BadConfig => "EGL error: BadConfig",
            EglError::BadCurrentSurface => "EGL error: BadCurrentSurface",
            EglError::BadDisplay => "EGL error: BadDisplay",
            EglError::BadSurface => "EGL error: BadSurface",
            EglError::BadMatch => "EGL error: BadMatch",
            EglError::BadParameter => "EGL error: BadParameter",
            EglError::BadNativePixmap => "EGL error: BadNativePixmap",
            EglError::BadNativeWindow => "EGL error: BadNativeWindow",
            EglError::ContextLost => "EGL error: ContextLost",
        }
    }

    pub fn text(self) -> (result: &'static str)
        ensures
            result == self.spec_text(),
    {
        match self {
            EglError::NotInitialized => "EGL error: NotInitialized",
            EglError::BadAccess => "EGL error: BadAccess",
            EglError::BadAlloc => "EGL error: BadAlloc",
            EglError::BadAttribute => "EGL error: BadAttribute",
            EglError::BadContext => "EGL error: BadContext",
            EglError::BadConfig => "EGL error: BadConfig",
            EglError::BadCurrentSurface => "EGL error: BadCurrentSurface",
            EglError::BadDisplay => "EGL error: BadDisplay",
            EglError::BadSurface => "EGL error: BadSurface",
            EglError::BadMatch => "EGL error: BadMatch",
            EglError::BadParameter => "EGL error: BadParameter",
            EglError::BadNativePixmap => "EGL error: BadNativePixmap",
            EglError::BadNativeWindow => "EGL error: BadNativeWindow",
            EglError::ContextLost => "EGL error: ContextLost",
        }
    }
}

/// Why a context could not be made or used.
#[derive(Debug)]
pub enum EglProviderError {
    /// There is no EGL on this system.
    Load(Message),
    /// The handles have no documented way to a display.
    UnsupportedHandlePair { display: &'static str, window: &'static str },
    /// There is no such display.
    DisplayUnavailable,
    /// EGL cannot be asked for a minor version.
    ExactVersionUnavailable(EglGlesVersion),
    /// No configuration will do.
    ConfigUnavailable,
    /// A handle lacks something.
    InvalidNativeHandle(&'static str),
    /// A buffer cannot have this size.
    InvalidSize(EglPbufferSize),
    /// A call of EGL failed.
    Egl { operation: &'static str, error: EglError },
    /// The context is below the version that was asked for.
    BelowRequestedProfile { requested: EglGlesVersion, observed: Message },
    /// The context could not be described.
    Discovery(NativeDiscoveryError),
    /// The drawable is larger than any viewport.
    DrawableExtentExceedsViewportLimit { requested: (u32, u32), limit: (u32, u32) },
    /// A rule of the library was broken.
    Gl(GlError),
}

/// The failure by value.
pub enum EglFailure {
    Load(Message),
    UnsupportedHandlePair { display: &'static str, window: &'static str },
    DisplayUnavailable,
    ExactVersionUnavailable(EglGlesVersion),
    ConfigUnavailable,
    InvalidNativeHandle(&'static str),
    InvalidSize(EglPbufferSize),
    Egl { operation: &'static str, error: EglError },
    BelowRequestedProfile { requested: EglGlesVersion, observed: Message },
    Discovery(ReasonModel),
    DrawableExtentExceedsViewportLimit { requested: (u32, u32), limit: (u32, u32) },
    Gl(GlError),
}

impl View for EglProviderError {
    type V = EglFailure;

    open spec fn view(&self) -> EglFailure {
        match *self {
            EglProviderError::Load(message) => EglFailure::Load(message),
            EglProviderError::UnsupportedHandlePair { display, window } =>
                EglFailure::UnsupportedHandlePair { display, window },
            EglProviderError::DisplayUnavailable => EglFailure::DisplayUnavailable,
            EglProviderError::ExactVersionUnavailable(version) =>
                EglFailure::ExactVersionUnavailable(version),
            EglProviderError::ConfigUnavailable => EglFailure::ConfigUnavailable,
            EglProviderError::InvalidNativeHandle(name) => EglFailure::InvalidNativeHandle(name),
            EglProviderError::InvalidSize(size) => EglFailure::InvalidSize(size),
            EglProviderError::Egl { operation, error } => EglFailure::Egl { operation, error },
            EglProviderError::BelowRequestedProfile { requested, observed } =>
                EglFailure::BelowRequestedProfile { requested, observed },
            EglProviderError::Discovery(reason) => EglFailure::Discovery(reason@),
            EglProviderError::DrawableExtentExceedsViewportLimit { requested, limit } =>
                EglFailure::DrawableExtentExceedsViewportLimit { requested, limit },
            EglProviderError::Gl(error) => EglFailure::Gl(error),
        }
    }
}

/// A result with its failure by value.
pub open spec fn plain<T>(result: Result<T, EglProviderError>) -> Result<T, EglFailure> {
    match result {
        Ok(value) => Ok(value),
        Err(error) => Err(error@),
    }
}

/// What is said of a failure that is neither an error of EGL nor of the
/// library.
pub open spec fn failure_text(failure: EglFailure) -> Seq<char> {
    match failure {
        EglFailure::Load(message) => drawable::quoted("Load"@, message.text()),
        EglFailure::UnsupportedHandlePair { display, window } =>
            "UnsupportedHandlePair { display: \""@ + display@ + "\", window: \""@ + window@
                + "\" }"@,
        EglFailure::DisplayUnavailable => "DisplayUnavailable"@,
        EglFailure::ExactVersionUnavailable(version) => "ExactVersionUnavailable("@
            + version.spec_name()@ + ")"@,
        EglFailure::ConfigUnavailable => "ConfigUnavailable"@,
        EglFailure::InvalidNativeHandle(name) => drawable::quoted("InvalidNativeHandle"@, name@),
        EglFailure::InvalidSize(size) => "InvalidSize(EglPbufferSize { width: "@ + text::decimal(
            size.width as nat,
        ) + ", height: "@ + text::decimal(size.height as nat) + " })"@,
        EglFailure::BelowRequestedProfile { requested, observed } =>
            "BelowRequestedProfile { requested: "@ + requested.spec_name()@ + ", observed: \""@
                + observed.text() + "\" }"@,
        _ => Seq::empty(),
    }
}

/// Whether this is what a failure is to the presentation domain.
pub open spec fn flattened(failure: EglFailure, error: GlError) -> bool {
    match failure {
        EglFailure::Gl(inner) => error == inner,
        EglFailure::Egl { operation, error: code } => error == (GlError::Driver {
            operation,
            message: Message::Text(code.spec_text()),
        }),
        EglFailure::DrawableExtentExceedsViewportLimit { requested, limit } => {
            &&& error is Validation
            &&& error->Validation_operation == "drawable-extent"
            &&& error->Validation_message.text() == drawable::extent_text(requested, limit)
        },
        EglFailure::Discovery(reason) => {
            &&& error is Driver
            &&& error->Driver_operation == "discover EGL context"
            &&& error->Driver_message.text() == "native GL discovery failed: "@
                + drawable::reason_text(reason)
        },
        other => {
            &&& error is Driver
            &&& error->Driver_operation == "egl-provider"
            &&& error->Driver_message.text() == "EGL provider error: "@ + failure_text(other)
        },
    }
}

fn push_failure(line: &mut String, failure: &EglProviderError)
    ensures
        final(line)@ == old(line)@ + failure_text(failure@),
{
    let ghost before = line@;
    match failure {
        EglProviderError::Load(message) => {
            push_quoted(line, "Load", message.as_str());
        },
        EglProviderError::UnsupportedHandlePair { display, window } => {
            line.append("UnsupportedHandlePair { display: \"");
            line.append(display);
            line.append("\", window: \"");
            line.append(window);
            line.append("\" }");
        },
        EglProviderError::DisplayUnavailable => {
            line.append("DisplayUnavailable");
        },
        EglProviderError::ExactVersionUnavailable(version) => {
            line.append("ExactVersionUnavailable(");
            line.append(version.name());
            line.append(")");
        },
        EglProviderError::ConfigUnavailable => {
            line.append("ConfigUnavailable");
        },
        EglProviderError::InvalidNativeHandle(name) => {
            push_quoted(line, "InvalidNativeHandle", name);
        },
        EglProviderError::InvalidSize(size) => {
            line.append("InvalidSize(EglPbufferSize { width: ");
            push_decimal(line, size.width as u64);
            line.append(", height: ");
            push_decimal(line, size.height as u64);
            line.append(" })");
        },
        EglProviderError::BelowRequestedProfile { requested, observed } => {
            line.append("BelowRequestedProfile { requested: ");
            line.append(requested.name());
            line.append(", observed: \"");
            line.append(observed.as_str());
            line.append("\" }");
        },
        _ => {},
    }
    assert(line@ =~= before + failure_text(failure@));
}

impl EglProviderError {
    /// The failure in the words of the presentation domain.
    pub fn into_gl_error(self) -> (result: GlError)
        ensures
            flattened(self@, result),
    {
        match self {
            EglProviderError::Gl(error) => error,
            EglProviderError::Egl { operation, error } => GlError::Driver {
                operation,
                message: Message::Text(error.text()),
            },
            EglProviderError::DrawableExtentExceedsViewportLimit { requested, limit } =>
                GlError::Validation {
                operation: "drawable-extent",
                message: Message::owned(describe_extent(requested, limit)),
            },
            EglProviderError::Discovery(reason) => {
                let mut line = "native GL discovery failed: ".to_owned();
                push_reason(&mut line, &reason);
                GlError::Driver {
                    operation: "discover EGL context",
                    message: Message::owned(line),
                }
            },
            other => {
                let mut line = "EGL provider error: ".to_owned();
                push_failure(&mut line, &other);
                GlError::Driver { operation: "egl-provider", message: Message::owned(line) }
            },
        }
    }
}

/// A display of the host.
#[derive(Clone, Copy, Debug, PartialEq, Eq, Structural)]
pub enum HostDisplay {
    Android,
    Xlib { display: Option<u64> },
    Xcb,
    Wayland { display: u64 },
    Drm,
    Gbm,
    Windows,
    Other,
}

/// A window of the host.
#[derive(Clone, Copy, Debug, PartialEq, Eq, Structural)]
pub enum HostWindow {
    AndroidNdk { window: u64 },
    Xlib { window: u64 },
    Xcb,
    Wayland { surface: u64 },
    Drm,
    Gbm,
    Win32 { hwnd: u64 },
    Other,
}

impl HostDisplay {
    pub open spec fn spec_name(self) -> &'static str {
        match self {
            HostDisplay::Xlib { .. } => "Xlib",
            HostDisplay::Xcb => "Xcb",
            HostDisplay::Wayland { .. } => "Wayland",
            HostDisplay::Drm => "DRM",
            HostDisplay::Gbm => "GBM",
            HostDisplay::Windows => "Windows",
            HostDisplay::Android => "Android",
            HostDisplay::Other => "other",
        }
    }
}

pub fn display_name(handle: HostDisplay) -> (result: &'static str)
    ensures
        result == handle.spec_name(),
{
    match handle {
        HostDisplay::Xlib { .. } => "Xlib",
        HostDisplay::Xcb => "Xcb",
        HostDisplay::Wayland { .. } => "Wayland",
        HostDisplay::Drm => "DRM",
        HostDisplay::Gbm => "GBM",
        HostDisplay::Windows => "Windows",
        HostDisplay::Android => "Android",
        HostDisplay::Other => "other",
    }
}

impl HostWindow {
    pub open spec fn spec_name(self) -> &'static str {
        match self {
            HostWindow::Xlib { .. } => "Xlib",
            HostWindow::Xcb => "Xcb",
            HostWindow::Wayland { .. } => "Wayland",
            HostWindow::Drm => "DRM",
            HostWindow::Gbm => "GBM",
            HostWindow::Win32 { .. } => "Win32",
            HostWindow::AndroidNdk { .. } => "AndroidNdk",
            HostWindow::Other => "other",
        }
    }
}

pub fn window_name(handle: HostWindow) -> (result: &'static str)
    ensures
        result == handle.spec_name(),
{
    match handle {
        HostWindow::Xlib { .. } => "Xlib",
        HostWindow::Xcb => "Xcb",
        HostWindow::Wayland { .. } => "Wayland",
        HostWindow::Drm => "DRM",
        HostWindow::Gbm => "GBM",
        HostWindow::Win32 { .. } => "Win32",
        HostWindow::AndroidNdk { .. } => "AndroidNdk",
        HostWindow::Other => "other",
    }
}

/// The native display of EGL that stands for the default display.
pub const DEFAULT_DISPLAY: u64 = 0;

/// The native display and window that EGL takes for handles of the host.
/// Android has no display of its own and uses the default one.
pub open spec fn native_pair(display: HostDisplay, window: HostWindow) -> Result<
    (u64, u64),
    EglFailure,
> {
    match (display, window) {
        (HostDisplay::Android, HostWindow::AndroidNdk { window }) => Ok((DEFAULT_DISPLAY, window)),
        (HostDisplay::Xlib { display }, HostWindow::Xlib { window }) => match display {
            None => Err(EglFailure::InvalidNativeHandle("Xlib display pointer")),
            Some(display) => if window == 0 {
                Err(EglFailure::InvalidNativeHandle("Xlib window"))
            } else {
                Ok((display, window))
            },
        },
        (HostDisplay::Wayland { display }, HostWindow::Wayland { surface }) => Ok(
            (display, surface),
        ),
        (display, window) => Err(
            EglFailure::UnsupportedHandlePair {
                display: display.spec_name(),
                window: window.spec_name(),
            },
        ),
    }
}

pub fn native_window_pair(display: HostDisplay, window: HostWindow) -> (result: Result<
    (u64, u64),
    EglProviderError,
>)
    ensures
        plain(result) == native_pair(display, window),
{
    match (display, window) {
        (HostDisplay::Android, HostWindow::AndroidNdk { window }) => Ok((DEFAULT_DISPLAY, window)),
        (HostDisplay::Xlib { display }, HostWindow::Xlib { window }) => match display {
            None => Err(EglProviderError::InvalidNativeHandle("Xlib display pointer")),
            Some(display) => if window == 0 {
                Err(EglProviderError::InvalidNativeHandle("Xlib window"))
            } else {
                Ok((display, window))
            },
        },
        (HostDisplay::Wayland { display }, HostWindow::Wayland { surface }) => Ok(
            (display, surface),
        ),
        (display, window) => Err(
            EglProviderError::UnsupportedHandlePair {
                display: display_name(display),
                window: window_name(window),
            },
        ),
    }
}

/// A window of Android that an owner thread can take over.
#[derive(Clone, Copy, Debug, PartialEq, Eq, Structural)]
pub struct AndroidEglWorkerDescriptor {
    pub stamp: ContextStamp,
    pub native_window: u64,
}

impl AndroidEglWorkerDescriptor {
    pub open spec fn spec_new(stamp: ContextStamp, display: HostDisplay, window: HostWindow) -> Result<
        AndroidEglWorkerDescriptor,
        EglFailure,
    > {
        match native_pair(display, window) {
            Err(error) => Err(error),
            Ok((native_display, native_window)) => if native_display != DEFAULT_DISPLAY {
                Err(
                    EglFailure::UnsupportedHandlePair {
                        display: "non-Android display",
                        window: "Android NDK window",
                    },
                )
            } else {
                Ok(AndroidEglWorkerDescriptor { stamp, native_window })
            },
        }
    }

    pub fn new(stamp: ContextStamp, display: HostDisplay, window: HostWindow) -> (result: Result<
        Self,
        EglProviderError,
    >)
        ensures
            plain(result) == Self::spec_new(stamp, display, window),
    {
        match native_window_pair(display, window) {
            Err(error) => Err(error),
            Ok((native_display, native_window)) => if native_display != DEFAULT_DISPLAY {
                Err(
                    EglProviderError::UnsupportedHandlePair {
                        display: "non-Android display",
                        window: "Android NDK window",
                    },
                )
            } else {
                Ok(AndroidEglWorkerDescriptor { stamp, native_window })
            },
        }
    }
}

/// What a context is drawn to.
#[derive(Clone, Copy, Debug, PartialEq, Eq, Structural)]
pub enum EglSurfaceKind {
    Window { native_window: u64 },
    Pbuffer(EglPbufferSize),
}

/// The configuration that is asked for.
pub open spec fn config_wish(kind: EglSurfaceKind) -> Seq<i32> {
    seq![
        SURFACE_TYPE,
        match kind {
            EglSurfaceKind::Window { .. } => WINDOW_BIT,
            EglSurfaceKind::Pbuffer(_) => PBUFFER_BIT,
        },
        RENDERABLE_TYPE,
        OPENGL_ES3_BIT,
        RED_SIZE,
        8,
        GREEN_SIZE,
        8,
        BLUE_SIZE,
        8,
        ALPHA_SIZE,
        8,
        DEPTH_SIZE,
        24,
        STENCIL_SIZE,
        8,
        NONE,
    ]
}

pub fn config_attributes(kind: EglSurfaceKind) -> (result: Vec<i32>)
    ensures
        result@ == config_wish(kind),
{
    let surface_type: i32 = match kind {
        EglSurfaceKind::Window { .. } => WINDOW_BIT,
        EglSurfaceKind::Pbuffer(_) => PBUFFER_BIT,
    };
    let list = vec![
        SURFACE_TYPE,
        surface_type,
        RENDERABLE_TYPE,
        OPENGL_ES3_BIT,
        RED_SIZE,
        8,
        GREEN_SIZE,
        8,
        BLUE_SIZE,
        8,
        ALPHA_SIZE,
        8,
        DEPTH_SIZE,
        24,
        STENCIL_SIZE,
        8,
        NONE,
    ];
    assert(list@ =~= config_wish(kind));
    list
}

/// The context that is asked for. The minor version is named wherever EGL
/// takes it, even if it is zero; otherwise only the major version can be.
pub open spec fn context_wish(version: EglGlesVersion, has_create_context: bool) -> Seq<i32> {
    if version is V3_0 && !has_create_context {
        seq![CONTEXT_CLIENT_VERSION, 3, NONE]
    } else {
        seq![
            CONTEXT_MAJOR_VERSION_KHR,
            3,
            CONTEXT_MINOR_VERSION_KHR,
            version.spec_minor(),
            NONE,
        ]
    }
}

pub fn exact_context_attributes(version: EglGlesVersion, has_create_context: bool) -> (result: Vec<
    i32,
>)
    ensures
        result@ == context_wish(version, has_create_context),
{
    let list = match version {
        EglGlesVersion::V3_0 => if has_create_context {
            vec![CONTEXT_MAJOR_VERSION_KHR, 3, CONTEXT_MINOR_VERSION_KHR, 0, NONE]
        } else {
            vec![CONTEXT_CLIENT_VERSION, 3, NONE]
        },
        _ => vec![CONTEXT_MAJOR_VERSION_KHR, 3, CONTEXT_MINOR_VERSION_KHR, version.minor(), NONE],
    };
    assert(list@ =~= context_wish(version, has_create_context));
    list
}

/// The buffer that is asked for.
pub open spec fn pbuffer_wish(size: EglPbufferSize) -> Seq<i32> {
    seq![WIDTH, size.width as i32, HEIGHT, size.height as i32, NONE]
}

pub fn pbuffer_attributes(size: EglPbufferSize) -> (result: Result<Vec<i32>, EglProviderError>)
    ensures
        match size.spec_checked() {
            Ok(_) => result is Ok && result->Ok_0@ == pbuffer_wish(size),
            Err(error) => result is Err && result->Err_0@ == error,
        },
{
    match size.checked() {
        Err(error) => Err(error),
        Ok((width, height)) => {
            let list = vec![WIDTH, width, HEIGHT, height, NONE];
            assert(list@ =~= pbuffer_wish(size));
            Ok(list)
        },
    }
}

/// The version that a version string of OpenGL ES names, where it is one that
/// can be asked for.
pub open spec fn named_version(value: Seq<char>) -> Option<EglGlesVersion> {
    if !text::starts_with(value, "OpenGL ES "@) {
        None
    } else {
        let word = text::first_ascii_word(value.skip("OpenGL ES "@.len() as int));
        if word == "3.0"@ {
            Some(EglGlesVersion::V3_0)
        } else if word == "3.1"@ {
            Some(EglGlesVersion::V3_1)
        } else if word == "3.2"@ {
            Some(EglGlesVersion::V3_2)
        } else {
            None
        }
    }
}

pub fn parse_gles_version(value: &str) -> (result: Option<EglGlesVersion>)
    ensures
        result == named_version(value@),
{
    let chars = chars_of(value);
    let n = chars.len();
    if !has_prefix(&chars, "OpenGL ES ") {
        return None;
    }
    let from: usize = "OpenGL ES ".unicode_len();
    let start = lead_end(&chars, from, n, CharClass::AsciiSpace);
    let end = lead_end(&chars, start, n, CharClass::AsciiWord);
    let ghost tail = value@.skip(from as int);
    proof {
        assert(tail =~= chars@.subrange(from as int, n as int));
        let rest = tail.skip(text::lead(tail, CharClass::AsciiSpace) as int);
        assert(rest =~= chars@.subrange(start as int, n as int));
        assert(text::first_ascii_word(tail) =~= value@.subrange(start as int, end as int));
    }
    let word = value.substring_char(start, end).to_owned();
    if word == "3.0".to_owned() {
        Some(EglGlesVersion::V3_0)
    } else if word == "3.1".to_owned() {
        Some(EglGlesVersion::V3_1)
    } else if word == "3.2".to_owned() {
        Some(EglGlesVersion::V3_2)
    } else {
        None
    }
}

/// Whether EGL lists an extension.
pub fn has_extension(extensions: &str, extension: &str) -> (result: bool)
    ensures
        result == text::spec_has_word(extensions@, extension@),
{
    has_word(extensions, extension)
}

/// What EGL says of itself. The name of the layer stands before its version, so
/// that nobody takes it for a version of OpenGL.
pub open spec fn egl_identity(vendor: Seq<char>, version: Seq<char>) -> Seq<char> {
    let a = text::trimmed(vendor);
    let b = text::trimmed(version);
    if b.len() == 0 {
        a
    } else if a.len() == 0 {
        "EGL "@ + b
    } else {
        a + " EGL "@ + b
    }
}

pub fn compose_egl_driver_identity(vendor: &str, version: &str) -> (result: String)
    ensures
        result@ == egl_identity(vendor@, version@),
{
    let mut result = trim(vendor);
    let name = trim(version);
    if name.as_str().unicode_len() == 0 {
        return result;
    }
    if result.as_str().unicode_len() == 0 {
        result.append("EGL ");
    } else {
        result.append(" EGL ");
    }
    result.append(name.as_str());
    assert(result@ =~= egl_identity(vendor@, version@));
    result
}

/// Why a drawable of this size is refused, if it is.
pub open spec fn extent_check(limit: (u32, u32), extent: (u32, u32)) -> Result<(), EglFailure> {
    if drawable::within(limit, extent) {
        Ok(())
    } else {
        Err(EglFailure::DrawableExtentExceedsViewportLimit { requested: extent, limit })
    }
}

pub fn check_drawable_extent(limit: (u32, u32), extent: (u32, u32)) -> (result: Result<
    (),
    EglProviderError,
>)
    ensures
        plain(result) == extent_check(limit, extent),
{
    if within_viewport_limit(limit, extent) {
        return Ok(());
    }
    Err(EglProviderError::DrawableExtentExceedsViewportLimit { requested: extent, limit })
}

/// Whether what is current is this context on this display.
pub open spec fn is_self(
    current_context: Option<u64>,
    current_display: Option<u64>,
    context: u64,
    display: u64,
) -> bool {
    current_context == Some(context) && current_display == Some(display)
}

pub fn current_binding_is_self(
    current_context: Option<u64>,
    current_display: Option<u64>,
    owned_context: u64,
    owned_display: u64,
) -> (result: bool)
    ensures
        result == is_self(current_context, current_display, owned_context, owned_display),
{
    match (current_context, current_display) {
        (Some(context), Some(display)) => context == owned_context && display == owned_display,
        _ => false,
    }
}

} // verus!
