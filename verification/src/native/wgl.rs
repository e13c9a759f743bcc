//! What WGL is asked for, and what its failures mean.

use vstd::prelude::*;
use vstd::string::*;
use crate::api::discovery::{FlagsModel, GlContextFlags};
use crate::api::error::{GlContextLifecycle, GlError, Message};
use crate::api::gl::GlVersion;
use crate::api::identity::{ContextStamp, OwnerThreadIdentity};
use crate::exact::Share;
use crate::native::discovery;
use crate::native::discovery::{
    desktop_context_floor_marker, NativeDiscoveryError, ReasonModel, REQUIRED_DESKTOP_MAJOR,
    REQUIRED_DESKTOP_MINOR,
};
use crate::native::drawable;
use crate::native::drawable::{
    describe_extent, join, push_quoted, push_reason, within_viewport_limit,
};
use crate::native::egl::{HostDisplay, HostWindow};
use crate::native::probe;
use crate::native::probe::read_numbers;
use crate::text;
use crate::text::{chars_of, lead_end, push_decimal, CharClass};

verus! {

pub const CONTEXT_MAJOR_VERSION_ARB: i32 = 0x2091;

pub const CONTEXT_MINOR_VERSION_ARB: i32 = 0x2092;

pub const CONTEXT_PROFILE_MASK_ARB: i32 = 0x9126;

pub const CONTEXT_CORE_PROFILE_BIT_ARB: i32 = 0x0000_0001;

/// The version that every desktop context must have.
pub open spec fn required_version() -> GlVersion {
    GlVersion { major: 4, minor: 0 }
}

pub fn required_desktop_context() -> (result: GlVersion)
    ensures
        result == required_version(),
{
    GlVersion { major: REQUIRED_DESKTOP_MAJOR, minor: REQUIRED_DESKTOP_MINOR }
}

/// Why a context could not be described as it must be.
#[derive(Debug)]
pub enum WglDiscoveryError {
    /// There is no record.
    Record(NativeDiscoveryError),
    /// The record is of a version that is too low.
    BelowFloor,
    /// The record does not tell the floor.
    UnrecordedFloor,
    /// A fixture asked for a version that is not in use.
    FixtureVersion(GlVersion),
}

/// The reason by value.
pub enum WglReason {
    Record(ReasonModel),
    BelowFloor,
    UnrecordedFloor,
    FixtureVersion(GlVersion),
}

impl View for WglDiscoveryError {
    type V = WglReason;

    open spec fn view(&self) -> WglReason {
        match *self {
            WglDiscoveryError::Record(reason) => WglReason::Record(reason@),
            WglDiscoveryError::BelowFloor => WglReason::BelowFloor,
            WglDiscoveryError::UnrecordedFloor => WglReason::UnrecordedFloor,
            WglDiscoveryError::FixtureVersion(version) => WglReason::FixtureVersion(version),
        }
    }
}

/// What is said of the reason.
pub open spec fn wgl_reason_text(reason: WglReason) -> Seq<char> {
    match reason {
        WglReason::Record(reason) => "native GL discovery failed: "@ + drawable::reason_text(
            reason,
        ),
        WglReason::BelowFloor =>
            "WGL context did not report the required desktop core version GlVersion { major: 4, minor: 0 }"@,
        WglReason::UnrecordedFloor => "WGL provider requires "@ + discovery::floor_marker()
            + ", but the discovery record does not carry it"@,
        WglReason::FixtureVersion(version) =>
            "WGL fixture only accepts desktop core versions 4.0 through 4.6, got "@ + text::decimal(
            version.major as nat,
        ) + "."@ + text::decimal(version.minor as nat),
    }
}

impl WglDiscoveryError {
    /// What is said of the reason.
    pub fn describe(&self) -> (result: String)
        ensures
            result@ == wgl_reason_text(self@),
    {
        match self {
            WglDiscoveryError::Record(reason) => {
                let mut line = "native GL discovery failed: ".to_owned();
                push_reason(&mut line, reason);
                line
            },
            WglDiscoveryError::BelowFloor =>
                "WGL context did not report the required desktop core version GlVersion { major: 4, minor: 0 }".to_owned(),
            WglDiscoveryError::UnrecordedFloor => {
                let mut line = "WGL provider requires ".to_owned();
                line.append(desktop_context_floor_marker().as_str());
                line.append(", but the discovery record does not carry it");
                line
            },
            WglDiscoveryError::FixtureVersion(version) => {
                let mut line =
                    "WGL fixture only accepts desktop core versions 4.0 through 4.6, got ".to_owned();
                push_decimal(&mut line, version.major as u64);
                line.append(".");
                push_decimal(&mut line, version.minor as u64);
                line
            },
        }
    }
}

/// Why a context could not be made or used.
#[derive(Debug)]
pub enum WglContextError {
    UnsupportedWindowHandle,
    UnsupportedDisplayHandle,
    /// The window has no device context.
    AcquireDeviceContext(Message),
    /// The window has a pixel format, and it cannot be changed.
    PixelFormatAlreadyConfigured,
    ChoosePixelFormat(Message),
    SetPixelFormat(Message),
    CreateBootstrapContext(Message),
    MakeBootstrapCurrent(Message),
    /// The driver cannot be asked for a version.
    MissingCreateContextAttribs,
    /// The driver has no version down to the floor.
    CreateCoreContext(Message),
    MakeCoreCurrent(Message),
    /// The context is not what was asked for.
    ActualContext { version: Message, profile_mask: i32 },
    /// The drawable is larger than any viewport.
    DrawableExtentExceedsViewportLimit { requested: (u32, u32), limit: (u32, u32) },
    /// The context could not be described as it must be.
    Discovery(WglDiscoveryError),
    /// The call came from another thread than that of the context.
    WrongThread { expected: OwnerThreadIdentity, actual: OwnerThreadIdentity },
    /// The context cannot do this in its present state.
    Lifecycle(GlContextLifecycle),
    /// The driver refused.
    Driver { operation: &'static str, message: Message },
}

/// The failure by value.
pub enum WglFailure {
    UnsupportedWindowHandle,
    UnsupportedDisplayHandle,
    AcquireDeviceContext(Message),
    PixelFormatAlreadyConfigured,
    ChoosePixelFormat(Message),
    SetPixelFormat(Message),
    CreateBootstrapContext(Message),
    MakeBootstrapCurrent(Message),
    MissingCreateContextAttribs,
    CreateCoreContext(Message),
    MakeCoreCurrent(Message),
    ActualContext { version: Message, profile_mask: i32 },
    DrawableExtentExceedsViewportLimit { requested: (u32, u32), limit: (u32, u32) },
    Discovery(WglReason),
    WrongThread { expected: OwnerThreadIdentity, actual: OwnerThreadIdentity },
    Lifecycle(GlContextLifecycle),
    Driver { operation: &'static str, message: Message },
}

impl View for WglContextError {
    type V = WglFailure;

    open spec fn view(&self) -> WglFailure {
        match *self {
            WglContextError::UnsupportedWindowHandle => WglFailure::UnsupportedWindowHandle,
            WglContextError::UnsupportedDisplayHandle => WglFailure::UnsupportedDisplayHandle,
            WglContextError::AcquireDeviceContext(text) => WglFailure::AcquireDeviceContext(text),
            WglContextError::PixelFormatAlreadyConfigured =>
                WglFailure::PixelFormatAlreadyConfigured,
            WglContextError::ChoosePixelFormat(text) => WglFailure::ChoosePixelFormat(text),
            WglContextError::SetPixelFormat(text) => WglFailure::SetPixelFormat(text),
            WglContextError::CreateBootstrapContext(text) => WglFailure::CreateBootstrapContext(
                text,
            ),
            WglContextError::MakeBootstrapCurrent(text) => WglFailure::MakeBootstrapCurrent(text),
            WglContextError::MissingCreateContextAttribs => WglFailure::MissingCreateContextAttribs,
            WglContextError::CreateCoreContext(text) => WglFailure::CreateCoreContext(text),
            WglContextError::MakeCoreCurrent(text) => WglFailure::MakeCoreCurrent(text),
            WglContextError::ActualContext { version, profile_mask } => WglFailure::ActualContext {
                version,
                profile_mask,
            },
            WglContextError::DrawableExtentExceedsViewportLimit { requested, limit } =>
                WglFailure::DrawableExtentExceedsViewportLimit { requested, limit },
            WglContextError::Discovery(reason) => WglFailure::Discovery(reason@),
            WglContextError::WrongThread { expected, actual } => WglFailure::WrongThread {
                expected,
                actual,
            },
            WglContextError::Lifecycle(lifecycle) => WglFailure::Lifecycle(lifecycle),
            WglContextError::Driver { operation, message } => WglFailure::Driver {
                operation,
                message,
            },
        }
    }
}

/// A result with its failure by value.
pub open spec fn plain<T>(result: Result<T, WglContextError>) -> Result<T, WglFailure> {
    match result {
        Ok(value) => Ok(value),
        Err(error) => Err(error@),
    }
}

/// A whole number, with a sign if it is negative.
pub open spec fn signed(n: int) -> Seq<char> {
    if n < 0 {
        "-"@ + text::decimal((-n) as nat)
    } else {
        text::decimal(n as nat)
    }
}

/// What is said of a failure while a context is made.
pub open spec fn setup_text(failure: WglFailure) -> Seq<char> {
    match failure {
        WglFailure::UnsupportedWindowHandle => "UnsupportedWindowHandle"@,
        WglFailure::UnsupportedDisplayHandle => "UnsupportedDisplayHandle"@,
        WglFailure::AcquireDeviceContext(text) => drawable::quoted(
            "AcquireDeviceContext"@,
            text.text(),
        ),
        WglFailure::PixelFormatAlreadyConfigured => "PixelFormatAlreadyConfigured"@,
        WglFailure::ChoosePixelFormat(text) => drawable::quoted("ChoosePixelFormat"@, text.text()),
        WglFailure::SetPixelFormat(text) => drawable::quoted("SetPixelFormat"@, text.text()),
        WglFailure::CreateBootstrapContext(text) => drawable::quoted(
            "CreateBootstrapContext"@,
            text.text(),
        ),
        WglFailure::MakeBootstrapCurrent(text) => drawable::quoted(
            "MakeBootstrapCurrent"@,
            text.text(),
        ),
        WglFailure::MissingCreateContextAttribs => "MissingCreateContextAttribs"@,
        WglFailure::CreateCoreContext(text) => drawable::quoted("CreateCoreContext"@, text.text()),
        WglFailure::MakeCoreCurrent(text) => drawable::quoted("MakeCoreCurrent"@, text.text()),
        WglFailure::ActualContext { version, profile_mask } => "ActualContext { version: \""@
            + version.text() + "\", profile_mask: "@ + signed(profile_mask as int) + " }"@,
        WglFailure::Discovery(reason) => drawable::quoted("Discovery"@, wgl_reason_text(reason)),
        _ => Seq::empty(),
    }
}

/// Whether this is what a failure is to the presentation domain.
pub open spec fn flattened(failure: WglFailure, operation: &'static str, error: GlError) -> bool {
    match failure {
        WglFailure::WrongThread { expected, actual } => error == (GlError::WrongThread {
            operation,
            expected,
            actual,
        }),
        WglFailure::Lifecycle(lifecycle) => error == (GlError::InvalidLifecycle {
            operation,
            lifecycle,
        }),
        WglFailure::Driver { message, .. } => error == (GlError::Driver { operation, message }),
        WglFailure::DrawableExtentExceedsViewportLimit { requested, limit } => {
            &&& error is Validation
            &&& error->Validation_operation == operation
            &&& error->Validation_message.text() == drawable::extent_text(requested, limit)
        },
        other => {
            &&& error is Driver
            &&& error->Driver_operation == operation
            &&& error->Driver_message.text() == "WGL provider setup error: "@ + setup_text(other)
        },
    }
}

/// Whether this is the answer for an outcome.
pub open spec fn answers<T>(
    outcome: Result<T, WglFailure>,
    operation: &'static str,
    answer: Result<T, GlError>,
) -> bool {
    match outcome {
        Ok(value) => answer == Ok::<T, GlError>(value),
        Err(failure) => answer is Err && flattened(failure, operation, answer->Err_0),
    }
}

fn push_signed(line: &mut String, n: i32)
    ensures
        final(line)@ == old(line)@ + signed(n as int),
{
    let ghost before = line@;
    if n < 0 {
        line.append("-");
        push_decimal(line, (-(n as i64)) as u64);
        assert(line@ =~= before + signed(n as int));
    } else {
        push_decimal(line, n as u64);
    }
}

fn push_setup(line: &mut String, failure: &WglContextError)
    ensures
        final(line)@ == old(line)@ + setup_text(failure@),
{
    let ghost before = line@;
    match failure {
        WglContextError::UnsupportedWindowHandle => line.append("UnsupportedWindowHandle"),
        WglContextError::UnsupportedDisplayHandle => line.append("UnsupportedDisplayHandle"),
        WglContextError::AcquireDeviceContext(text) => push_quoted(
            line,
            "AcquireDeviceContext",
            text.as_str(),
        ),
        WglContextError::PixelFormatAlreadyConfigured => line.append(
            "PixelFormatAlreadyConfigured",
        ),
        WglContextError::ChoosePixelFormat(text) => push_quoted(
            line,
            "ChoosePixelFormat",
            text.as_str(),
        ),
        WglContextError::SetPixelFormat(text) => push_quoted(
            line,
            "SetPixelFormat",
            text.as_str(),
        ),
        WglContextError::CreateBootstrapContext(text) => push_quoted(
            line,
            "CreateBootstrapContext",
            text.as_str(),
        ),
        WglContextError::MakeBootstrapCurrent(text) => push_quoted(
            line,
            "MakeBootstrapCurrent",
            text.as_str(),
        ),
        WglContextError::MissingCreateContextAttribs => line.append("MissingCreateContextAttribs"),
        WglContextError::CreateCoreContext(text) => push_quoted(
            line,
            "CreateCoreContext",
            text.as_str(),
        ),
        WglContextError::MakeCoreCurrent(text) => push_quoted(
            line,
            "MakeCoreCurrent",
            text.as_str(),
        ),
        WglContextError::ActualContext { version, profile_mask } => {
            line.append("ActualContext { version: \"");
            line.append(version.as_str());
            line.append("\", profile_mask: ");
            push_signed(line, *profile_mask);
            line.append(" }");
        },
        WglContextError::Discovery(reason) => push_quoted(
            line,
            "Discovery",
            reason.describe().as_str(),
        ),
        _ => {},
    }
    assert(line@ =~= before + setup_text(failure@));
}

impl WglContextError {
    /// The failure in the words of the presentation domain.
    pub fn as_gl_error(&self, operation: &'static str) -> (result: GlError)
        ensures
            flattened(self@, operation, result),
    {
        match self {
            WglContextError::WrongThread { expected, actual } => GlError::WrongThread {
                operation,
                expected: *expected,
                actual: *actual,
            },
            WglContextError::Lifecycle(lifecycle) => GlError::InvalidLifecycle {
                operation,
                lifecycle: *lifecycle,
            },
            WglContextError::Driver { message, .. } => GlError::Driver {
                operation,
                message: message.share(),
            },
            WglContextError::DrawableExtentExceedsViewportLimit { requested, limit } =>
                GlError::Validation {
                operation,
                message: Message::owned(describe_extent(*requested, *limit)),
            },
            other => {
                let mut line = "WGL provider setup error: ".to_owned();
                push_setup(&mut line, other);
                GlError::Driver { operation, message: Message::owned(line) }
            },
        }
    }
}

/// The window of the host, as WGL takes it.
pub open spec fn window_of(window: HostWindow, display: HostDisplay) -> Result<u64, WglFailure> {
    if !(display is Windows) {
        Err(WglFailure::UnsupportedDisplayHandle)
    } else {
        match window {
            HostWindow::Win32 { hwnd } => Ok(hwnd),
            _ => Err(WglFailure::UnsupportedWindowHandle),
        }
    }
}

pub fn host_hwnd(window: HostWindow, display: HostDisplay) -> (result: Result<u64, WglContextError>)
    ensures
        plain(result) == window_of(window, display),
{
    match display {
        HostDisplay::Windows => {},
        _ => {
            return Err(WglContextError::UnsupportedDisplayHandle);
        },
    }
    match window {
        HostWindow::Win32 { hwnd } => Ok(hwnd),
        _ => Err(WglContextError::UnsupportedWindowHandle),
    }
}

/// A window that an owner thread can take over.
#[derive(Clone, Copy, Debug, PartialEq, Eq)]
pub struct WglWorkerDescriptor {
    pub stamp: ContextStamp,
    pub hwnd: u64,
    pub extent: (u32, u32),
}

impl WglWorkerDescriptor {
    pub fn new(
        stamp: ContextStamp,
        window: HostWindow,
        display: HostDisplay,
        extent: (u32, u32),
    ) -> (result: Result<Self, WglContextError>)
        ensures
            plain(result) == match window_of(window, display) {
                Ok(hwnd) => Ok(WglWorkerDescriptor { stamp, hwnd, extent }),
                Err(failure) => Err(failure),
            },
    {
        match host_hwnd(window, display) {
            Ok(hwnd) => Ok(WglWorkerDescriptor { stamp, hwnd, extent }),
            Err(error) => Err(error),
        }
    }
}

/// Whether a fixture may ask for a version.
pub open spec fn fixture_version(version: GlVersion) -> bool {
    version.major == 4 && version.minor <= 6
}

pub fn is_supported_desktop_test_version(version: GlVersion) -> (result: bool)
    ensures
        result == fixture_version(version),
{
    version.major == 4 && version.minor <= 6
}

/// The versions that are asked for if none is wanted, the highest first.
pub open spec fn desktop_requests() -> Seq<GlVersion> {
    seq![
        GlVersion { major: 4, minor: 6 },
        GlVersion { major: 4, minor: 5 },
        GlVersion { major: 4, minor: 4 },
        GlVersion { major: 4, minor: 3 },
        GlVersion { major: 4, minor: 2 },
        GlVersion { major: 4, minor: 1 },
        required_version(),
    ]
}

pub fn desktop_context_requests() -> (result: Vec<GlVersion>)
    ensures
        result@ == desktop_requests(),
{
    let list = vec![
        GlVersion { major: 4, minor: 6 },
        GlVersion { major: 4, minor: 5 },
        GlVersion { major: 4, minor: 4 },
        GlVersion { major: 4, minor: 3 },
        GlVersion { major: 4, minor: 2 },
        GlVersion { major: 4, minor: 1 },
        required_desktop_context(),
    ];
    assert(list@ =~= desktop_requests());
    list
}

/// A later version is asked for before an earlier one, and the last one is the
/// floor.
pub proof fn requests_go_down_to_the_floor(i: int, j: int)
    requires
        0 <= i < j < desktop_requests().len(),
    ensures
        desktop_requests()[j].spec_is_met_by(desktop_requests()[i]),
        !desktop_requests()[i].spec_is_met_by(desktop_requests()[j]),
        desktop_requests().last() == required_version(),
{
}

/// The context that is asked for.
pub open spec fn core_wish(version: GlVersion) -> Seq<i32> {
    seq![
        CONTEXT_MAJOR_VERSION_ARB,
        version.major as i32,
        CONTEXT_MINOR_VERSION_ARB,
        version.minor as i32,
        CONTEXT_PROFILE_MASK_ARB,
        CONTEXT_CORE_PROFILE_BIT_ARB,
        0,
    ]
}

pub fn core_context_attributes(version: GlVersion) -> (result: Vec<i32>)
    ensures
        result@ == core_wish(version),
{
    let list = vec![
        CONTEXT_MAJOR_VERSION_ARB,
        version.major as i32,
        CONTEXT_MINOR_VERSION_ARB,
        version.minor as i32,
        CONTEXT_PROFILE_MASK_ARB,
        CONTEXT_CORE_PROFILE_BIT_ARB,
        0,
    ];
    assert(list@ =~= core_wish(version));
    list
}

/// Whether a record tells the floor of its version.
pub open spec fn floor_check(flags: FlagsModel) -> Result<(), WglFailure> {
    if flags.other.contains(discovery::floor_marker()) {
        Ok(())
    } else {
        Err(WglFailure::Discovery(WglReason::UnrecordedFloor))
    }
}

pub fn verify_recorded_desktop_floor(flags: &GlContextFlags) -> (result: Result<
    (),
    WglContextError,
>)
    ensures
        plain(result) == floor_check(flags@),
{
    let expected = desktop_context_floor_marker();
    if flags.other.contains(expected.as_str()) {
        Ok(())
    } else {
        Err(WglContextError::Discovery(WglDiscoveryError::UnrecordedFloor))
    }
}

/// What the driver says of itself.
pub fn driver_identity_from(vendor: &str, renderer: &str) -> (result: String)
    ensures
        result@ == drawable::joined(vendor@, " "@, renderer@),
{
    join(vendor, " ", renderer)
}

/// Why a drawable of this size is refused, if it is.
pub open spec fn extent_check(limit: (u32, u32), extent: (u32, u32)) -> Result<(), WglFailure> {
    if drawable::within(limit, extent) {
        Ok(())
    } else {
        Err(WglFailure::DrawableExtentExceedsViewportLimit { requested: extent, limit })
    }
}

pub fn check_drawable_extent(limit: (u32, u32), extent: (u32, u32)) -> (result: Result<
    (),
    WglContextError,
>)
    ensures
        plain(result) == extent_check(limit, extent),
{
    if within_viewport_limit(limit, extent) {
        return Ok(());
    }
    Err(WglContextError::DrawableExtentExceedsViewportLimit { requested: extent, limit })
}

/// The version at the start of a version string.
pub open spec fn version_in(version: Seq<char>) -> Option<GlVersion> {
    match probe::version_numbers(probe::first_word(version)) {
        Some((major, minor)) => Some(GlVersion { major, minor }),
        None => None,
    }
}

pub fn parse_version(version: &str) -> (result: Option<GlVersion>)
    ensures
        result == version_in(version@),
{
    let chars = chars_of(version);
    let n = chars.len();
    let start = lead_end(&chars, 0, n, CharClass::Space);
    let end = lead_end(&chars, start, n, CharClass::Word);
    proof {
        assert(chars@.subrange(0, n as int) =~= version@);
        let rest = text::trimmed_start(version@);
        assert(rest =~= chars@.subrange(start as int, n as int));
        assert(probe::first_word(version@) =~= chars@.subrange(start as int, end as int));
    }
    match read_numbers(&chars, start, end) {
        Some((major, minor)) => Some(GlVersion { major, minor }),
        None => None,
    }
}

/// Whether a version string meets a floor.
pub open spec fn string_meets(version: Seq<char>, floor: GlVersion) -> bool {
    version_in(version) is Some && floor.spec_is_met_by(version_in(version)->0)
}

pub fn meets_version(version: &str, floor: GlVersion) -> (result: bool)
    ensures
        result == string_meets(version@, floor),
{
    match parse_version(version) {
        Some(actual) => floor.is_met_by(actual),
        None => false,
    }
}

/// Whether a version string meets the floor of the family.
pub fn meets_required_desktop_context(version: &str) -> (result: bool)
    ensures
        result == string_meets(version@, required_version()),
{
    meets_version(version, required_desktop_context())
}

/// Whether an address that WGL gave for a function is one.
pub open spec fn usable(proc: i64) -> bool {
    proc != 0 && proc != 1 && proc != 2 && proc != 3 && proc != -1
}

pub fn usable_wgl_proc(proc: i64) -> (result: bool)
    ensures
        result == usable(proc),
{
    proc != 0 && !(proc == 1 || proc == 2 || proc == 3 || proc == -1)
}

} // verus!
