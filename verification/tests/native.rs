use std::cell::{Cell, RefCell};
use std::rc::Rc;
use std::sync::Arc;

use fluxel_gl::api::command::{GlPresentationLease, GlSubmissionPlan};
use fluxel_gl::api::error::{
    CompletionFailure, CompletionState, DeviceLossInfo, GlContextLifecycle, GlError, Message,
    RhiDetail, RhiError, RhiErrorKind, WorkerStartupError,
};
use fluxel_gl::api::extension::{GlExtensionSet, GlKnownExtension};
use fluxel_gl::api::gl::GlFamilyProfile;
use fluxel_gl::api::identity::{ObjectId, OwnerThreadIdentity};
use fluxel_gl::exact::Share;
use fluxel_gl::native::context::{CurrentContextGuard, NativeContext, NativeContextKind};
use fluxel_gl::native::discovery::{
    desktop_context_floor_marker, normalized_driver_identity, optional_limit_routes, to_u32,
    NativeDiscoveryError, DRIVER_IDENTITY_UNAVAILABLE,
};
use fluxel_gl::native::driver::{worker_error, NativeGlDriver, NativeGlOwner};
use fluxel_gl::native::entry_points::{
    NativeEntryPoint, NativeEntryPoints, SymbolLink, SymbolLoader,
};
use fluxel_gl::native::link::NativePlatformContext;
use fluxel_gl::native::present::{AcquireErrorKind, Progress};
use fluxel_gl::native::probe::{parse_native_profile, NativeProfileError};
use fluxel_gl::platform::device::{
    AdapterId, AdapterInfo, BackendKind, DeviceStatus, GlDevice,
};

#[test]
fn gles30_has_no_es31_limit_route() {
    let routes = optional_limit_routes(
        GlFamilyProfile::Embedded { major: 3, minor: 0 },
        &GlExtensionSet::new(),
    );
    assert!(!routes.compute);
    assert!(!routes.storage);
    assert!(!routes.image);
}

#[test]
fn gles31_enables_its_core_limit_routes() {
    let routes = optional_limit_routes(
        GlFamilyProfile::Embedded { major: 3, minor: 1 },
        &GlExtensionSet::new(),
    );
    assert!(routes.compute);
    assert!(routes.storage);
    assert!(routes.image);
}

#[test]
fn an_acquired_extension_opens_its_limit_route() {
    let desktop = GlFamilyProfile::Desktop { major: 4, minor: 1 };
    let mut extensions = GlExtensionSet::new();
    extensions.report_raw(GlKnownExtension::ArbShaderStorageBufferObject.raw_name());
    assert!(!optional_limit_routes(desktop, &extensions).storage);
    extensions.acquire(GlKnownExtension::ArbShaderStorageBufferObject);
    let routes = optional_limit_routes(desktop, &extensions);
    assert!(routes.storage);
    assert!(!routes.compute);
}

#[test]
fn currentness_guard_preserves_platform_provenance() {
    let here = OwnerThreadIdentity::new(7);
    let guard = CurrentContextGuard::assume_current(NativeContextKind::Embedded, here);
    assert_eq!(guard.kind(), NativeContextKind::Embedded);
    assert!(guard.assert_owner("test", here).is_ok());
}

#[test]
fn another_thread_is_refused() {
    let here = OwnerThreadIdentity::new(7);
    let there = OwnerThreadIdentity::new(8);
    let guard = CurrentContextGuard::assume_current(NativeContextKind::Desktop, here);
    assert!(matches!(
        guard.assert_owner("test", there),
        Err(GlError::WrongThread { operation: "test", expected, actual })
            if expected == here && actual == there
    ));
    let mut context = NativeContext::adopt_current(5u32, guard);
    assert_eq!(context.glow("test", here).unwrap(), &5);
    assert!(context.glow("test", there).is_err());
    context.mark_lost();
    assert_eq!(context.lifecycle(), GlContextLifecycle::Lost);
    assert!(matches!(
        context.assert_ready("test", here),
        Err(GlError::ContextLost { operation: "test" })
    ));
}

struct Owner {
    calls: Rc<Cell<usize>>,
}

impl NativeGlOwner for Owner {
    fn dispatch(&mut self, _: &'static str) -> Result<(), RhiError> {
        self.calls.set(self.calls.get() + 1);
        Ok(())
    }
}

#[test]
fn dispatch_is_synchronously_forwarded_to_owner() {
    let calls = Rc::new(Cell::new(0));
    let mut driver: NativeGlDriver<Owner> =
        NativeGlDriver::new(Owner { calls: calls.clone() });
    driver.dispatch("test-native-dispatch").unwrap();
    assert_eq!(calls.get(), 1);
    assert_eq!(driver.owner().calls.get(), 1);
}

#[test]
fn absent_lowering_is_structured_unsupported_not_success() {
    let mut driver: NativeGlDriver<Owner> =
        NativeGlDriver::new(Owner { calls: Rc::new(Cell::new(0)) });
    assert!(matches!(driver.wait_idle(), Err(error) if error.kind() == RhiErrorKind::Unsupported));
}

#[test]
fn an_owner_without_lowerings_refuses_them_all() {
    let mut owner = Owner { calls: Rc::new(Cell::new(0)) };
    assert!(matches!(
        owner.submit(&GlSubmissionPlan { batches: vec![] }),
        Err(error) if error.kind() == RhiErrorKind::Unsupported && error.operation == Some("submit")
    ));
    assert!(matches!(
        owner.abandon(GlPresentationLease { id: 1 }),
        Err(error) if error.operation == Some("abandon_frame")
    ));
    assert!(matches!(
        owner.completion(4),
        CompletionState::Failed(CompletionFailure::NeverAccepted { serial: 4 })
    ));
    assert!(matches!(owner.supports_presentation(ObjectId::new(1)), Ok(false)));
    assert!(matches!(
        owner.try_acquire(GlPresentationLease { id: 1 }),
        Err(error) if error.kind == AcquireErrorKind::NotReady
    ));
    assert!(matches!(
        owner.reconfigure_or_register_waker(GlPresentationLease { id: 1 }, 2),
        Progress::Ready(Err(error)) if error.kind() == RhiErrorKind::Unsupported
    ));
    assert_eq!(owner.calls.get(), 0);
    assert!(owner.poll().is_ok());
    assert_eq!(owner.calls.get(), 1);
}

struct Offscreen;

impl NativePlatformContext for Offscreen {
    fn make_current(&mut self, _: &'static str) -> Result<(), RhiError> {
        Ok(())
    }
}

#[test]
fn a_platform_without_a_drawable_shows_nothing() {
    assert!(!Offscreen.supports_presentation());
    assert!(matches!(Offscreen.drawable_extent(), Ok(None)));
    assert!(matches!(
        Offscreen.present(),
        Err(error) if error.kind() == RhiErrorKind::Unsupported
    ));
}

struct LosingOwner {
    told: Rc<RefCell<Vec<DeviceLossInfo>>>,
}

impl NativeGlOwner for LosingOwner {
    fn dispatch(&mut self, _: &'static str) -> Result<(), RhiError> {
        Ok(())
    }

    fn completion(&mut self, _: u64) -> CompletionState {
        CompletionState::DeviceLost(DeviceLossInfo::new(Message::Text("the context is gone")))
    }

    fn device_lost(&mut self, info: &DeviceLossInfo) {
        self.told.borrow_mut().push(info.share());
    }
}

#[test]
fn a_driver_tells_the_device_that_listens_of_a_loss_once() {
    let told = Rc::new(RefCell::new(vec![]));
    let mut driver = NativeGlDriver::new(LosingOwner { told });
    assert!(matches!(driver.completion(1), CompletionState::DeviceLost(_)));
    assert!(driver.take_losses(ObjectId::new(1)).is_empty());
    driver.install_loss_sink(ObjectId::new(1));
    driver.completion(1);
    driver.install_loss_sink(ObjectId::new(2));
    driver.completion(1);
    driver.completion(1);
    assert_eq!(driver.take_losses(ObjectId::new(1)).len(), 1);
    assert!(driver.take_losses(ObjectId::new(1)).is_empty());
    assert_eq!(driver.take_losses(ObjectId::new(2)).len(), 2);
    assert!(driver.take_losses(ObjectId::new(2)).is_empty());
}

#[test]
fn a_device_on_a_native_driver_hears_of_its_loss_first() {
    let told = Rc::new(RefCell::new(vec![]));
    let adapter = AdapterInfo {
        id: AdapterId { instance: 1, index: 0 },
        name: Arc::new(String::from("GL 4.x")),
        vendor_id: None,
        device_id: None,
        backend: BackendKind::OpenGl,
    };
    let mut device = GlDevice::new(
        BackendKind::OpenGl,
        adapter,
        (),
        ObjectId::new(6),
        NativeGlDriver::new(LosingOwner { told: told.clone() }),
    );
    device.hear();
    assert_eq!(device.status(), DeviceStatus::Active);
    assert!(matches!(device.completion(1), CompletionState::DeviceLost(_)));
    assert_eq!(device.status(), DeviceStatus::Lost);
    assert!(matches!(
        device.loss_info().unwrap().cause,
        RhiDetail::Message(Message::Text("the context is gone"))
    ));
    assert!(told.borrow().is_empty());
}

#[test]
fn a_worker_that_left_is_named() {
    let error = worker_error(WorkerStartupError::WorkerExited);
    assert!(matches!(error.detail, RhiDetail::Worker(WorkerStartupError::WorkerExited)));
    let error = worker_error(WorkerStartupError::Factory(Message::Text("no display")));
    assert!(matches!(
        error.detail,
        RhiDetail::Worker(WorkerStartupError::Factory(Message::Text("no display")))
    ));
}

struct Without {
    absent: &'static str,
}

impl SymbolLoader for Without {
    fn load(&mut self, name: &'static str) -> bool {
        name != self.absent
    }
}

#[test]
fn one_missing_symbol_closes_only_its_group() {
    let table =
        NativeEntryPoints::load(&mut SymbolLink::new(Without { absent: "glMemoryBarrier" }));
    assert!(!table.has(NativeEntryPoint::StorageImage));
    assert!(table.has(NativeEntryPoint::DrawIndirect));
}

#[test]
fn typed_extension_cannot_cross_profile_family() {
    let table = NativeEntryPoints { compute: true, ..NativeEntryPoints::default() };
    assert!(!table.admits(
        NativeEntryPoint::Compute,
        GlFamilyProfile::Embedded { major: 3, minor: 1 },
        false,
        Some(GlKnownExtension::ArbComputeShader),
    ));
    assert!(!table.admits(
        NativeEntryPoint::Compute,
        GlFamilyProfile::Desktop { major: 4, minor: 2 },
        false,
        None,
    ));
}

#[test]
fn a_route_needs_its_symbols() {
    let table = NativeEntryPoints { compute: true, ..NativeEntryPoints::default() };
    let desktop = GlFamilyProfile::Desktop { major: 4, minor: 2 };
    let compute = Some(GlKnownExtension::ArbComputeShader);
    assert!(table.admits(NativeEntryPoint::Compute, desktop, true, None));
    assert!(table.admits(NativeEntryPoint::Compute, desktop, false, compute));
    assert!(!table.admits(NativeEntryPoint::StorageImage, desktop, true, None));
}

#[test]
fn keeps_newer_versions_instead_of_downgrading_to_floor() {
    assert_eq!(
        parse_native_profile("4.6.0 NVIDIA 555"),
        Ok(GlFamilyProfile::Desktop { major: 4, minor: 6 })
    );
    assert_eq!(
        parse_native_profile("OpenGL ES 3.2 V@1"),
        Ok(GlFamilyProfile::Embedded { major: 3, minor: 2 })
    );
}

#[test]
fn rejects_older_native_profiles_before_any_command_path() {
    assert_eq!(
        parse_native_profile("3.3"),
        Err(NativeProfileError::BelowDesktopFloor { major: 3, minor: 3 })
    );
    assert_eq!(
        parse_native_profile("OpenGL ES 2.0"),
        Err(NativeProfileError::BelowEmbeddedFloor { major: 2, minor: 0 })
    );
}

#[test]
fn malformed_es_prefix_does_not_become_desktop_gl() {
    assert!(matches!(
        parse_native_profile("OpenGL ES-CM 1.1"),
        Err(NativeProfileError::Malformed(_))
    ));
}

#[test]
fn a_blank_version_is_empty() {
    assert_eq!(parse_native_profile("  \t"), Err(NativeProfileError::Empty));
    assert!(matches!(parse_native_profile("4.x"), Err(NativeProfileError::Malformed(_))));
    assert!(matches!(parse_native_profile("256.0"), Err(NativeProfileError::Malformed(_))));
}

#[test]
fn two_readers_of_versions_differ_on_words() {
    assert_eq!(
        fluxel_gl::native::discovery::parse_native_profile("OpenGL ES 3.1 Mesa 23.2"),
        Some(GlFamilyProfile::Embedded { major: 3, minor: 1 })
    );
    assert_eq!(
        fluxel_gl::native::discovery::parse_native_profile("Version 4.5"),
        Some(GlFamilyProfile::Desktop { major: 4, minor: 5 })
    );
    assert_eq!(fluxel_gl::native::discovery::parse_native_profile("OpenGL ES 2.0"), None);
}

#[test]
fn a_missing_driver_identity_is_said_so() {
    assert_eq!(normalized_driver_identity("   "), DRIVER_IDENTITY_UNAVAILABLE);
    assert_eq!(normalized_driver_identity(" Mesa 23 "), "Mesa 23");
}

#[test]
fn negative_answers_are_failed_queries() {
    assert_eq!(to_u32(16384, "limit"), Ok(16384));
    assert_eq!(to_u32(-1, "limit"), Err(NativeDiscoveryError::QueryFailed("limit")));
    assert_eq!(to_u32(1 << 32, "limit"), Err(NativeDiscoveryError::QueryFailed("limit")));
}

#[test]
fn the_floor_is_marked() {
    assert_eq!(desktop_context_floor_marker(), "gl.desktop-context-floor=4.0");
}
