use std::cell::RefCell;
use std::rc::Rc;
use std::sync::Arc;

use fluxel_gl::api::command::{
    GlAcquiredFramebuffer, GlPresentationLease, GlSubmissionPlan, SubmissionRequest,
};
use fluxel_gl::api::error::{
    CompletionFailure, CompletionState, Message, RhiDetail, RhiError, RhiErrorKind,
};
use fluxel_gl::api::identity::ObjectId;
use fluxel_gl::api::resource::{BufferDescriptor, BufferUsage, Extent2d};
use fluxel_gl::native::execute::SubmissionOutcome;
use fluxel_gl::native::present::{
    AcquireError, AcquireErrorKind, PresentationTargetCapabilities, Progress,
};
use fluxel_gl::platform::device::{
    AdapterId, BackendKind, DeviceStatus, GlDevice, LaneWorkDomains,
};
use fluxel_gl::platform::driver::GlExecutionDriver;
use fluxel_gl::platform::object::{GlObjectKind, GlObjectName};
use fluxel_gl::platform::presentation::SharedDriver;
use fluxel_gl::platform::provider::{GlAdoptedContext, GlProvider};
use fluxel_gl::platform::request::RequestProgress;

struct Driver;

impl GlExecutionDriver for Driver {
    fn dispatch(&mut self, _: &'static str) -> Result<(), RhiError> {
        Ok(())
    }
}

impl SharedDriver for Driver {
    fn handle(&self) -> Self {
        Driver
    }
}

struct BufferDriver {
    destroyed: Rc<RefCell<Vec<(GlObjectKind, u32)>>>,
}

impl GlExecutionDriver for BufferDriver {
    fn dispatch(&mut self, _: &'static str) -> Result<(), RhiError> {
        Ok(())
    }

    fn create_buffer(&mut self, _: &BufferDescriptor) -> Result<GlObjectName, RhiError> {
        GlObjectName::new(17, "BufferDriver::create_buffer")
    }

    fn destroy(&mut self, kind: GlObjectKind, name: GlObjectName) {
        self.destroyed.borrow_mut().push((kind, name.raw()));
    }

    fn configure_presentation(&mut self, _: ObjectId) -> Result<GlPresentationLease, RhiError> {
        Ok(GlPresentationLease { id: 3 })
    }

    fn try_acquire(
        &mut self,
        lease: GlPresentationLease,
    ) -> Result<Option<GlAcquiredFramebuffer>, AcquireError> {
        Ok(Some(GlAcquiredFramebuffer {
            serial: 11,
            extent: Extent2d { width: 4, height: 2 },
            suboptimal: false,
            lease,
            framebuffer: 0,
        }))
    }
}

impl SharedDriver for BufferDriver {
    fn handle(&self) -> Self {
        BufferDriver { destroyed: self.destroyed.clone() }
    }
}

fn adopted<D: SharedDriver>(
    instance: u64,
    backend: BackendKind,
    name: &str,
    driver: D,
) -> GlProvider<D, Arc<()>> {
    let context = GlAdoptedContext::new(backend, Arc::new(name.to_owned()), Arc::new(()), driver);
    match context {
        Ok(context) => GlProvider::adopt(instance, context),
        Err(error) => panic!("{error:?}"),
    }
}

fn device_of<D: SharedDriver>(provider: &GlProvider<D, Arc<()>>) -> GlDevice<D, Arc<()>> {
    let mut request = match provider.request_device(ObjectId::new(1)) {
        Ok(request) => request,
        Err(error) => panic!("{error:?}"),
    };
    match request.poll() {
        Ok(RequestProgress::Ready(device)) => device,
        _ => panic!("adopted contexts must be ready on the first poll"),
    }
}

#[test]
fn adopted_context_does_not_fabricate_adapter_enumeration() {
    let provider = adopted(91, BackendKind::WebGl2, "browser WebGL2", Driver);
    assert!(provider.enumerate_adapters().unwrap().is_none());
}

#[test]
fn adopted_request_creates_one_ordered_raster_copy_device() {
    let provider = adopted(92, BackendKind::OpenGl, "GL 4.x", Driver);
    let mut request = match provider.request_device(ObjectId::new(1)) {
        Ok(request) => request,
        Err(error) => panic!("{error:?}"),
    };
    let device = match request.poll() {
        Ok(RequestProgress::Ready(device)) => device,
        _ => {
            assert!(false, "adopted contexts must be ready on the first poll");
            return;
        }
    };
    assert_eq!(device.backend_kind(), BackendKind::OpenGl);
    assert_eq!(device.submission_capabilities().len(), 1);
    assert!(device.submission_capabilities()[0]
        .domains
        .contains(LaneWorkDomains { raster: true, compute: false, copy: true }));
    assert!(device.presentation());
}

#[test]
fn a_device_stays_the_one_it_was() {
    let provider = adopted(99, BackendKind::OpenGl, "GL 4.x", Driver);
    let mut device = device_of(&provider);
    let object = device.object_id();
    let name = device.adapter_info().name.to_string();
    let _ = device.poll();
    let _ = device.completion(1);
    device.mark_lost(Message::Text("gone"));
    assert_eq!(device.backend_kind(), BackendKind::OpenGl);
    assert_eq!(device.object_id(), object);
    assert_eq!(device.adapter_info().name.to_string(), name);
}

#[test]
fn loss_is_terminal_and_changes_unknown_completion_to_device_lost() {
    let provider = adopted(93, BackendKind::WebGl2, "browser WebGL2", Driver);
    let mut device = device_of(&provider);
    device.mark_lost(Message::Text("webglcontextlost"));
    assert_eq!(device.status(), DeviceStatus::Lost);
    assert_eq!(device.loss_info().unwrap().message(), Some("webglcontextlost"));
    assert!(matches!(device.completion(5), CompletionState::DeviceLost(_)));
}

#[test]
fn returned_native_object_is_retained_then_destroyed_on_its_owner_driver() {
    let destroyed = Rc::new(RefCell::new(Vec::new()));
    let driver = BufferDriver { destroyed: destroyed.clone() };
    let provider = adopted(94, BackendKind::OpenGl, "GL 4.x", driver);
    let mut device = device_of(&provider);
    let buffer = device
        .create_buffer(&BufferDescriptor::new(
            4,
            BufferUsage { copy_src: true, ..BufferUsage::none() },
        ))
        .unwrap();
    assert!(destroyed.borrow().is_empty());
    device.release(buffer);
    assert!(matches!(destroyed.borrow().as_slice(), [(GlObjectKind::Buffer, 17)]));
}

#[test]
fn zero_native_name_is_rejected_before_a_public_handle_can_exist() {
    assert!(GlObjectName::new(0, "test").is_err());
}

#[test]
fn a_context_of_another_backend_is_not_adopted() {
    let context = GlAdoptedContext::new(
        BackendKind::Foreign,
        Arc::new("other".to_owned()),
        Arc::new(()),
        Driver,
    );
    assert!(matches!(context, Err(error) if error.kind() == RhiErrorKind::InvalidUsage));
}

#[test]
fn a_lost_device_makes_nothing() {
    let destroyed = Rc::new(RefCell::new(Vec::new()));
    let provider =
        adopted(95, BackendKind::OpenGl, "GL 4.x", BufferDriver { destroyed: destroyed.clone() });
    let mut device = device_of(&provider);
    let desc = BufferDescriptor::new(4, BufferUsage::none());
    assert!(device.create_buffer(&desc).is_ok());
    device.mark_lost(Message::Text("gone"));
    device.mark_lost(Message::Text("again"));
    assert_eq!(device.loss_info().unwrap().message(), Some("gone"));
    assert!(matches!(
        device.create_buffer(&desc),
        Err(error) if error.kind() == RhiErrorKind::DeviceLost
    ));
    assert!(device.poll().is_err());
}

#[test]
fn waiters_wake_with_the_loss() {
    let provider = adopted(96, BackendKind::OpenGl, "GL 4.x", Driver);
    let mut device = device_of(&provider);
    assert!(matches!(device.completion_or_register_waker(5, 77), CompletionState::Failed(_)));
    device.liveness.waiters.push(78);
    device.mark_lost(Message::Text("gone"));
    assert_eq!(device.woken, vec![78]);
}

#[test]
fn the_driver_decides_what_can_be_shown() {
    let mut provider = adopted(97, BackendKind::OpenGl, "GL 4.x", Driver);
    let own = AdapterId { instance: 97, index: 0 };
    assert!(!provider.supports_presentation(own, ObjectId::new(4)).unwrap());
}

#[test]
fn a_driver_without_frames_says_so() {
    let provider = adopted(98, BackendKind::OpenGl, "GL 4.x", Driver);
    let mut device = device_of(&provider);
    assert!(matches!(
        device.configure_presentation(ObjectId::new(1)),
        Err(error) if error.kind() == RhiErrorKind::Unsupported
    ));
    assert!(matches!(
        Driver.try_acquire(GlPresentationLease { id: 1 }),
        Err(error) if error.kind == AcquireErrorKind::NotReady
    ));
}

#[test]
fn an_acquired_frame_keeps_its_lease() {
    let destroyed = Rc::new(RefCell::new(Vec::new()));
    let provider = adopted(99, BackendKind::OpenGl, "GL 4.x", BufferDriver { destroyed });
    let mut device = device_of(&provider);
    let mut presentation = match device.open_presentation(ObjectId::new(1)) {
        Ok(presentation) => presentation,
        Err(error) => panic!("{error:?}"),
    };
    assert_eq!(presentation.lease, GlPresentationLease { id: 3 });
    let frame = match presentation.try_acquire() {
        Ok(Some(frame)) => frame,
        _ => panic!("the driver has a frame"),
    };
    assert_eq!(frame.serial, 11);
    assert_eq!(frame.attachment.frame.lease, GlPresentationLease { id: 3 });
    assert!(matches!(presentation.reconfigure_or_register_waker(9), Progress::Ready(Err(_))));
}

struct LosingDriver;

impl GlExecutionDriver for LosingDriver {
    fn dispatch(&mut self, _: &'static str) -> Result<(), RhiError> {
        Ok(())
    }

    fn submit(&mut self, _: &GlSubmissionPlan) -> Result<SubmissionOutcome, RhiError> {
        Err(RhiError::new(RhiErrorKind::DeviceLost, "lost while submitting"))
    }

    fn configure_presentation(&mut self, _: ObjectId) -> Result<GlPresentationLease, RhiError> {
        Ok(GlPresentationLease { id: 1 })
    }

    fn lease_capabilities(
        &mut self,
        _: GlPresentationLease,
    ) -> Result<PresentationTargetCapabilities, RhiError> {
        Err(RhiError::new(RhiErrorKind::DeviceLost, "lost while asking"))
    }
}

impl SharedDriver for LosingDriver {
    fn handle(&self) -> Self {
        LosingDriver
    }
}

#[test]
fn a_submission_that_loses_the_device_ends_it() {
    let provider = adopted(100, BackendKind::OpenGl, "GL 4.x", LosingDriver);
    let mut device = device_of(&provider);
    assert_eq!(device.status(), DeviceStatus::Active);
    assert!(device.submit(&SubmissionRequest { batches: vec![] }).is_err());
    assert_eq!(device.status(), DeviceStatus::Lost);
    assert!(matches!(device.completion(1), CompletionState::DeviceLost(_)));
}

#[test]
fn a_presentation_reports_the_loss_it_sees() {
    let provider = adopted(101, BackendKind::OpenGl, "GL 4.x", LosingDriver);
    let mut device = device_of(&provider);
    let mut presentation = match device.open_presentation(ObjectId::new(1)) {
        Ok(presentation) => presentation,
        Err(error) => panic!("{error:?}"),
    };
    assert!(presentation.reported.is_empty());
    assert!(presentation.capabilities().is_err());
    assert_eq!(presentation.reported.len(), 1);
    assert_eq!(device.status(), DeviceStatus::Active);
    device.attend(&mut presentation);
    assert!(presentation.reported.is_empty());
    assert_eq!(device.status(), DeviceStatus::Lost);
    assert!(matches!(
        device.loss_info().unwrap().cause,
        RhiDetail::Message(Message::Text("lost while asking"))
    ));
    assert!(matches!(device.poll(), Err(error) if error.kind() == RhiErrorKind::DeviceLost));
}

#[test]
fn a_driver_without_lowerings_refuses_them_all() {
    assert!(matches!(
        Driver.wait_idle(),
        Err(error) if error.kind() == RhiErrorKind::Unsupported && error.operation.is_none()
    ));
    assert!(matches!(
        Driver.submit(&GlSubmissionPlan { batches: vec![] }),
        Err(error) if error.operation == Some("submit")
    ));
    assert!(matches!(
        Driver.completion(7),
        CompletionState::Failed(CompletionFailure::NeverAccepted { serial: 7 })
    ));
    assert!(matches!(Driver.supports_presentation(ObjectId::new(1)), Ok(false)));
    assert!(Driver.take_losses(ObjectId::new(1)).is_empty());
}
