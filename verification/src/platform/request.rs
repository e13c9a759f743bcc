//! The one device of an adopted context.

use vstd::prelude::*;
use crate::api::error;
use crate::api::error::{RhiError, RhiErrorKind};
use crate::api::identity::ObjectId;
use crate::platform::device::{AdapterInfo, BackendKind, Device, GlDevice};
use crate::platform::driver::{DriverStep, GlExecutionDriver};

verus! {

/// A request that is ready when it is first polled: an adopted context does
/// not wait for a device.
pub struct GlRequest<D, F> {
    pub device: Option<GlDevice<D, F>>,
}

/// How far a request has come.
pub enum RequestProgress<D, F> {
    Pending,
    Ready(GlDevice<D, F>),
}

impl<D: GlExecutionDriver, F> GlRequest<D, F> {
    pub fn new(
        backend: BackendKind,
        adapter: AdapterInfo,
        facts: F,
        object: ObjectId,
        driver: D,
    ) -> (result: Self)
        ensures
            result.device is Some,
            result.device->0.wf(),
            result.device->0.backend == backend,
            result.device->0.adapter == adapter,
            result.device->0.facts == facts,
            result.device->0.object == object,
            result.device->0@ == (Device {
                object,
                log: seq![DriverStep::InstallLossSink { device: object }],
                lost: None,
                waiters: Seq::empty(),
                woken: Seq::empty(),
            }),
    {
        GlRequest { device: Some(GlDevice::new(backend, adapter, facts, object, driver)) }
    }

    /// The device, the first time.
    pub fn poll(&mut self) -> (result: Result<RequestProgress<D, F>, RhiError>)
        ensures
            final(self).device is None,
            result == match old(self).device {
                Some(device) => Ok(RequestProgress::Ready(device)),
                None => Err(
                    error::rhi_error(
                        RhiErrorKind::InvalidUsage,
                        "the adopted GL device request was polled after it became ready",
                    ),
                ),
            },
    {
        match self.device.take() {
            Some(device) => Ok(RequestProgress::Ready(device)),
            None => Err(
                RhiError::new(
                    RhiErrorKind::InvalidUsage,
                    "the adopted GL device request was polled after it became ready",
                ),
            ),
        }
    }
}

} // verus!
