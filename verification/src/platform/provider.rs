//! Adopting a context that a host already owns.

use vstd::prelude::*;
use std::sync::Arc;
use crate::api::error;
use crate::api::error::{RhiError, RhiErrorKind};
use crate::api::identity::ObjectId;
use crate::exact::Share;
use crate::platform::device::{AdapterId, AdapterInfo, BackendKind};
use crate::platform::driver::{DriverLink, DriverStep};
use crate::platform::presentation::SharedDriver;
use crate::platform::request::GlRequest;

verus! {

/// What a host says of the context that it hands over.
pub struct GlAdoptedContext<D, F> {
    pub backend: BackendKind,
    pub name: Arc<String>,
    pub vendor_id: Option<u32>,
    pub device_id: Option<u32>,
    pub facts: F,
    pub driver: D,
}

impl<D, F> GlAdoptedContext<D, F> {
    /// Only contexts of the GL family can be adopted.
    pub fn new(backend: BackendKind, name: Arc<String>, facts: F, driver: D) -> (result: Result<
        Self,
        RhiError,
    >)
        ensures
            result == if backend is Foreign {
                Err(
                    error::rhi_error(
                        RhiErrorKind::InvalidUsage,
                        "an adopted GL context must identify as OpenGl or WebGl2",
                    ),
                )
            } else {
                Ok(
                    GlAdoptedContext {
                        backend,
                        name,
                        vendor_id: None,
                        device_id: None,
                        facts,
                        driver,
                    },
                )
            },
    {
        match backend {
            BackendKind::OpenGl | BackendKind::WebGl2 => Ok(
                GlAdoptedContext { backend, name, vendor_id: None, device_id: None, facts, driver },
            ),
            BackendKind::Foreign => Err(
                RhiError::new(
                    RhiErrorKind::InvalidUsage,
                    "an adopted GL context must identify as OpenGl or WebGl2",
                ),
            ),
        }
    }
}

/// What gives devices around one adopted context. A context is chosen by its
/// host; there may be no adapter at all.
pub struct GlProvider<D, F> {
    pub backend: BackendKind,
    pub facts: F,
    pub link: DriverLink<D>,
    pub adapter: AdapterInfo,
}

impl<D: SharedDriver, F: Share> GlProvider<D, F> {
    /// Adopts a context.
    pub fn adopt(instance: u64, context: GlAdoptedContext<D, F>) -> (result: Self)
        ensures
            result.backend == context.backend,
            result.facts == context.facts,
            result.link@.len() == 0,
            result.adapter == (AdapterInfo {
                id: AdapterId { instance, index: 0 },
                name: context.name,
                backend: context.backend,
                vendor_id: context.vendor_id,
                device_id: context.device_id,
            }),
    {
        GlProvider {
            backend: context.backend,
            facts: context.facts,
            link: DriverLink::new(context.driver),
            adapter: AdapterInfo {
                id: AdapterId { instance, index: 0 },
                name: context.name,
                backend: context.backend,
                vendor_id: context.vendor_id,
                device_id: context.device_id,
            },
        }
    }

    /// There is nothing to choose from.
    pub fn enumerate_adapters(&self) -> (result: Result<Option<Vec<AdapterInfo>>, RhiError>)
        ensures
            result == Ok::<Option<Vec<AdapterInfo>>, RhiError>(None),
    {
        Ok(None)
    }

    /// Whether a target can be shown. The driver knows; the adapter does not
    /// matter.
    pub fn supports_presentation(&mut self, adapter: AdapterId, target: ObjectId) -> (result:
        Result<bool, RhiError>)
        ensures
            final(self).link@ == old(self).link@.push(
                DriverStep::SupportsPresentation { target, reply: result },
            ),
            final(self).backend == old(self).backend,
            final(self).facts == old(self).facts,
            final(self).adapter == old(self).adapter,
    {
        self.link.supports_presentation(target)
    }

    /// Asks for a device, which gets the identity `object`.
    pub fn request_device(&self, object: ObjectId) -> (result: Result<GlRequest<D, F>, RhiError>)
        ensures
            result is Ok,
            result->Ok_0.device is Some,
            result->Ok_0.device->0.wf(),
            result->Ok_0.device->0.backend == self.backend,
            result->Ok_0.device->0.adapter == self.adapter,
            result->Ok_0.device->0.facts == self.facts,
            result->Ok_0.device->0.object == object,
            result->Ok_0.device->0@.lost is None,
            result->Ok_0.device->0@.waiters.len() == 0,
            result->Ok_0.device->0@.log == seq![DriverStep::InstallLossSink { device: object }],
    {
        Ok(
            GlRequest::new(
                self.backend,
                self.adapter.share(),
                self.facts.share(),
                object,
                self.link.driver().handle(),
            ),
        )
    }
}

} // verus!
