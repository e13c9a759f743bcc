//! Adopting an owner whose context was looked at.

use vstd::prelude::*;
use std::sync::Arc;
use crate::api::discovery::GlDiscoverySnapshot;
use crate::api::error::RhiError;
use crate::native::capabilities;
use crate::native::capabilities::{v13_capability_snapshot, GlCapabilitySnapshot};
use crate::platform::device::BackendKind;
use crate::platform::presentation::SharedDriver;
use crate::platform::provider::{GlAdoptedContext, GlProvider};

verus! {

/// Adopts the owner of the context that gave this record. No platform can
/// publish anything else of it.
pub fn adopt_discovered_owner<D: SharedDriver>(
    instance: u64,
    name: Arc<String>,
    discovery: &GlDiscoverySnapshot,
    driver: D,
) -> (result: Result<GlProvider<D, Arc<GlCapabilitySnapshot>>, RhiError>)
    requires
        discovery.wf(),
    ensures
        result is Ok,
        ({
            let provider = result->Ok_0;
            &&& provider.backend is OpenGl
            &&& (*provider.facts)@ == capabilities::published(discovery@)
            &&& provider.adapter.id.instance == instance
            &&& provider.adapter.id.index == 0
            &&& provider.adapter.name == name
            &&& provider.adapter.backend is OpenGl
            &&& provider.adapter.vendor_id is None
            &&& provider.adapter.device_id is None
            &&& provider.link@.len() == 0
        }),
{
    let facts = Arc::new(v13_capability_snapshot(discovery));
    match GlAdoptedContext::new(BackendKind::OpenGl, name, facts, driver) {
        Ok(context) => Ok(GlProvider::adopt(instance, context)),
        Err(error) => Err(error),
    }
}

} // verus!
