//! A context of WGL as the native owner sees it.

use vstd::prelude::*;
use crate::api::error::{RhiDetail, RhiError, RhiErrorKind};
use crate::api::resource::Extent2d;
use crate::native::drawable;
use crate::native::drawable::has_zero;
use crate::native::link::NativePlatformContext;
use crate::native::wgl;
use crate::native::wgl::WglFailure;
use crate::native::wgl_surface;
use crate::native::wgl_surface::{WglCalls, WglContextSurface, WglStation, WglStep};

verus! {

/// A context together with the WGL of its thread.
pub struct WglPlatform<W> {
    pub wgl: WglStation<W>,
    pub surface: WglContextSurface,
}

/// Whether this is the answer to the portable interface for an outcome.
pub open spec fn answers(
    outcome: Result<(), WglFailure>,
    operation: &'static str,
    kind: RhiErrorKind,
    label: &'static str,
    answer: Result<(), RhiError>,
) -> bool {
    match outcome {
        Ok(_) => answer is Ok,
        Err(failure) => {
            &&& answer is Err
            &&& answer->Err_0.kind == kind
            &&& answer->Err_0.operation is None
            &&& answer->Err_0.detail is Gl
            &&& answer->Err_0.detail->Gl_operation == label
            &&& wgl::flattened(failure, operation, answer->Err_0.detail->Gl_error)
        },
    }
}

impl<W: WglCalls> NativePlatformContext for WglPlatform<W> {
    fn make_current(&mut self, operation: &'static str) -> (result: Result<(), RhiError>)
        ensures
            final(self).surface == old(self).surface,
            wgl_surface::grows(old(self).wgl@.log, final(self).wgl@.log),
            forall|o: Seq<WglStep>|
                wgl_surface::grows(final(self).wgl@.log, o) ==> ({
                    let (m, outcome) = #[trigger] old(self).wgl@.bind_current(
                        old(self).surface@,
                        operation,
                        o,
                    );
                    &&& final(self).wgl@ == m
                    &&& answers(outcome, operation, RhiErrorKind::DeviceLost, operation, result)
                }),
    {
        match self.surface.bind_current(&mut self.wgl, operation) {
            Ok(()) => Ok(()),
            Err(error) => Err(
                RhiError::because(
                    RhiErrorKind::DeviceLost,
                    RhiDetail::Gl { operation, error },
                ),
            ),
        }
    }

    fn supports_presentation(&mut self) -> (result: bool)
        ensures
            *final(self) == *old(self),
            result,
    {
        true
    }

    fn drawable_extent(&mut self) -> (result: Result<Option<Extent2d>, RhiError>)
        ensures
            *final(self) == *old(self),
            result == Ok::<Option<Extent2d>, RhiError>(
                if drawable::spec_has_zero(old(self).surface.extent) {
                    None
                } else {
                    Some(
                        Extent2d {
                            width: old(self).surface.extent.0,
                            height: old(self).surface.extent.1,
                        },
                    )
                },
            ),
    {
        let extent = self.surface.extent();
        if has_zero(extent) {
            Ok(None)
        } else {
            Ok(Some(Extent2d { width: extent.0, height: extent.1 }))
        }
    }

    fn present(&mut self) -> (result: Result<(), RhiError>)
        ensures
            final(self).surface == old(self).surface,
            wgl_surface::grows(old(self).wgl@.log, final(self).wgl@.log),
            forall|o: Seq<WglStep>|
                wgl_surface::grows(final(self).wgl@.log, o) ==> ({
                    let (m, outcome) = #[trigger] old(self).wgl@.present(old(self).surface@, o);
                    &&& final(self).wgl@ == m
                    &&& answers(
                        outcome,
                        "WGL SwapBuffers",
                        RhiErrorKind::BackendFailure,
                        "WGL presentation",
                        result,
                    )
                }),
    {
        match self.surface.present(&mut self.wgl) {
            Ok(()) => Ok(()),
            Err(error) => Err(
                RhiError::because(
                    RhiErrorKind::BackendFailure,
                    RhiDetail::Gl { operation: "WGL presentation", error },
                ),
            ),
        }
    }
}

} // verus!
