//! A context of EGL as the native owner sees it.

use vstd::prelude::*;
use crate::api::error::{RhiDetail, RhiError, RhiErrorKind};
use crate::api::resource::Extent2d;
use crate::native::egl;
use crate::native::egl::{EglFailure, EglProviderError, EglSurfaceKind};
use crate::native::egl_context;
use crate::native::egl_context::{EglCalls, EglGlesContext, EglModel, EglStation, EglStep, Station};
use crate::native::link::NativePlatformContext;

verus! {

/// A context together with the EGL of its thread.
pub struct EglPlatform<E> {
    pub egl: EglStation<E>,
    pub context: EglGlesContext,
}

/// Whether this is how a failure is reported to the portable interface.
pub open spec fn reported(
    failure: EglFailure,
    kind: RhiErrorKind,
    operation: &'static str,
    error: RhiError,
) -> bool {
    &&& error.kind == kind
    &&& error.operation is None
    &&& error.detail is Gl
    &&& error.detail->Gl_operation == operation
    &&& egl::flattened(failure, error.detail->Gl_error)
}

fn report(failure: EglProviderError, kind: RhiErrorKind, operation: &'static str) -> (result: RhiError)
    ensures
        reported(failure@, kind, operation, result),
{
    RhiError::because(kind, RhiDetail::Gl { operation, error: failure.into_gl_error() })
}

/// Whether this is the answer for an outcome.
pub open spec fn answers<T>(
    outcome: Result<T, EglFailure>,
    kind: RhiErrorKind,
    operation: &'static str,
    answer: Result<T, RhiError>,
) -> bool {
    match outcome {
        Ok(value) => answer == Ok::<T, RhiError>(value),
        Err(failure) => answer is Err && reported(failure, kind, operation, answer->Err_0),
    }
}

impl Station {
    /// A side of a surface.
    pub open spec fn measured(
        self,
        display: u64,
        surface: u64,
        side: i32,
        operation: &'static str,
        o: Seq<EglStep>,
    ) -> (Station, Result<i32, EglFailure>) {
        let reply = self.next(o)->Measure_reply;
        (
            self.asked(EglStep::Measure { display, surface, side, reply }),
            match reply {
                Ok(length) => Ok(length),
                Err(error) => Err(EglFailure::Egl { operation, error }),
            },
        )
    }

    /// The size of the drawable of a context, where it has an area.
    pub open spec fn drawable_extent(self, c: EglModel, o: Seq<EglStep>) -> (
        Station,
        EglModel,
        Result<Option<Extent2d>, EglFailure>,
    ) {
        let (m1, c1, bound) = self.make_current(c, o);
        match bound {
            Err(error) => (m1, c1, Err(error)),
            Ok(_) => match c1.surface {
                None => (m1, c1, Ok(None)),
                Some(surface) => {
                    let (m2, width) = m1.measured(
                        c1.display,
                        surface,
                        egl::WIDTH,
                        "eglQuerySurface(EGL_WIDTH)",
                        o,
                    );
                    match width {
                        Err(error) => (m2, c1, Err(error)),
                        Ok(width) => {
                            let (m3, height) = m2.measured(
                                c1.display,
                                surface,
                                egl::HEIGHT,
                                "eglQuerySurface(EGL_HEIGHT)",
                                o,
                            );
                            match height {
                                Err(error) => (m3, c1, Err(error)),
                                Ok(height) => (
                                    m3,
                                    c1,
                                    Ok(
                                        if width > 0 && height > 0 {
                                            Some(
                                                Extent2d {
                                                    width: width as u32,
                                                    height: height as u32,
                                                },
                                            )
                                        } else {
                                            None
                                        },
                                    ),
                                ),
                            }
                        },
                    }
                },
            },
        }
    }
}

impl<E: EglCalls> NativePlatformContext for EglPlatform<E> {
    fn make_current(&mut self, operation: &'static str) -> (result: Result<(), RhiError>)
        ensures
            final(self).context.snapshot == old(self).context.snapshot,
            egl_context::grows(old(self).egl@.log, final(self).egl@.log),
            forall|o: Seq<EglStep>|
                egl_context::grows(final(self).egl@.log, o) ==> ({
                    let (m, c, outcome) = #[trigger] old(self).egl@.with_current(
                        old(self).context@,
                        operation,
                        o,
                    );
                    &&& final(self).egl@ == m
                    &&& final(self).context@ == c
                    &&& answers(outcome, RhiErrorKind::DeviceLost, operation, result)
                }),
    {
        match self.context.with_current(&mut self.egl, operation) {
            Ok(()) => Ok(()),
            Err(failure) => Err(report(failure, RhiErrorKind::DeviceLost, operation)),
        }
    }

    fn supports_presentation(&mut self) -> (result: bool)
        ensures
            *final(self) == *old(self),
            result == (old(self).context.kind is Window),
    {
        match self.context.kind {
            EglSurfaceKind::Window { .. } => true,
            EglSurfaceKind::Pbuffer(_) => false,
        }
    }

    fn drawable_extent(&mut self) -> (result: Result<Option<Extent2d>, RhiError>)
        ensures
            final(self).context.snapshot == old(self).context.snapshot,
            egl_context::grows(old(self).egl@.log, final(self).egl@.log),
            forall|o: Seq<EglStep>|
                egl_context::grows(final(self).egl@.log, o) ==> ({
                    let (m, c, outcome) = #[trigger] old(self).egl@.drawable_extent(
                        old(self).context@,
                        o,
                    );
                    &&& final(self).egl@ == m
                    &&& final(self).context@ == c
                    &&& answers(
                        outcome,
                        RhiErrorKind::BackendFailure,
                        "EGL drawable extent query",
                        result,
                    )
                }),
    {
        let kind = RhiErrorKind::BackendFailure;
        let operation = "EGL drawable extent query";
        match self.context.make_current(&mut self.egl) {
            Ok(()) => {},
            Err(failure) => {
                return Err(report(failure, kind, operation));
            },
        }
        let surface = match self.context.surface {
            Some(surface) => surface,
            None => {
                return Ok(None);
            },
        };
        let display = self.context.display;
        let width: i32 = match self.egl.measure(
            display,
            surface,
            egl::WIDTH,
            "eglQuerySurface(EGL_WIDTH)",
        ) {
            Ok(width) => width,
            Err(failure) => {
                return Err(report(failure, kind, operation));
            },
        };
        let height: i32 = match self.egl.measure(
            display,
            surface,
            egl::HEIGHT,
            "eglQuerySurface(EGL_HEIGHT)",
        ) {
            Ok(height) => height,
            Err(failure) => {
                return Err(report(failure, kind, operation));
            },
        };
        if width > 0 && height > 0 {
            Ok(Some(Extent2d { width: width as u32, height: height as u32 }))
        } else {
            Ok(None)
        }
    }

    fn present(&mut self) -> (result: Result<(), RhiError>)
        ensures
            final(self).context.snapshot == old(self).context.snapshot,
            egl_context::grows(old(self).egl@.log, final(self).egl@.log),
            forall|o: Seq<EglStep>|
                egl_context::grows(final(self).egl@.log, o) ==> ({
                    let (m, c, outcome) = #[trigger] old(self).egl@.present(old(self).context@, o);
                    &&& final(self).egl@ == m
                    &&& final(self).context@ == c
                    &&& answers(
                        outcome,
                        RhiErrorKind::BackendFailure,
                        "EGL presentation",
                        result,
                    )
                }),
    {
        match self.context.present(&mut self.egl) {
            Ok(()) => Ok(()),
            Err(failure) => Err(
                report(failure, RhiErrorKind::BackendFailure, "EGL presentation"),
            ),
        }
    }
}

} // verus!
