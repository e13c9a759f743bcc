//! A context that belongs to one thread.

use vstd::prelude::*;
use crate::api::error::{GlContextLifecycle, GlError};
use crate::api::identity::OwnerThreadIdentity;

verus! {

/// The platform family that owns a context. It is for diagnostics only.
#[derive(Clone, Copy, Debug, PartialEq, Eq, Structural)]
pub enum NativeContextKind {
    /// A desktop context.
    Desktop,
    /// An embedded context.
    Embedded,
}

/// The word of a platform adapter that its context is current on the thread
/// that made this guard.
#[derive(Debug)]
pub struct CurrentContextGuard {
    pub owner: OwnerThreadIdentity,
    pub kind: NativeContextKind,
}

/// Whether a thread may use a context.
pub open spec fn owned_by(
    owner: OwnerThreadIdentity,
    actual: OwnerThreadIdentity,
    operation: &'static str,
) -> Result<(), GlError> {
    if actual == owner {
        Ok(())
    } else {
        Err(GlError::WrongThread { operation, expected: owner, actual })
    }
}

impl CurrentContextGuard {
    /// The context of this kind is current on this thread, and nothing else
    /// uses it.
    pub fn assume_current(kind: NativeContextKind, owner: OwnerThreadIdentity) -> (result: Self)
        ensures
            result.kind == kind,
            result.owner == owner,
    {
        CurrentContextGuard { owner, kind }
    }

    pub fn kind(&self) -> (result: NativeContextKind)
        ensures
            result == self.kind,
    {
        self.kind
    }

    /// Whether the thread that asks is the one that made the guard.
    pub fn assert_owner(&self, operation: &'static str, actual: OwnerThreadIdentity) -> (result:
        Result<(), GlError>)
        ensures
            result == owned_by(self.owner, actual, operation),
    {
        if actual == self.owner {
            Ok(())
        } else {
            Err(GlError::WrongThread { operation, expected: self.owner, actual })
        }
    }
}

/// A dispatch table with the guard of its context. It makes nothing current;
/// platform adapters do.
#[derive(Debug)]
pub struct NativeContext<G> {
    pub gl: G,
    pub guard: CurrentContextGuard,
    pub lifecycle: GlContextLifecycle,
}

impl<G> NativeContext<G> {
    /// Why a thread may not use the context now.
    pub open spec fn spec_ready(
        &self,
        operation: &'static str,
        actual: OwnerThreadIdentity,
    ) -> Result<(), GlError> {
        match owned_by(self.guard.owner, actual, operation) {
            Err(error) => Err(error),
            Ok(_) => if self.lifecycle is Active {
                Ok(())
            } else {
                Err(self.lifecycle.spec_refusal(operation))
            },
        }
    }

    /// Adopts a context that is current.
    pub fn adopt_current(gl: G, guard: CurrentContextGuard) -> (result: Self)
        ensures
            result.gl == gl,
            result.guard == guard,
            result.lifecycle is Active,
    {
        NativeContext { gl, guard, lifecycle: GlContextLifecycle::Active }
    }

    /// The dispatch table, for the thread that owns the context.
    pub fn glow(&self, operation: &'static str, actual: OwnerThreadIdentity) -> (result: Result<
        &G,
        GlError,
    >)
        ensures
            match self.spec_ready(operation, actual) {
                Ok(_) => result is Ok && *result->Ok_0 == self.gl,
                Err(error) => result == Err::<&G, _>(error),
            },
    {
        match self.assert_ready(operation, actual) {
            Ok(()) => Ok(&self.gl),
            Err(error) => Err(error),
        }
    }

    pub fn kind(&self) -> (result: NativeContextKind)
        ensures
            result == self.guard.kind,
    {
        self.guard.kind()
    }

    pub fn lifecycle(&self) -> (result: GlContextLifecycle)
        ensures
            result == self.lifecycle,
    {
        self.lifecycle
    }

    /// Notes a loss. An error flag alone is none; the platform has to say so.
    pub fn mark_lost(&mut self)
        ensures
            final(self).lifecycle is Lost,
            final(self).gl == old(self).gl,
            final(self).guard == old(self).guard,
    {
        self.lifecycle = GlContextLifecycle::Lost;
    }

    pub fn assert_ready(&self, operation: &'static str, actual: OwnerThreadIdentity) -> (result:
        Result<(), GlError>)
        ensures
            result == self.spec_ready(operation, actual),
    {
        match self.guard.assert_owner(operation, actual) {
            Err(error) => Err(error),
            Ok(()) => if self.lifecycle.accepts_commands() {
                Ok(())
            } else {
                Err(self.lifecycle.refusal(operation))
            },
        }
    }
}

} // verus!
