//! Conservative mirror of the driver state of one GL-family context.
//!
//! This module owns no GL object. It remembers only the values that were
//! installed successfully through it. `Unknown` is the initial state: assuming
//! the defaults of GL would let a call that the host makes on the side turn
//! into a wrongly skipped command.

pub mod cache;
pub mod context;
pub mod event;
pub mod interner;
pub mod knowledge;
pub mod laws;
