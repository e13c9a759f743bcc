//! The device that stands around one adopted GL-family context.
//!
//! GL, GLES and WebGL have no portable split into instance and device. A host
//! owns a current context and adopts it here. Its one request gives a logical
//! device around that context.

pub mod backing;
pub mod device;
pub mod driver;
pub mod object;
pub mod presentation;
pub mod provider;
pub mod request;
