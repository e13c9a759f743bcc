//! The vocabulary that the backend shares with its callers.

pub mod command;
pub mod discovery;
pub mod error;
pub mod extension;
pub mod format;
pub mod gl;
pub mod identity;
pub mod pipeline;
pub mod resource;
pub mod shader;
