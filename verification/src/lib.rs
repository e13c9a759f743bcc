//! The GL-family backend of the Fluxel render hardware interface: the logic
//! that decides what one real GL, GLES or WebGL2 context is asked to do.
//!
//! Everything here works on plain values. The crate that links it performs the
//! driver calls and hands the answers back.

pub mod api;
pub mod assoc;
pub mod exact;
pub mod float;
pub mod format_laws;
pub mod native;
pub mod platform;
pub mod registry;
pub mod shelf;
pub mod state;
pub mod table;
pub mod text;
pub mod translate;
pub mod translate_laws;
pub mod translate_raster;
