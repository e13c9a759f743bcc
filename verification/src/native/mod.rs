//! Native contexts: WGL and EGL.

pub mod address_recorder;
pub mod adopt;
pub mod binding_laws;
pub mod call;
pub mod capabilities;
pub mod catalog_laws;
pub mod complete;
pub mod context;
pub mod create;
pub mod create_laws;
pub mod destroy;
pub mod discovery;
pub mod discovery_laws;
pub mod drawable;
pub mod driver;
pub mod egl;
pub mod egl_context;
pub mod egl_laws;
pub mod egl_platform;
pub mod egl_recorder;
pub mod entry_points;
pub mod exec_command;
pub mod exec_framebuffer;
pub mod exec_raster;
pub mod exec_vertex;
pub mod execute;
pub mod formats;
pub mod gdi;
pub mod gl_const;
pub mod glow_const;
pub mod lasting;
pub mod life_laws;
pub mod link;
pub mod lower;
pub mod machine;
pub mod meaning;
pub mod owner;
pub mod pass_laws;
pub mod present;
pub mod probe;
pub mod probes;
pub mod promises;
pub mod provider;
pub mod provider_laws;
pub mod query;
pub mod raster_laws;
pub mod record_laws;
pub mod report;
pub mod submit_laws;
pub mod surface_facts;
pub mod vertex_laws;
pub mod wgl;
pub mod wgl_laws;
pub mod wgl_platform;
pub mod wgl_recorder;
pub mod wgl_surface;
pub mod wgl_symbols;
pub mod work_recorder;
pub mod workload;
