//! Shader artifacts of the portable interface.

use vstd::prelude::*;
use std::sync::Arc;
use crate::platform::object::GlObjectName;

verus! {

/// The stage that a shader runs in.
#[derive(Clone, Copy, Debug, PartialEq, Eq, Structural)]
pub enum ShaderStage {
    Vertex,
    Fragment,
    Compute,
    Task,
    Mesh,
    RayGeneration,
    ClosestHit,
    AnyHit,
    Miss,
    Intersection,
}

/// The version of the interface between shaders and the library.
#[derive(Clone, Copy, Debug, PartialEq, Eq, Structural)]
pub struct AbiVersion {
    pub major: u16,
    pub minor: u16,
}

/// Where a shader expects a resource.
#[derive(Clone, Copy, Debug, PartialEq, Eq, Structural)]
pub struct ResourceLocation {
    pub group: u32,
    pub slot: u32,
}

/// The code of a shader.
#[derive(Clone, Debug)]
pub enum ShaderCode {
    Glsl { version: u16, source: Arc<String> },
    GlslEs { version: u16, source: Arc<String> },
    /// Code in a form that the GL family does not take.
    Other,
}

/// A shader as it was built.
#[derive(Clone, Debug)]
pub struct ShaderArtifact {
    pub stage: ShaderStage,
    pub code: ShaderCode,
    pub entry_point: Arc<String>,
    pub content_hash: u64,
    pub abi_version: AbiVersion,
    pub resources: Vec<ResourceLocation>,
}

/// A portable shader module. It has a name only if GL backs it.
#[derive(Clone, Debug)]
pub struct ShaderModule {
    pub artifact: Arc<ShaderArtifact>,
    pub native: Option<GlObjectName>,
}

/// The resources that a pipeline declares.
#[derive(Clone, Debug)]
pub struct PipelineInterface {
    pub declared: Vec<ResourceLocation>,
}

} // verus!
