//! Names of native objects, and references that carry only such names.

use vstd::prelude::*;
use crate::api::error;
use crate::api::error::{RhiError, RhiErrorKind};
use crate::exact::Exact;

verus! {

/// The name of an object of the owning context. Zero is the "no object" value
/// of GL and never stands behind a published handle.
#[derive(Clone, Copy, Debug, PartialEq, Eq, Structural)]
pub struct GlObjectName {
    value: u32,
}

impl View for GlObjectName {
    type V = u32;

    closed spec fn view(&self) -> u32 {
        self.value
    }
}

/// The name with a value.
pub closed spec fn named(value: u32) -> GlObjectName {
    GlObjectName { value }
}

/// A name has its value.
pub broadcast proof fn names_have_their_values(value: u32)
    ensures
        #[trigger] named(value)@ == value,
{
}

/// Two names are the same if their values are.
pub proof fn object_names_are_their_values(left: GlObjectName, right: GlObjectName)
    requires
        left@ == right@,
    ensures
        left == right,
{
}

impl GlObjectName {
    #[verifier::type_invariant]
    spec fn never_zero(self) -> bool {
        self.value != 0
    }

    /// The error for a driver that reports zero for a successful creation.
    pub open spec fn zero_error(operation: &'static str) -> RhiError {
        error::rhi_error_at(
            RhiErrorKind::BackendFailure,
            "GL driver returned object name zero for a successful creation",
            operation,
        )
    }

    pub fn new(value: u32, operation: &'static str) -> (result: Result<Self, RhiError>)
        ensures
            match result {
                Ok(name) => value != 0 && name@ == value && name == named(value),
                Err(error) => value == 0 && error == Self::zero_error(operation),
            },
    {
        if value == 0 {
            return Err(
                RhiError::new(
                    RhiErrorKind::BackendFailure,
                    "GL driver returned object name zero for a successful creation",
                ).at(operation),
            );
        }
        Ok(GlObjectName { value })
    }

    pub fn raw(self) -> (result: u32)
        ensures
            result == self@,
            result != 0,
    {
        proof {
            use_type_invariant(&self);
        }
        self.value
    }
}

impl Exact for GlObjectName {
    fn same(&self, other: &Self) -> (result: bool) {
        *self == *other
    }
}

/// The kinds of objects that a device hands out.
#[derive(Clone, Copy, Debug, PartialEq, Eq, Structural)]
pub enum GlObjectKind {
    Buffer,
    Texture,
    /// A view may share the name of its texture. Destroying it releases what is
    /// remembered of the view, never the texture.
    TextureView,
    Sampler,
    QuerySet,
    Shader,
    /// GL has no descriptor sets: the name stands for a packet.
    BindGroup,
    ComputePipeline,
    RasterPipeline,
}

/// A buffer, by its validated name.
#[derive(Clone, Copy, Debug, PartialEq, Eq, Structural)]
pub struct GlBufferRef {
    pub name: GlObjectName,
}

/// A texture, by its validated name.
#[derive(Clone, Copy, Debug, PartialEq, Eq, Structural)]
pub struct GlTextureRef {
    pub name: GlObjectName,
}

/// A texture view, by its validated name.
#[derive(Clone, Copy, Debug, PartialEq, Eq, Structural)]
pub struct GlTextureViewRef {
    pub name: GlObjectName,
}

/// A sampler, by its validated name.
#[derive(Clone, Copy, Debug, PartialEq, Eq, Structural)]
pub struct GlSamplerRef {
    pub name: GlObjectName,
}

/// A shader, by its validated name.
#[derive(Clone, Copy, Debug, PartialEq, Eq, Structural)]
pub struct GlShaderRef {
    pub name: GlObjectName,
}

/// A bind group, by its validated name.
#[derive(Clone, Copy, Debug, PartialEq, Eq, Structural)]
pub struct GlBindGroupRef {
    pub name: GlObjectName,
}

/// A compute pipeline, by its validated name.
#[derive(Clone, Copy, Debug, PartialEq, Eq, Structural)]
pub struct GlComputePipelineRef {
    pub name: GlObjectName,
}

/// A raster pipeline, by its validated name.
#[derive(Clone, Copy, Debug, PartialEq, Eq, Structural)]
pub struct GlRasterPipelineRef {
    pub name: GlObjectName,
}

/// A query set, by its validated name.
#[derive(Clone, Copy, Debug, PartialEq, Eq, Structural)]
pub struct GlQuerySetRef {
    pub name: GlObjectName,
}

/// A stretch of a buffer, by name.
#[derive(Clone, Copy, Debug, PartialEq, Eq, Structural)]
pub struct GlBufferSpan {
    pub buffer: GlBufferRef,
    pub offset: u64,
    pub size: u64,
}

/// What stands at one slot of a bind group.
#[derive(Debug)]
pub enum GlBindingResource {
    Buffer(GlBufferSpan),
    Texture(GlTextureViewRef),
    Sampler(GlSamplerRef),
    BufferArray(Vec<GlBufferSpan>),
    TextureArray(Vec<GlTextureViewRef>),
    SamplerArray(Vec<GlSamplerRef>),
}

/// One slot of a bind group.
#[derive(Debug)]
pub struct GlBindGroupEntry {
    pub slot: u32,
    pub resource: GlBindingResource,
}

/// One slot of a bind group, by value.
#[verifier::ext_equal]
pub struct EntryModel {
    pub slot: u32,
    pub resource: ResourceModel,
}

/// What stands at one slot of a bind group, by value.
#[verifier::ext_equal]
pub enum ResourceModel {
    Buffer(GlBufferSpan),
    Texture(GlTextureViewRef),
    Sampler(GlSamplerRef),
    BufferArray(Seq<GlBufferSpan>),
    TextureArray(Seq<GlTextureViewRef>),
    SamplerArray(Seq<GlSamplerRef>),
}

impl View for GlBindingResource {
    type V = ResourceModel;

    open spec fn view(&self) -> ResourceModel {
        match *self {
            GlBindingResource::Buffer(span) => ResourceModel::Buffer(span),
            GlBindingResource::Texture(view) => ResourceModel::Texture(view),
            GlBindingResource::Sampler(sampler) => ResourceModel::Sampler(sampler),
            GlBindingResource::BufferArray(spans) => ResourceModel::BufferArray(spans@),
            GlBindingResource::TextureArray(views) => ResourceModel::TextureArray(views@),
            GlBindingResource::SamplerArray(samplers) => ResourceModel::SamplerArray(samplers@),
        }
    }
}

impl View for GlBindGroupEntry {
    type V = EntryModel;

    open spec fn view(&self) -> EntryModel {
        EntryModel { slot: self.slot, resource: self.resource@ }
    }
}

impl View for GlBindGroupPacket {
    type V = Seq<EntryModel>;

    open spec fn view(&self) -> Seq<EntryModel> {
        self.entries@.map_values(|entry: GlBindGroupEntry| entry@)
    }
}

/// A bind group, by the names of what it binds.
#[derive(Debug)]
pub struct GlBindGroupPacket {
    pub entries: Vec<GlBindGroupEntry>,
}

} // verus!
