//! The names behind portable objects.

use vstd::prelude::*;
use crate::api::command::{FrameAttachment, GlAcquiredFramebuffer};
use crate::api::error;
use crate::api::error::{RhiError, RhiErrorKind};
use crate::api::resource::{
    BindGroup, Buffer, ComputePipeline, QuerySet, RasterPipeline, Sampler, Texture, TextureView,
};
use crate::api::shader::ShaderModule;
use crate::platform::object::{
    GlBindGroupRef, GlBufferRef, GlComputePipelineRef, GlObjectName, GlQuerySetRef,
    GlRasterPipelineRef, GlSamplerRef, GlShaderRef, GlTextureRef, GlTextureViewRef,
};

verus! {

/// The error for an object that GL does not back.
pub open spec fn unbacked(text: &'static str) -> RhiError {
    error::rhi_error(RhiErrorKind::Unsupported, text)
}

fn backing(native: Option<GlObjectName>, text: &'static str) -> (result: Result<
    GlObjectName,
    RhiError,
>)
    ensures
        result == (match native {
            Some(name) => Ok(name),
            None => Err(unbacked(text)),
        }),
{
    match native {
        Some(name) => Ok(name),
        None => Err(RhiError::new(RhiErrorKind::Unsupported, text)),
    }
}

/// The name behind a portable buffer.
pub fn buffer_ref(buffer: &Buffer) -> (result: Result<GlBufferRef, RhiError>)
    ensures
        result == (match buffer.native {
            Some(name) => Ok(GlBufferRef { name }),
            None => Err(unbacked("buffer has no GL native backing")),
        }),
{
    match backing(buffer.native, "buffer has no GL native backing") {
        Ok(name) => Ok(GlBufferRef { name }),
        Err(error) => Err(error),
    }
}

/// The name behind a portable texture.
pub fn texture_ref(texture: &Texture) -> (result: Result<GlTextureRef, RhiError>)
    ensures
        result == (match texture.native {
            Some(name) => Ok(GlTextureRef { name }),
            None => Err(unbacked("texture has no GL native backing")),
        }),
{
    match backing(texture.native, "texture has no GL native backing") {
        Ok(name) => Ok(GlTextureRef { name }),
        Err(error) => Err(error),
    }
}

/// The name behind a portable texture view.
pub fn view_ref(view: &TextureView) -> (result: Result<GlTextureViewRef, RhiError>)
    ensures
        result == (match view.native {
            Some(name) => Ok(GlTextureViewRef { name }),
            None => Err(unbacked("texture view has no GL native backing")),
        }),
{
    match backing(view.native, "texture view has no GL native backing") {
        Ok(name) => Ok(GlTextureViewRef { name }),
        Err(error) => Err(error),
    }
}

/// The name behind a portable sampler.
pub fn sampler_ref(sampler: &Sampler) -> (result: Result<GlSamplerRef, RhiError>)
    ensures
        result == (match sampler.native {
            Some(name) => Ok(GlSamplerRef { name }),
            None => Err(unbacked("sampler has no GL native backing")),
        }),
{
    match backing(sampler.native, "sampler has no GL native backing") {
        Ok(name) => Ok(GlSamplerRef { name }),
        Err(error) => Err(error),
    }
}

/// The name behind a portable shader module.
pub fn shader_ref(shader: &ShaderModule) -> (result: Result<GlShaderRef, RhiError>)
    ensures
        result == (match shader.native {
            Some(name) => Ok(GlShaderRef { name }),
            None => Err(unbacked("shader module has no GL native backing")),
        }),
{
    match backing(shader.native, "shader module has no GL native backing") {
        Ok(name) => Ok(GlShaderRef { name }),
        Err(error) => Err(error),
    }
}

/// The name behind a portable bind group.
pub fn bind_group_ref(bind_group: &BindGroup) -> (result: Result<GlBindGroupRef, RhiError>)
    ensures
        result == (match bind_group.native {
            Some(name) => Ok(GlBindGroupRef { name }),
            None => Err(unbacked("bind group has no GL native backing")),
        }),
{
    match backing(bind_group.native, "bind group has no GL native backing") {
        Ok(name) => Ok(GlBindGroupRef { name }),
        Err(error) => Err(error),
    }
}

/// The name behind a portable compute pipeline.
pub fn compute_pipeline_ref(compute_pipeline: &ComputePipeline) -> (result: Result<GlComputePipelineRef, RhiError>)
    ensures
        result == (match compute_pipeline.native {
            Some(name) => Ok(GlComputePipelineRef { name }),
            None => Err(unbacked("compute pipeline has no GL native backing")),
        }),
{
    match backing(compute_pipeline.native, "compute pipeline has no GL native backing") {
        Ok(name) => Ok(GlComputePipelineRef { name }),
        Err(error) => Err(error),
    }
}

/// The name behind a portable raster pipeline.
pub fn raster_pipeline_ref(raster_pipeline: &RasterPipeline) -> (result: Result<GlRasterPipelineRef, RhiError>)
    ensures
        result == (match raster_pipeline.native {
            Some(name) => Ok(GlRasterPipelineRef { name }),
            None => Err(unbacked("raster pipeline has no GL native backing")),
        }),
{
    match backing(raster_pipeline.native, "raster pipeline has no GL native backing") {
        Ok(name) => Ok(GlRasterPipelineRef { name }),
        Err(error) => Err(error),
    }
}

/// The name behind a portable query set.
pub fn query_set_ref(query_set: &QuerySet) -> (result: Result<GlQuerySetRef, RhiError>)
    ensures
        result == (match query_set.native {
            Some(name) => Ok(GlQuerySetRef { name }),
            None => Err(unbacked("query set has no GL native backing")),
        }),
{
    match backing(query_set.native, "query set has no GL native backing") {
        Ok(name) => Ok(GlQuerySetRef { name }),
        Err(error) => Err(error),
    }
}

/// The drawable behind a portable frame.
pub fn framebuffer_ref(frame: &FrameAttachment) -> (result: Result<GlAcquiredFramebuffer, RhiError>)
    ensures
        result == (match frame.native {
            Some(acquired) => Ok(acquired),
            None => Err(unbacked("frame attachment has no GL default-framebuffer backing")),
        }),
{
    match frame.native {
        Some(acquired) => Ok(acquired),
        None => Err(
            RhiError::new(
                RhiErrorKind::Unsupported,
                "frame attachment has no GL default-framebuffer backing",
            ),
        ),
    }
}

} // verus!
