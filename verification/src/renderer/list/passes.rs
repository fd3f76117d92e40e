//! Descriptions of passes and of the operations inside them.

use crate::datatypes::{ComputePipelineHandle, RenderPipelineHandle};
use crate::renderer::list::descriptors::{
    DepthOutput, ImageOutput, PerObjectResourceBinding, ResourceBinding,
};
use crate::renderer::list::RenderListBufferHandle;
use glam::UVec3;
use vstd::prelude::*;

verus! {

/// `glam::UVec3`, three unsigned 32-bit numbers: a dispatch size. Carried
/// through.
#[verifier::external_type_specification]
#[verifier::external_body]
pub struct ExUVec3(glam::UVec3);

/// `Clone::clone` of `glam::UVec3`, a `Copy` struct: the same three numbers.
pub assume_specification[ <glam::UVec3 as std::clone::Clone>::clone ](size: &glam::UVec3) -> (copy:
    glam::UVec3)
    ensures
        copy == *size,
;

/// A place inside a transient buffer.
#[derive(Debug, Clone)]
pub struct BufferReference {
    pub buffer: RenderListBufferHandle,
    pub offset: usize,
}

/// Opens a compute pass.
#[derive(Debug, Clone)]
pub struct ComputePassDescriptor {
    pub name: Option<String>,
}

/// One dispatch inside a compute pass.
#[derive(Debug, Clone)]
pub struct ComputeOpDescriptor {
    pub pipeline: ComputePipelineHandle,
    pub per_op_bindings: Vec<ResourceBinding>,
    pub size: UVec3,
}

/// How a dispatch gets its size.
#[derive(Debug, Clone)]
pub enum ComputeOpDispatchType {
    /// The size is given directly.
    Cpu { size: UVec3 },
    /// The size is read from a buffer at dispatch time.
    Gpu { indirect_buffer: BufferReference },
}

/// Opens a render pass.
#[derive(Debug, Clone)]
pub struct RenderPassDescriptor {
    pub name: Option<String>,
    pub outputs: Vec<ImageOutput>,
    pub depth: Option<DepthOutput>,
}

/// One draw inside a render pass.
#[derive(Debug, Clone)]
pub struct RenderOpDescriptor {
    pub pipeline: RenderPipelineHandle,
    pub per_op_bindings: Vec<ResourceBinding>,
    pub per_object_bindings: Vec<PerObjectResourceBinding>,
    pub draw_type: RenderOpDrawType,
}

/// How a draw gets its count.
#[derive(Debug, Clone)]
pub enum RenderOpDrawType {
    /// The host issues the draws.
    Cpu { input: RenderOpInputType },
    /// The draws and their number are read from buffers at draw time.
    Gpu { indirect_buffer: BufferReference, count_buffer: BufferReference, max_count: usize },
}

/// What a host-issued draw draws.
#[derive(Debug, Clone)]
pub enum RenderOpInputType {
    /// No bound vertex inputs, just a simple `draw(0..3)`.
    FullscreenTriangle,
    /// Render all 3D models.
    Models3D,
}

/// A shader, compiled or as source.
#[derive(Debug, Clone, PartialEq, Eq, Hash)]
pub enum ShaderSource {
    SpirV(Vec<u32>),
    Glsl(SourceShaderDescriptor),
}

/// Where the source text of a shader comes from.
#[derive(Debug, Clone, PartialEq, Eq, Hash)]
pub enum ShaderSourceType {
    /// Load shader from given file.
    File(String),
    /// Load builtin shader.
    Builtin(String),
    /// Use given shader source.
    Value(String),
}

/// A shader given as source text, with what its compilation needs.
#[derive(Debug, Clone, PartialEq, Eq, Hash)]
pub struct SourceShaderDescriptor {
    pub source: ShaderSourceType,
    pub stage: ShaderSourceStage,
    pub includes: Vec<String>,
    pub defines: Vec<(String, Option<String>)>,
}

/// The pipeline stage that a shader is written for.
#[derive(Debug, Copy, Clone, PartialEq, Eq, Hash)]
pub enum ShaderSourceStage {
    Vertex,
    Fragment,
    Compute,
}

} // verus!
