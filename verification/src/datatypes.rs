//! Handles and the small value types shared by the whole renderer.

use vstd::prelude::*;

verus! {

/// Identifies a mesh for its whole lifetime.
#[derive(Debug, Clone, Copy, PartialEq, Eq, Hash, Structural)]
pub struct MeshHandle(pub usize);

/// Identifies a 2D or cube texture for its whole lifetime.
#[derive(Debug, Clone, Copy, PartialEq, Eq, Hash, Structural)]
pub struct TextureHandle(pub usize);

/// Identifies a material for its whole lifetime.
#[derive(Debug, Clone, Copy, PartialEq, Eq, Hash, Structural)]
pub struct MaterialHandle(pub usize);

/// Identifies an object for its whole lifetime.
#[derive(Debug, Clone, Copy, PartialEq, Eq, Hash, Structural)]
pub struct ObjectHandle(pub usize);

/// Identifies a directional light for its whole lifetime.
#[derive(Debug, Clone, Copy, PartialEq, Eq, Hash, Structural)]
pub struct DirectionalLightHandle(pub usize);

/// Identifies a shader module for its whole lifetime.
#[derive(Debug, Clone, Copy, PartialEq, Eq, Hash, Structural)]
pub struct ShaderHandle(pub usize);

/// Identifies a render pipeline for its whole lifetime.
#[derive(Debug, Clone, Copy, PartialEq, Eq, Hash, Structural)]
pub struct RenderPipelineHandle(pub usize);

/// Identifies a compute pipeline for its whole lifetime.
#[derive(Debug, Clone, Copy, PartialEq, Eq, Hash, Structural)]
pub struct ComputePipelineHandle(pub usize);

/// Which processor does the per-object work of a frame. One mode holds for a
/// whole frame.
#[derive(Debug, Clone, Copy, PartialEq, Eq, Hash, Structural)]
pub enum RendererMode {
    /// Culling and draw dispatch run on the host, spread over worker threads.
    CPUPowered,
    /// Culling runs as a compute dispatch and draws are indirect.
    GPUPowered,
}

/// A colour to clear an image to. Each channel is the bit pattern of a
/// 32-bit IEEE 754 number, as `f32::to_bits` gives it.
#[derive(Debug, Clone, Copy, PartialEq, Eq, Hash, Structural)]
pub struct ClearColor {
    pub r: u32,
    pub g: u32,
    pub b: u32,
    pub a: u32,
}

/// A depth to clear a depth image to: the bit pattern of a 32-bit IEEE 754
/// number, as `f32::to_bits` gives it.
#[derive(Debug, Clone, Copy, PartialEq, Eq, Hash, Structural)]
pub struct ClearDepth {
    pub bits: u32,
}

} // verus!
