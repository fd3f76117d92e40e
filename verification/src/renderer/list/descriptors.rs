//! Descriptions of the resources and bindings that a render list names.

use crate::datatypes::{ClearColor, ClearDepth, TextureHandle};
use crate::renderer::list::{RenderListImageHandle};
use vstd::prelude::*;
use wgpu::LoadOp;

verus! {

/// `wgpu::TextureFormat`, the texel format of an image. Carried through.
#[verifier::external_type_specification]
#[verifier::external_body]
pub struct ExTextureFormat(wgpu::TextureFormat);

/// `wgpu::TextureUsage`, the set of uses an image is created for. Carried
/// through.
#[verifier::external_type_specification]
#[verifier::external_body]
pub struct ExTextureUsage(wgpu::TextureUsage);

/// `wgpu::BufferUsage`, the set of uses a buffer is created for. Carried
/// through.
#[verifier::external_type_specification]
#[verifier::external_body]
pub struct ExBufferUsage(wgpu::BufferUsage);

/// `wgpu::LoadOp`, what a pass does to an attachment before drawing: clear
/// it to a value or load what it holds. Carried through.
#[verifier::external_type_specification]
#[verifier::external_body]
#[verifier::reject_recursive_types(V)]
pub struct ExLoadOp<V>(wgpu::LoadOp<V>);

/// `Clone::clone` of `wgpu::TextureFormat`, a `Copy` enum: the same format.
pub assume_specification[ <wgpu::TextureFormat as std::clone::Clone>::clone ](
    format: &wgpu::TextureFormat,
) -> (copy: wgpu::TextureFormat)
    ensures
        copy == *format,
;

/// `Clone::clone` of `wgpu::TextureUsage`, a `Copy` set of flags: the same
/// set.
pub assume_specification[ <wgpu::TextureUsage as std::clone::Clone>::clone ](
    usage: &wgpu::TextureUsage,
) -> (copy: wgpu::TextureUsage)
    ensures
        copy == *usage,
;

/// `Clone::clone` of `wgpu::BufferUsage`, a `Copy` set of flags: the same
/// set.
pub assume_specification[ <wgpu::BufferUsage as std::clone::Clone>::clone ](
    usage: &wgpu::BufferUsage,
) -> (copy: wgpu::BufferUsage)
    ensures
        copy == *usage,
;

/// `Clone::clone` of `wgpu::LoadOp`, which clones the value to clear to.
pub assume_specification<V>[ <wgpu::LoadOp<V> as std::clone::Clone>::clone ](
    op: &wgpu::LoadOp<V>,
) -> wgpu::LoadOp<V> where V: std::clone::Clone
;

/// The texel format of a transient image.
pub type ImageFormat = wgpu::TextureFormat;

/// The uses of a transient image.
pub type ImageUsage = wgpu::TextureUsage;

/// `PartialEq::eq` of `wgpu::TextureFormat`, which is derived for a plain
/// enum: true exactly for the same format.
#[verifier::external_body]
fn image_formats_equal(a: &ImageFormat, b: &ImageFormat) -> (equal: bool)
    ensures
        equal == (*a == *b),
{
    a == b
}

/// `PartialEq::eq` of `wgpu::TextureUsage`, which compares the flag bits:
/// true exactly for the same set of flags.
#[verifier::external_body]
fn image_usages_equal(a: &ImageUsage, b: &ImageUsage) -> (equal: bool)
    ensures
        equal == (*a == *b),
{
    a == b
}

/// `PartialEq::eq` of `wgpu::BufferUsage`, which compares the flag bits:
/// true exactly for the same set of flags.
#[verifier::external_body]
fn buffer_usages_equal(a: &wgpu::BufferUsage, b: &wgpu::BufferUsage) -> (equal: bool)
    ensures
        equal == (*a == *b),
{
    a == b
}

/// A group of bindings, named by what it holds rather than by where it is
/// bound.
#[derive(Debug, Clone, PartialEq, Eq, Hash)]
pub enum ResourceBinding {
    /// Bindings in all modes:
    /// 0: Linear sampler
    /// 1: Shadow sampler
    GeneralData,
    /// Bindings in all modes:
    /// 0: Object data buffer
    ObjectData,
    /// May only be bound in GPU-powered mode:
    /// 0: Material buffer
    ///
    /// Bindings in CPU-powered mode:
    /// 0: Albedo texture
    /// 1: Normal texture
    /// 2: Roughness texture
    /// 3: Metallic texture
    /// 4: Reflectance texture
    /// 5: Clear coat texture
    /// 6: Clear coat roughness texture
    /// 7: Anisotropy texture
    /// 8: Ambient occlusion texture
    /// 9: Texture data
    GPUMaterial,
    /// Bindings in all modes:
    /// 0: Camera data uniform buffer
    CameraData,
    /// May only be bound in GPU-powered mode:
    /// 0: 2D texture array
    GPU2DTextures,
    /// May only be bound in GPU-powered mode:
    /// 0: Cubemap texture array
    GPUCubeTextures,
    /// Bindings in all modes:
    /// 0: Shadow `texture2DArray`
    /// 1: Directional light data
    ShadowTexture,
    /// Binding in all modes:
    /// 0: Current skybox texture
    SkyboxTexture,
    /// Usable in all modes. Each given texture is a binding of its own.
    Custom2DTexture(Vec<ImageInputReference>),
    /// Usable in all modes. Each given texture is a binding of its own.
    CustomCubeTexture(Vec<ImageInputReference>),
}

/// A group of bindings that changes from object to object.
#[derive(Debug, Clone, PartialEq, Eq, Hash)]
pub enum PerObjectResourceBinding {
    /// May only be bound in CPU-powered mode:
    /// 0: Albedo texture
    /// 1: Normal texture
    /// 2: Roughness texture
    /// 3: Metallic texture
    /// 4: Reflectance texture
    /// 5: Clear coat texture
    /// 6: Clear coat roughness texture
    /// 7: Anisotropy texture
    /// 8: Ambient occlusion texture
    /// 9: Texture data
    CPUMaterial,
}

/// An image of any origin.
pub enum ImageReference {
    /// The image that the frame is presented on.
    OutputImage,
    /// A texture of the scene.
    Handle(TextureHandle),
    /// A transient image of the render list.
    Custom(RenderListImageHandle),
}

/// An image that a pass reads.
#[derive(Debug, Clone, PartialEq, Eq, Hash)]
pub enum ImageInputReference {
    /// A texture of the scene.
    Handle(TextureHandle),
    /// A transient image of the render list.
    Custom(RenderListImageHandle),
}

/// A colour attachment of a render pass.
#[derive(Debug, Clone)]
pub struct ImageOutput {
    pub output: ImageOutputReference,
    pub resolve_target: Option<ImageOutputReference>,
    pub clear: LoadOp<ClearColor>,
}

/// The depth attachment of a render pass.
#[derive(Debug, Clone)]
pub struct DepthOutput {
    pub output: ImageOutputReference,
    pub clear: LoadOp<ClearDepth>,
}

/// An image that a pass writes.
#[derive(Debug, Clone)]
pub enum ImageOutputReference {
    /// The image that the frame is presented on.
    OutputImage,
    /// A transient image of the render list.
    Custom(RenderListImageHandle),
}

/// The text of an optional label.
pub open spec fn label_text(label: Option<String>) -> Option<Seq<char>> {
    match label {
        Some(text) => Some(text@),
        None => None,
    }
}

fn labels_equal(a: &Option<String>, b: &Option<String>) -> (equal: bool)
    ensures
        equal == (label_text(*a) == label_text(*b)),
{
    match a {
        Some(x) => match b {
            Some(y) => *x == *y,
            None => false,
        },
        None => match b {
            Some(_) => false,
            None => true,
        },
    }
}

/// What a transient image is: compared field by field to decide whether a
/// cached image can serve again.
#[derive(Debug, Clone, Eq)]
pub struct ImageResourceDescriptor {
    pub label: Option<String>,
    pub resolution: [u32; 2],
    pub mips: u32,
    pub format: ImageFormat,
    pub samples: u32,
    pub usage: ImageUsage,
}

impl ImageResourceDescriptor {
    /// Structural equality: every field describes the same thing.
    pub open spec fn same(&self, other: &Self) -> bool {
        &&& label_text(self.label) == label_text(other.label)
        &&& self.resolution[0] == other.resolution[0]
        &&& self.resolution[1] == other.resolution[1]
        &&& self.mips == other.mips
        &&& self.format == other.format
        &&& self.samples == other.samples
        &&& self.usage == other.usage
    }
}

impl PartialEq for ImageResourceDescriptor {
    fn eq(&self, other: &Self) -> (equal: bool) {
        labels_equal(&self.label, &other.label) && self.resolution[0] == other.resolution[0]
            && self.resolution[1] == other.resolution[1] && self.mips == other.mips
            && image_formats_equal(&self.format, &other.format) && self.samples == other.samples
            && image_usages_equal(&self.usage, &other.usage)
    }
}

impl vstd::std_specs::cmp::PartialEqSpecImpl for ImageResourceDescriptor {
    open spec fn obeys_eq_spec() -> bool {
        true
    }

    open spec fn eq_spec(&self, other: &Self) -> bool {
        self.same(other)
    }
}

/// How many dimensions an image has on the device.
#[derive(Debug, Clone, Copy, PartialEq, Eq, Hash, Structural)]
pub enum ImageDimension {
    D1,
    D2,
    D3,
}

/// What the device is asked for when a transient image is created.
#[derive(Debug, Clone)]
pub struct ImageCreation {
    pub width: u32,
    pub height: u32,
    pub depth: u32,
    pub mip_level_count: u32,
    pub sample_count: u32,
    pub dimension: ImageDimension,
    pub format: ImageFormat,
    pub usage: ImageUsage,
}

impl ImageResourceDescriptor {
    /// What the device is asked for to create this image: a 2D image of the
    /// described resolution, one layer deep, with the described levels,
    /// format and usage. It is created with one sample per texel whatever
    /// `samples` says.
    pub fn creation(&self) -> (asked: ImageCreation)
        ensures
            asked.width == self.resolution[0],
            asked.height == self.resolution[1],
            asked.depth == 1,
            asked.mip_level_count == self.mips,
            asked.sample_count == 1,
            asked.dimension == ImageDimension::D2,
            asked.format == self.format,
            asked.usage == self.usage,
    {
        ImageCreation {
            width: self.resolution[0],
            height: self.resolution[1],
            depth: 1,
            mip_level_count: self.mips,
            sample_count: 1,
            dimension: ImageDimension::D2,
            format: self.format,
            usage: self.usage,
        }
    }
}

/// A buffer named by the render list.
pub enum BufferReference<'a> {
    /// A transient buffer, by its label.
    Custom(&'a str),
}

/// What a transient buffer is: compared field by field to decide whether a
/// cached buffer can serve again.
#[derive(Debug, Clone, Eq)]
pub struct BufferResourceDescriptor {
    pub label: Option<String>,
    pub size: u64,
    pub usage: wgpu::BufferUsage,
}

impl BufferResourceDescriptor {
    /// Structural equality: every field describes the same thing.
    pub open spec fn same(&self, other: &Self) -> bool {
        &&& label_text(self.label) == label_text(other.label)
        &&& self.size == other.size
        &&& self.usage == other.usage
    }
}

impl PartialEq for BufferResourceDescriptor {
    fn eq(&self, other: &Self) -> (equal: bool) {
        labels_equal(&self.label, &other.label) && self.size == other.size && buffer_usages_equal(
            &self.usage,
            &other.usage,
        )
    }
}

impl vstd::std_specs::cmp::PartialEqSpecImpl for BufferResourceDescriptor {
    open spec fn obeys_eq_spec() -> bool {
        true
    }

    open spec fn eq_spec(&self, other: &Self) -> bool {
        self.same(other)
    }
}

/// What the device is asked for when a transient buffer is created.
#[derive(Debug, Clone)]
pub struct BufferCreation {
    pub size: u64,
    pub usage: wgpu::BufferUsage,
    pub mapped_at_creation: bool,
}

impl BufferResourceDescriptor {
    /// What the device is asked for to create this buffer: the described
    /// size and usage, not mapped for the host.
    pub fn creation(&self) -> (asked: BufferCreation)
        ensures
            asked.size == self.size,
            asked.usage == self.usage,
            !asked.mapped_at_creation,
    {
        BufferCreation { size: self.size, usage: self.usage, mapped_at_creation: false }
    }
}

/// A transient buffer given with its contents; its size is their length.
#[derive(Debug, Clone, PartialEq, Eq)]
pub struct BufferResourceInitDescriptor {
    pub label: Option<String>,
    pub data: Vec<u8>,
    pub usage: wgpu::BufferUsage,
}

impl BufferResourceInitDescriptor {
    /// Splits into the description of the buffer and its contents. The size
    /// described is the length of the contents.
    pub fn into_base_descriptor_data(self) -> (parts: (BufferResourceDescriptor, Vec<u8>))
        ensures
            parts.0.label == self.label,
            parts.0.size == self.data@.len(),
            parts.0.usage == self.usage,
            parts.1 == self.data,
    {
        let desc = BufferResourceDescriptor {
            label: self.label,
            size: self.data.len() as u64,
            usage: self.usage,
        };

        let data = self.data;

        (desc, data)
    }
}

/// Where the passes of a routine draw to.
#[derive(Debug, Clone, Copy, PartialEq, Eq)]
pub enum RenderRoutineTarget {
    /// The shadow map of each shadow-casting light in turn.
    Shadow,
    /// A transient image of the render list.
    Image(RenderListImageHandle),
    /// Nothing: the routine only computes.
    NoTarget,
}

} // verus!
