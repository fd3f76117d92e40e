//! The transient images and buffers that outlive a frame, each kept under the
//! handle it was created with.

use crate::registry::{has_handle, slot_of, ResourceRegistry};
use crate::renderer::list::descriptors::{BufferResourceDescriptor, ImageResourceDescriptor};
use crate::renderer::list::{RenderListBufferHandle, RenderListImageHandle};
use vstd::prelude::*;

verus! {

/// A cached transient image, known by its description.
#[derive(Debug)]
pub struct ImageResource {
    pub desc: ImageResourceDescriptor,
}

/// A cached transient buffer, known by its description.
#[derive(Debug)]
pub struct BufferResource {
    pub desc: BufferResourceDescriptor,
}

/// The cache of transient resources of one renderer.
#[derive(Debug)]
pub struct RenderListCache {
    pub images: ResourceRegistry<ImageResource>,
    pub buffers: ResourceRegistry<BufferResource>,
}

impl RenderListCache {
    /// Both registries keep their invariant.
    pub open spec fn wf(&self) -> bool {
        self.images.wf() && self.buffers.wf()
    }

    /// Creates a cache that holds nothing.
    pub fn new() -> (cache: Self)
        ensures
            cache.wf(),
            cache.images@ == Seq::<(usize, ImageResource)>::empty(),
            cache.buffers@ == Seq::<(usize, BufferResource)>::empty(),
            cache.images.next_handle() == 0,
            cache.buffers.next_handle() == 0,
    {
        Self { images: ResourceRegistry::new(), buffers: ResourceRegistry::new() }
    }

    /// The buffer cached under `handle`, which must be present.
    pub fn get_buffer(&self, handle: &RenderListBufferHandle) -> (buffer: &BufferResource)
        requires
            self.wf(),
            has_handle(self.buffers@, handle.0),
        ensures
            *buffer == self.buffers@[slot_of(self.buffers@, handle.0)].1,
    {
        self.buffers.get(handle.0)
    }

    /// The image cached under `handle`, which must be present.
    pub fn get_image(&self, handle: &RenderListImageHandle) -> (image: &ImageResource)
        requires
            self.wf(),
            has_handle(self.images@, handle.0),
        ensures
            *image == self.images@[slot_of(self.images@, handle.0)].1,
    {
        self.images.get(handle.0)
    }
}

} // verus!
