//! The render list: what a frame draws, declared as transient resources and
//! as routines that emit passes.

pub mod cache;
pub mod descriptors;
pub mod passes;
pub mod unsync;

pub use cache::{BufferResource, ImageResource, RenderListCache};
pub use descriptors::{
    BufferCreation, BufferResourceDescriptor, BufferResourceInitDescriptor, DepthOutput,
    ImageCreation, ImageDimension, ImageFormat,
    ImageInputReference, ImageOutput, ImageOutputReference, ImageReference,
    ImageResourceDescriptor, ImageUsage, PerObjectResourceBinding, RenderRoutineTarget,
    ResourceBinding,
};
pub use passes::{
    BufferReference, ComputeOpDescriptor, ComputeOpDispatchType, ComputePassDescriptor,
    RenderOpDescriptor, RenderOpDrawType, RenderOpInputType, RenderPassDescriptor, ShaderSource,
    ShaderSourceStage, ShaderSourceType, SourceShaderDescriptor,
};
pub use unsync::UnsynchronizedRenderList;

use crate::datatypes::RendererMode;
use crate::registry::{
    distinct_handles, handle_after, has_handle, lemma_upserted, slot_of, upserted,
};
use std::ops::{Deref, DerefMut};
use vstd::prelude::*;

verus! {

/// Identifies a transient buffer of a render list.
#[derive(Debug, Clone, Copy, PartialEq, Eq, Hash, Structural)]
pub struct RenderListBufferHandle(pub usize);

/// Identifies a transient image of a render list.
#[derive(Debug, Clone, Copy, PartialEq, Eq, Hash, Structural)]
pub struct RenderListImageHandle(pub usize);

/// What a frame draws. `init` declares the transient resources, `render` the
/// routines; both may be called from any thread.
pub trait RenderList: Send + Sync {
    /// The functions of the routines that the list declares.
    type Routine: RoutineFunction;

    /// Declares the transient resources of the list.
    fn init(&self, recorder: &mut RenderListCreationRecorder<'_>)
        requires
            old(recorder).wf(),
        ensures
            final(recorder).wf(),
    ;

    /// Declares the routines of the list.
    fn render(&self, recorder: &mut RenderListRecorder<'_, '_, Self::Routine>)
        requires
            old(recorder).wf(),
        ensures
            final(recorder).wf(),
    ;
}

/// A resource that the device has to create because the cache could not
/// serve it. The description of an image or buffer is the one now cached
/// under the handle.
#[derive(Debug)]
pub enum ResourceAllocation {
    /// Create the image cached under the handle `image`.
    Image { image: RenderListImageHandle },
    /// Create the buffer cached under the handle `buffer`.
    Buffer { buffer: RenderListBufferHandle },
    /// Create the buffer cached under the handle `buffer` and fill it with
    /// `data`.
    BufferInit { buffer: RenderListBufferHandle, data: Vec<u8> },
}

/// The outcome of asking the cache for a resource.
pub struct Creation<R> {
    /// The cache's entries afterwards.
    pub entries: Seq<(usize, R)>,
    /// The cache's handle counter afterwards.
    pub next_handle: usize,
    /// The handle under which the resource is cached.
    pub handle: usize,
    /// Whether the device has to create the resource.
    pub allocated: bool,
}

/// Whether the image cached under the handle to reuse has a description
/// structurally equal to `desc`.
pub open spec fn image_cached(
    images: Seq<(usize, ImageResource)>,
    desc: ImageResourceDescriptor,
    reuse: Option<RenderListImageHandle>,
) -> bool {
    reuse matches Some(handle) && has_handle(images, handle.0) && images[slot_of(
        images,
        handle.0,
    )].1.desc.same(&desc)
}

/// What asking for an image does. A cached image with an equal description
/// is handed back and nothing changes. Otherwise the description is stored
/// under the handle to reuse, or under a newly allocated one, and the device
/// has to create the image.
pub open spec fn image_creation(
    images: Seq<(usize, ImageResource)>,
    next_handle: usize,
    desc: ImageResourceDescriptor,
    reuse: Option<RenderListImageHandle>,
) -> Creation<ImageResource> {
    if image_cached(images, desc, reuse) {
        Creation { entries: images, next_handle, handle: reuse.unwrap().0, allocated: false }
    } else {
        let handle = match reuse {
            Some(handle) => handle.0,
            None => next_handle,
        };
        Creation {
            entries: upserted(images, handle, ImageResource { desc }),
            next_handle: match reuse {
                Some(_) => next_handle,
                None => handle_after(next_handle, 1),
            },
            handle,
            allocated: true,
        }
    }
}

/// Whether the buffer cached under the handle to reuse has a description
/// structurally equal to `desc`.
pub open spec fn buffer_cached(
    buffers: Seq<(usize, BufferResource)>,
    desc: BufferResourceDescriptor,
    reuse: Option<RenderListBufferHandle>,
) -> bool {
    reuse matches Some(handle) && has_handle(buffers, handle.0) && buffers[slot_of(
        buffers,
        handle.0,
    )].1.desc.same(&desc)
}

/// What asking for a buffer does: as [`image_creation`], for buffers.
pub open spec fn buffer_creation(
    buffers: Seq<(usize, BufferResource)>,
    next_handle: usize,
    desc: BufferResourceDescriptor,
    reuse: Option<RenderListBufferHandle>,
) -> Creation<BufferResource> {
    if buffer_cached(buffers, desc, reuse) {
        Creation { entries: buffers, next_handle, handle: reuse.unwrap().0, allocated: false }
    } else {
        let handle = match reuse {
            Some(handle) => handle.0,
            None => next_handle,
        };
        Creation {
            entries: upserted(buffers, handle, BufferResource { desc }),
            next_handle: match reuse {
                Some(_) => next_handle,
                None => handle_after(next_handle, 1),
            },
            handle,
            allocated: true,
        }
    }
}

/// Asking again for an image, under the handle that the first request gave
/// and with a structurally equal description, creates nothing and changes
/// nothing.
pub proof fn lemma_equal_image_reused(
    images: Seq<(usize, ImageResource)>,
    next_handle: usize,
    first: ImageResourceDescriptor,
    reuse: Option<RenderListImageHandle>,
    second: ImageResourceDescriptor,
)
    requires
        distinct_handles(images),
        first.same(&second),
    ensures
        ({
            let a = image_creation(images, next_handle, first, reuse);
            let b = image_creation(
                a.entries,
                a.next_handle,
                second,
                Some(RenderListImageHandle(a.handle)),
            );
            &&& !b.allocated
            &&& b.handle == a.handle
            &&& b.entries == a.entries
            &&& b.next_handle == a.next_handle
        }),
{
    let a = image_creation(images, next_handle, first, reuse);
    if !image_cached(images, first, reuse) {
        lemma_upserted(images, a.handle, ImageResource { desc: first });
    }
}

/// Asking again for an image, under the handle that the first request gave
/// but with a structurally different description, replaces the cached image
/// in its slot under the same handle, and the device has to create it.
pub proof fn lemma_different_image_replaced(
    images: Seq<(usize, ImageResource)>,
    next_handle: usize,
    first: ImageResourceDescriptor,
    reuse: Option<RenderListImageHandle>,
    second: ImageResourceDescriptor,
)
    requires
        distinct_handles(images),
        !first.same(&second),
    ensures
        ({
            let a = image_creation(images, next_handle, first, reuse);
            let b = image_creation(
                a.entries,
                a.next_handle,
                second,
                Some(RenderListImageHandle(a.handle)),
            );
            &&& b.allocated
            &&& b.handle == a.handle
            &&& has_handle(a.entries, a.handle)
            &&& b.entries == a.entries.update(
                slot_of(a.entries, a.handle),
                (a.handle, ImageResource { desc: second }),
            )
            &&& b.next_handle == a.next_handle
        }),
{
    let a = image_creation(images, next_handle, first, reuse);
    if !image_cached(images, first, reuse) {
        lemma_upserted(images, a.handle, ImageResource { desc: first });
    }
}

/// Asking again for a buffer, under the handle that the first request gave
/// and with a structurally equal description, creates nothing and changes
/// nothing.
pub proof fn lemma_equal_buffer_reused(
    buffers: Seq<(usize, BufferResource)>,
    next_handle: usize,
    first: BufferResourceDescriptor,
    reuse: Option<RenderListBufferHandle>,
    second: BufferResourceDescriptor,
)
    requires
        distinct_handles(buffers),
        first.same(&second),
    ensures
        ({
            let a = buffer_creation(buffers, next_handle, first, reuse);
            let b = buffer_creation(
                a.entries,
                a.next_handle,
                second,
                Some(RenderListBufferHandle(a.handle)),
            );
            &&& !b.allocated
            &&& b.handle == a.handle
            &&& b.entries == a.entries
            &&& b.next_handle == a.next_handle
        }),
{
    let a = buffer_creation(buffers, next_handle, first, reuse);
    if !buffer_cached(buffers, first, reuse) {
        lemma_upserted(buffers, a.handle, BufferResource { desc: first });
    }
}

/// Asking again for a buffer, under the handle that the first request gave
/// but with a structurally different description, replaces the cached buffer
/// in its slot under the same handle, and the device has to create it.
pub proof fn lemma_different_buffer_replaced(
    buffers: Seq<(usize, BufferResource)>,
    next_handle: usize,
    first: BufferResourceDescriptor,
    reuse: Option<RenderListBufferHandle>,
    second: BufferResourceDescriptor,
)
    requires
        distinct_handles(buffers),
        !first.same(&second),
    ensures
        ({
            let a = buffer_creation(buffers, next_handle, first, reuse);
            let b = buffer_creation(
                a.entries,
                a.next_handle,
                second,
                Some(RenderListBufferHandle(a.handle)),
            );
            &&& b.allocated
            &&& b.handle == a.handle
            &&& has_handle(a.entries, a.handle)
            &&& b.entries == a.entries.update(
                slot_of(a.entries, a.handle),
                (a.handle, BufferResource { desc: second }),
            )
            &&& b.next_handle == a.next_handle
        }),
{
    let a = buffer_creation(buffers, next_handle, first, reuse);
    if !buffer_cached(buffers, first, reuse) {
        lemma_upserted(buffers, a.handle, BufferResource { desc: first });
    }
}

/// Records the transient resources that a render list declares. What the
/// cache cannot serve is stored in it and queued in `allocations` for the
/// device to create.
pub struct RenderListCreationRecorder<'a> {
    pub cache: &'a mut RenderListCache,
    pub mode: RendererMode,
    pub allocations: Vec<ResourceAllocation>,
}

impl<'a> RenderListCreationRecorder<'a> {
    /// The cache keeps its invariant.
    pub open spec fn wf(&self) -> bool {
        self.cache.wf()
    }

    /// Starts recording against `cache`, with nothing queued.
    pub fn new(cache: &'a mut RenderListCache, mode: RendererMode) -> (recorder: Self)
        ensures
            *recorder.cache == *old(cache),
            recorder.mode == mode,
            recorder.allocations@ == Seq::<ResourceAllocation>::empty(),
            *final(cache) == *final(recorder.cache),
    {
        RenderListCreationRecorder { cache, mode, allocations: Vec::new() }
    }

    /// Declares a transient image. With a handle to reuse whose cached image
    /// has a structurally equal description, that handle is returned and
    /// nothing is created. Otherwise the description is cached under the
    /// handle to reuse, or under a fresh handle when there is none, and the
    /// image is queued for creation.
    pub fn create_image(
        &mut self,
        desc: ImageResourceDescriptor,
        reuse: Option<RenderListImageHandle>,
    ) -> (handle: RenderListImageHandle)
        requires
            old(self).wf(),
        ensures
            final(self).wf(),
            ({
                let made = image_creation(
                    old(self).cache.images@,
                    old(self).cache.images.next_handle(),
                    desc,
                    reuse,
                );
                &&& handle.0 == made.handle
                &&& final(self).cache.images@ == made.entries
                &&& final(self).cache.images.next_handle() == made.next_handle
                &&& final(self).allocations@ == (if made.allocated {
                    old(self).allocations@.push(ResourceAllocation::Image { image: handle })
                } else {
                    old(self).allocations@
                })
            }),
            final(self).cache.buffers == old(self).cache.buffers,
            final(self).mode == old(self).mode,
    {
        let handle = match reuse {
            Some(reuse) => {
                let cached = match self.cache.images.try_get(reuse.0) {
                    Some(old) => old.desc == desc,
                    None => false,
                };
                if cached {
                    return reuse;
                }
                reuse.0
            },
            None => self.cache.images.allocate(),
        };

        self.cache.images.insert(handle, ImageResource { desc });

        let handle = RenderListImageHandle(handle);
        self.allocations.push(ResourceAllocation::Image { image: handle });
        handle
    }

    /// Declares a transient buffer. With a handle to reuse whose cached
    /// buffer has a structurally equal description, that handle is returned
    /// and nothing is created. Otherwise the description is cached under the
    /// handle to reuse, or under a fresh handle when there is none, and the
    /// buffer is queued for creation.
    pub fn create_buffer(
        &mut self,
        desc: BufferResourceDescriptor,
        reuse: Option<RenderListBufferHandle>,
    ) -> (handle: RenderListBufferHandle)
        requires
            old(self).wf(),
        ensures
            final(self).wf(),
            ({
                let made = buffer_creation(
                    old(self).cache.buffers@,
                    old(self).cache.buffers.next_handle(),
                    desc,
                    reuse,
                );
                &&& handle.0 == made.handle
                &&& final(self).cache.buffers@ == made.entries
                &&& final(self).cache.buffers.next_handle() == made.next_handle
                &&& final(self).allocations@ == (if made.allocated {
                    old(self).allocations@.push(ResourceAllocation::Buffer { buffer: handle })
                } else {
                    old(self).allocations@
                })
            }),
            final(self).cache.images == old(self).cache.images,
            final(self).mode == old(self).mode,
    {
        let handle = match reuse {
            Some(reuse) => {
                let cached = match self.cache.buffers.try_get(reuse.0) {
                    Some(old) => old.desc == desc,
                    None => false,
                };
                if cached {
                    return reuse;
                }
                reuse.0
            },
            None => self.cache.buffers.allocate(),
        };

        self.cache.buffers.insert(handle, BufferResource { desc });

        let handle = RenderListBufferHandle(handle);
        self.allocations.push(ResourceAllocation::Buffer { buffer: handle });
        handle
    }

    /// Declares a transient buffer with its contents. It is always new: its
    /// description, whose size is the length of the contents, is cached under
    /// a fresh handle, and the buffer is queued for creation with the
    /// contents.
    pub fn create_buffer_init(&mut self, desc_init: BufferResourceInitDescriptor) -> (handle:
        RenderListBufferHandle)
        requires
            old(self).wf(),
        ensures
            final(self).wf(),
            handle.0 == old(self).cache.buffers.next_handle(),
            final(self).cache.buffers.next_handle() == handle_after(handle.0, 1),
            has_handle(final(self).cache.buffers@, handle.0),
            ({
                let stored = final(self).cache.buffers@[slot_of(
                    final(self).cache.buffers@,
                    handle.0,
                )].1.desc;
                &&& final(self).cache.buffers@ == upserted(
                    old(self).cache.buffers@,
                    handle.0,
                    BufferResource { desc: stored },
                )
                &&& stored.label == desc_init.label
                &&& stored.size == desc_init.data@.len()
                &&& stored.usage == desc_init.usage
            }),
            final(self).allocations@ == old(self).allocations@.push(
                ResourceAllocation::BufferInit { buffer: handle, data: desc_init.data },
            ),
            final(self).cache.images == old(self).cache.images,
            final(self).mode == old(self).mode,
    {
        let handle = self.cache.buffers.allocate();

        let (desc, data) = desc_init.into_base_descriptor_data();

        self.cache.buffers.insert(handle, BufferResource { desc });

        let handle = RenderListBufferHandle(handle);
        self.allocations.push(ResourceAllocation::BufferInit { buffer: handle, data });
        handle
    }
}

/// How the objects that a routine draws are chosen and ordered.
pub struct ObjectProcessing {
    pub filter: ObjectFilter,
    pub frustum_culling: bool,
    pub object_sorting: ObjectSortingStyle,
}

/// Which objects a routine draws: all of them.
pub struct ObjectFilter;

/// The order in which a routine draws its objects.
pub enum ObjectSortingStyle {
    /// Any order.
    Unsorted,
    /// Nearest to the viewpoint first.
    FrontToBack,
    /// Farthest from the viewpoint first.
    BackToFront,
}

/// A compute pass with the dispatches added to it.
#[derive(Debug, Clone)]
pub struct ComputePass {
    pub desc: ComputePassDescriptor,
    pub ops: Vec<ComputeOpDescriptor>,
}

/// A render pass with the draws added to it.
#[derive(Debug, Clone)]
pub struct RenderPass {
    pub desc: RenderPassDescriptor,
    pub ops: Vec<RenderOpDescriptor>,
}

/// A pass that a routine emitted.
#[derive(Debug)]
pub enum Pass {
    Compute(ComputePass),
    Render(RenderPass),
}

impl Pass {
    /// The compute pass inside, open to change, if this is one.
    pub fn as_compute_mut(&mut self) -> (pass: Option<&mut ComputePass>)
        ensures
            pass is Some <==> *old(self) is Compute,
            pass matches Some(inner) ==> *inner == (*old(self))->Compute_0 && *final(self)
                == Pass::Compute(*final(inner)),
            pass is None ==> *final(self) == *old(self),
    {
        match self {
            Pass::Compute(p) => Some(p),
            Pass::Render(_) => None,
        }
    }

    /// The render pass inside, open to change, if this is one.
    pub fn as_render_mut(&mut self) -> (pass: Option<&mut RenderPass>)
        ensures
            pass is Some <==> *old(self) is Render,
            pass matches Some(inner) ==> *inner == (*old(self))->Render_0 && *final(self)
                == Pass::Render(*final(inner)),
            pass is None ==> *final(self) == *old(self),
    {
        match self {
            Pass::Render(p) => Some(p),
            Pass::Compute(_) => None,
        }
    }
}

/// Records the passes that one routine emits. Operations go into the pass
/// that was added last.
pub struct RenderListRoutineRecorder {
    pub target: RenderRoutineTarget,
    pub passes: Vec<Pass>,
}

impl RenderListRoutineRecorder {
    /// A render pass is open: it was the last pass added.
    pub open spec fn in_render_pass(&self) -> bool {
        self.passes@.len() > 0 && self.passes@.last() is Render
    }

    /// A compute pass is open: it was the last pass added.
    pub open spec fn in_compute_pass(&self) -> bool {
        self.passes@.len() > 0 && self.passes@.last() is Compute
    }

    /// Starts recording for a routine that draws to `target`, with no pass
    /// yet.
    pub fn new(target: RenderRoutineTarget) -> (recorder: Self)
        ensures
            recorder.target == target,
            recorder.passes@ == Seq::<Pass>::empty(),
    {
        RenderListRoutineRecorder { target, passes: Vec::new() }
    }

    /// Opens a render pass without operations after the passes so far.
    pub fn add_render_pass(&mut self, desc: RenderPassDescriptor)
        ensures
            final(self).passes@.len() == old(self).passes@.len() + 1,
            final(self).passes@.drop_last() == old(self).passes@,
            final(self).passes@.last() matches Pass::Render(pass) && pass.desc == desc
                && pass.ops@.len() == 0,
            final(self).target == old(self).target,
    {
        self.passes.push(Pass::Render(RenderPass { desc, ops: Vec::new() }));
        assert(self.passes@.drop_last() =~= old(self).passes@);
    }

    /// Appends a draw to the open render pass. Every other pass stays as it
    /// is.
    pub fn add_render_op(&mut self, desc: RenderOpDescriptor)
        requires
            old(self).in_render_pass(),
        ensures
            final(self).passes@.len() == old(self).passes@.len(),
            final(self).passes@.drop_last() == old(self).passes@.drop_last(),
            final(self).passes@.last() matches Pass::Render(pass) && pass.desc == old(self).passes@.last()->Render_0.desc && pass.ops@ == old(self).passes@.last()->Render_0.ops@.push(desc),
            final(self).target == old(self).target,
    {
        let last = self.passes.len() - 1;
        match &mut self.passes[last] {
            Pass::Render(pass) => {
                pass.ops.push(desc);
            },
            Pass::Compute(_) => vstd::pervasive::unreached(),
        }
        assert(self.passes@.drop_last() =~= old(self).passes@.drop_last());
    }

    /// Opens a compute pass without operations after the passes so far.
    pub fn add_compute_pass(&mut self, desc: ComputePassDescriptor)
        ensures
            final(self).passes@.len() == old(self).passes@.len() + 1,
            final(self).passes@.drop_last() == old(self).passes@,
            final(self).passes@.last() matches Pass::Compute(pass) && pass.desc == desc
                && pass.ops@.len() == 0,
            final(self).target == old(self).target,
    {
        self.passes.push(Pass::Compute(ComputePass { desc, ops: Vec::new() }));
        assert(self.passes@.drop_last() =~= old(self).passes@);
    }

    /// Appends a dispatch to the open compute pass. Every other pass stays as
    /// it is.
    pub fn add_compute_op(&mut self, desc: ComputeOpDescriptor)
        requires
            old(self).in_compute_pass(),
        ensures
            final(self).passes@.len() == old(self).passes@.len(),
            final(self).passes@.drop_last() == old(self).passes@.drop_last(),
            final(self).passes@.last() matches Pass::Compute(pass) && pass.desc == old(self).passes@.last()->Compute_0.desc && pass.ops@ == old(self).passes@.last()->Compute_0.ops@.push(desc),
            final(self).target == old(self).target,
    {
        let last = self.passes.len() - 1;
        match &mut self.passes[last] {
            Pass::Compute(pass) => {
                pass.ops.push(desc);
            },
            Pass::Render(_) => vstd::pervasive::unreached(),
        }
        assert(self.passes@.drop_last() =~= old(self).passes@.drop_last());
    }
}

/// What a routine does when the frame invokes it: given the number of
/// objects and the mode of the frame, it emits passes into the recorder.
pub trait RoutineFunction {
    /// What the function does to a recorder: relates the recorder as it is
    /// handed over to the recorder as it is handed back, for a frame of
    /// `object_count` objects in `mode`.
    spec fn records(
        &self,
        before: RenderListRoutineRecorder,
        after: RenderListRoutineRecorder,
        object_count: usize,
        mode: RendererMode,
    ) -> bool;

    /// Emits the passes of the routine into `recorder`.
    fn record(
        &mut self,
        recorder: &mut RenderListRoutineRecorder,
        object_count: usize,
        mode: RendererMode,
    )
        ensures
            old(self).records(*old(recorder), *final(recorder), object_count, mode),
    ;
}

/// One routine of a render list: how its objects are processed, where it
/// draws to, and the function that emits its passes.
pub struct RenderRoutine<F> {
    pub processing: ObjectProcessing,
    pub target: RenderRoutineTarget,
    pub routine: F,
}

impl<F: RoutineFunction> RenderRoutine<F> {
    /// Puts a routine together from its three parts.
    pub fn new(processing: ObjectProcessing, target: RenderRoutineTarget, function: F) -> (routine:
        Self)
        ensures
            routine.processing == processing,
            routine.target == target,
            routine.routine == function,
    {
        RenderRoutine { processing, target, routine: function }
    }

    /// Invokes the routine for `object_count` objects in `mode`, on a
    /// recorder of its own that draws to the routine's target, and returns
    /// the passes that the routine left in it.
    pub fn record_passes(&mut self, object_count: usize, mode: RendererMode) -> (passes: Vec<Pass>)
        ensures
            exists|before: RenderListRoutineRecorder, after: RenderListRoutineRecorder|
                {
                    &&& before.target == old(self).target
                    &&& before.passes@ == Seq::<Pass>::empty()
                    &&& #[trigger] old(self).routine.records(before, after, object_count, mode)
                    &&& passes == after.passes
                },
            final(self).target == old(self).target,
            final(self).processing == old(self).processing,
    {
        let mut recorder = RenderListRoutineRecorder::new(self.target);
        let ghost before = recorder;
        self.routine.record(&mut recorder, object_count, mode);
        assert(old(self).routine.records(before, recorder, object_count, mode));
        recorder.passes
    }
}

/// Records the routines that a render list declares, on top of the recorder
/// of its transient resources. `F` is the type of the routines' functions.
pub struct RenderListRecorder<'a, 'b, F> {
    pub creation_rec: &'b mut RenderListCreationRecorder<'a>,
    pub routines: Vec<RenderRoutine<F>>,
}

impl<'a, 'b, F> Deref for RenderListRecorder<'a, 'b, F> {
    type Target = RenderListCreationRecorder<'a>;

    /// The recorder of transient resources underneath.
    fn deref(&self) -> (creation: &Self::Target)
        ensures
            *creation == *old(self.creation_rec),
    {
        &self.creation_rec
    }
}

impl<'a, 'b, F> DerefMut for RenderListRecorder<'a, 'b, F> {
    /// The recorder of transient resources underneath, open to change. What
    /// is done to it is done to the recorder underneath; the routines stay as
    /// they are.
    fn deref_mut(&mut self) -> (creation: &mut Self::Target)
        ensures
            *creation == *old(self).creation_rec,
            *final(self).creation_rec == *final(creation),
            final(self).routines == old(self).routines,
    {
        &mut self.creation_rec
    }
}

impl<'a, 'b, F: RoutineFunction> RenderListRecorder<'a, 'b, F> {
    /// The recorder of transient resources keeps its invariant.
    pub open spec fn wf(&self) -> bool {
        self.creation_rec.wf()
    }

    /// Starts recording routines on top of `creation_rec`, with none yet.
    pub fn new(creation_rec: &'b mut RenderListCreationRecorder<'a>) -> (recorder: Self)
        ensures
            *recorder.creation_rec == *old(creation_rec),
            recorder.routines@ == Seq::<RenderRoutine<F>>::empty(),
            *final(creation_rec) == *final(recorder.creation_rec),
    {
        RenderListRecorder { creation_rec, routines: Vec::new() }
    }

    /// Appends a routine after the routines so far: the new last routine is
    /// made of exactly the processing, the target and the function given.
    /// The routines so far and the transient resources are untouched.
    pub fn add_render_routine(
        &mut self,
        processing: ObjectProcessing,
        target: RenderRoutineTarget,
        function: F,
    )
        ensures
            final(self).routines@.len() == old(self).routines@.len() + 1,
            final(self).routines@.drop_last() == old(self).routines@,
            final(self).routines@.last().processing == processing,
            final(self).routines@.last().target == target,
            final(self).routines@.last().routine == function,
            *final(self).creation_rec == *old(self).creation_rec,
    {
        self.routines.push(RenderRoutine::new(processing, target, function));
        assert(self.routines@.drop_last() =~= old(self).routines@);
    }
}

} // verus!
