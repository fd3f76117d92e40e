use rend3::datatypes::{
    ClearColor, ClearDepth, ComputePipelineHandle, RenderPipelineHandle, RendererMode,
    TextureHandle,
};
use rend3::renderer::list::{
    BufferCreation, BufferReference, BufferResourceDescriptor, ImageCreation, ImageDimension, BufferResourceInitDescriptor, ComputeOpDescriptor,
    ComputePassDescriptor, DepthOutput, ImageInputReference, ImageOutput, ImageOutputReference,
    ImageResourceDescriptor, ObjectFilter, ObjectProcessing, ObjectSortingStyle, Pass,
    PerObjectResourceBinding, RenderListBufferHandle, RenderListCache,
    RenderListCreationRecorder, RenderListImageHandle, RenderListRecorder,
    RenderListRoutineRecorder, RenderOpDescriptor, RenderOpDrawType, RenderOpInputType,
    RenderPassDescriptor, RenderRoutine, RenderRoutineTarget, ResourceAllocation,
    ResourceBinding, RoutineFunction,
};

fn color_target(width: u32, height: u32) -> ImageResourceDescriptor {
    ImageResourceDescriptor {
        label: Some(String::from("color target")),
        resolution: [width, height],
        mips: 1,
        format: wgpu::TextureFormat::Rgba8Unorm,
        samples: 1,
        usage: wgpu::TextureUsage::RENDER_ATTACHMENT | wgpu::TextureUsage::SAMPLED,
    }
}

fn scratch_buffer(size: u64) -> BufferResourceDescriptor {
    BufferResourceDescriptor {
        label: Some(String::from("scratch")),
        size,
        usage: wgpu::BufferUsage::STORAGE,
    }
}

fn render_pass(name: &str) -> RenderPassDescriptor {
    RenderPassDescriptor {
        name: Some(String::from(name)),
        outputs: vec![ImageOutput {
            output: ImageOutputReference::OutputImage,
            resolve_target: None,
            clear: wgpu::LoadOp::Clear(ClearColor {
                r: 0.0f32.to_bits(),
                g: 0.5f32.to_bits(),
                b: 1.0f32.to_bits(),
                a: 1.0f32.to_bits(),
            }),
        }],
        depth: Some(DepthOutput {
            output: ImageOutputReference::Custom(RenderListImageHandle(3)),
            clear: wgpu::LoadOp::Clear(ClearDepth { bits: 1.0f32.to_bits() }),
        }),
    }
}

fn render_op(pipeline: usize) -> RenderOpDescriptor {
    RenderOpDescriptor {
        pipeline: RenderPipelineHandle(pipeline),
        per_op_bindings: vec![
            ResourceBinding::GeneralData,
            ResourceBinding::Custom2DTexture(vec![ImageInputReference::Handle(TextureHandle(1))]),
        ],
        per_object_bindings: vec![PerObjectResourceBinding::CPUMaterial],
        draw_type: RenderOpDrawType::Cpu { input: RenderOpInputType::Models3D },
    }
}

fn compute_op(pipeline: usize) -> ComputeOpDescriptor {
    ComputeOpDescriptor {
        pipeline: ComputePipelineHandle(pipeline),
        per_op_bindings: vec![ResourceBinding::ObjectData],
        size: glam::UVec3::new(8, 4, 1),
    }
}

#[test]
fn new_cache_is_empty() {
    let cache = RenderListCache::new();
    assert_eq!(cache.images.count(), 0);
    assert_eq!(cache.buffers.count(), 0);
}

#[test]
fn create_image_without_reuse_allocates_a_fresh_handle() {
    let mut cache = RenderListCache::new();
    let mut recorder = RenderListCreationRecorder::new(&mut cache, RendererMode::CPUPowered);
    let first = recorder.create_image(color_target(640, 480), None);
    let second = recorder.create_image(color_target(640, 480), None);
    assert_eq!(first, RenderListImageHandle(0));
    assert_eq!(second, RenderListImageHandle(1));
    assert_eq!(recorder.allocations.len(), 2);
    assert!(matches!(recorder.allocations[0], ResourceAllocation::Image { image } if image == first));
    assert!(matches!(recorder.allocations[1], ResourceAllocation::Image { image } if image == second));
    assert_eq!(cache.images.count(), 2);
    assert_eq!(cache.buffers.count(), 0);
    assert_eq!(cache.get_image(&first).desc, color_target(640, 480));
}

#[test]
fn equal_descriptor_reuses_the_cached_image() {
    let mut cache = RenderListCache::new();
    let handle = {
        let mut frame_one = RenderListCreationRecorder::new(&mut cache, RendererMode::GPUPowered);
        let handle = frame_one.create_image(color_target(640, 480), None);
        assert_eq!(frame_one.allocations.len(), 1);
        handle
    };
    let mut frame_two = RenderListCreationRecorder::new(&mut cache, RendererMode::GPUPowered);
    let again = frame_two.create_image(color_target(640, 480), Some(handle));
    assert_eq!(again, handle);
    assert_eq!(frame_two.allocations.len(), 0);
    assert_eq!(cache.images.count(), 1);
    // The counter did not move either.
    assert_eq!(cache.images.allocate(), 1);
}

#[test]
fn different_descriptor_replaces_the_cached_image() {
    let mut cache = RenderListCache::new();
    let handle = {
        let mut frame_one = RenderListCreationRecorder::new(&mut cache, RendererMode::GPUPowered);
        frame_one.create_image(color_target(640, 480), None)
    };
    let mut frame_two = RenderListCreationRecorder::new(&mut cache, RendererMode::GPUPowered);
    let again = frame_two.create_image(color_target(1280, 720), Some(handle));
    assert_eq!(again, handle);
    assert_eq!(frame_two.allocations.len(), 1);
    assert!(matches!(frame_two.allocations[0], ResourceAllocation::Image { image } if image == handle));
    assert_eq!(cache.images.count(), 1);
    assert_eq!(cache.images.get_index_of(handle.0), 0);
    assert_eq!(cache.get_image(&handle).desc.resolution, [1280, 720]);
}

#[test]
fn every_image_field_takes_part_in_the_comparison() {
    let base = color_target(64, 64);
    let variants = vec![
        ImageResourceDescriptor { label: None, ..base.clone() },
        ImageResourceDescriptor { label: Some(String::from("other")), ..base.clone() },
        ImageResourceDescriptor { resolution: [65, 64], ..base.clone() },
        ImageResourceDescriptor { resolution: [64, 65], ..base.clone() },
        ImageResourceDescriptor { mips: 2, ..base.clone() },
        ImageResourceDescriptor { format: wgpu::TextureFormat::Rgba8UnormSrgb, ..base.clone() },
        ImageResourceDescriptor { samples: 4, ..base.clone() },
        ImageResourceDescriptor { usage: wgpu::TextureUsage::SAMPLED, ..base.clone() },
    ];
    assert!(base == base.clone());
    for variant in variants {
        assert!(base != variant);
        let mut cache = RenderListCache::new();
        let mut recorder = RenderListCreationRecorder::new(&mut cache, RendererMode::CPUPowered);
        let handle = recorder.create_image(base.clone(), None);
        let again = recorder.create_image(variant, Some(handle));
        assert_eq!(again, handle);
        assert_eq!(recorder.allocations.len(), 2);
    }
}

#[test]
fn reuse_of_an_unknown_image_handle_stores_under_that_handle() {
    let mut cache = RenderListCache::new();
    let mut recorder = RenderListCreationRecorder::new(&mut cache, RendererMode::CPUPowered);
    let handle = recorder.create_image(color_target(8, 8), Some(RenderListImageHandle(41)));
    assert_eq!(handle, RenderListImageHandle(41));
    assert_eq!(recorder.allocations.len(), 1);
    assert_eq!(cache.images.count(), 1);
    assert_eq!(cache.get_image(&handle).desc, color_target(8, 8));
    // Nothing was allocated from the counter.
    assert_eq!(cache.images.allocate(), 0);
}

#[test]
fn equal_descriptor_reuses_the_cached_buffer() {
    let mut cache = RenderListCache::new();
    let handle = {
        let mut frame_one = RenderListCreationRecorder::new(&mut cache, RendererMode::CPUPowered);
        let handle = frame_one.create_buffer(scratch_buffer(256), None);
        assert_eq!(handle, RenderListBufferHandle(0));
        assert_eq!(frame_one.allocations.len(), 1);
        assert!(matches!(frame_one.allocations[0], ResourceAllocation::Buffer { buffer } if buffer == handle));
        handle
    };
    let mut frame_two = RenderListCreationRecorder::new(&mut cache, RendererMode::CPUPowered);
    let again = frame_two.create_buffer(scratch_buffer(256), Some(handle));
    assert_eq!(again, handle);
    assert_eq!(frame_two.allocations.len(), 0);
    assert_eq!(cache.buffers.count(), 1);
    assert_eq!(cache.images.count(), 0);
}

#[test]
fn different_descriptor_replaces_the_cached_buffer() {
    let mut cache = RenderListCache::new();
    let mut recorder = RenderListCreationRecorder::new(&mut cache, RendererMode::CPUPowered);
    let handle = recorder.create_buffer(scratch_buffer(256), None);
    let by_size = recorder.create_buffer(scratch_buffer(512), Some(handle));
    assert_eq!(by_size, handle);
    let by_usage = recorder.create_buffer(
        BufferResourceDescriptor { usage: wgpu::BufferUsage::UNIFORM, ..scratch_buffer(512) },
        Some(handle),
    );
    assert_eq!(by_usage, handle);
    let by_label = recorder.create_buffer(
        BufferResourceDescriptor {
            label: None,
            usage: wgpu::BufferUsage::UNIFORM,
            ..scratch_buffer(512)
        },
        Some(handle),
    );
    assert_eq!(by_label, handle);
    assert_eq!(recorder.allocations.len(), 4);
    assert_eq!(cache.buffers.count(), 1);
    let stored = &cache.get_buffer(&handle).desc;
    assert_eq!(stored.size, 512);
    assert_eq!(stored.label, None);
    assert_eq!(stored.usage, wgpu::BufferUsage::UNIFORM);
}

#[test]
fn create_buffer_init_is_always_new() {
    let mut cache = RenderListCache::new();
    let mut recorder = RenderListCreationRecorder::new(&mut cache, RendererMode::CPUPowered);
    let init = BufferResourceInitDescriptor {
        label: Some(String::from("indices")),
        data: vec![1, 2, 3, 4, 5],
        usage: wgpu::BufferUsage::INDEX,
    };
    let first = recorder.create_buffer_init(init.clone());
    let second = recorder.create_buffer_init(init);
    assert_eq!(first, RenderListBufferHandle(0));
    assert_eq!(second, RenderListBufferHandle(1));
    assert_eq!(recorder.allocations.len(), 2);
    match &recorder.allocations[1] {
        ResourceAllocation::BufferInit { buffer, data } => {
            assert_eq!(*buffer, second);
            assert_eq!(*data, vec![1, 2, 3, 4, 5]);
        }
        other => panic!("unexpected allocation {:?}", other),
    }
    let stored = &cache.get_buffer(&first).desc;
    assert_eq!(stored.size, 5);
    assert_eq!(stored.label, Some(String::from("indices")));
    assert_eq!(stored.usage, wgpu::BufferUsage::INDEX);
}

#[test]
fn into_base_descriptor_data_takes_the_size_from_the_data() {
    let init = BufferResourceInitDescriptor {
        label: None,
        data: vec![9; 300],
        usage: wgpu::BufferUsage::VERTEX | wgpu::BufferUsage::COPY_DST,
    };
    let (desc, data) = init.into_base_descriptor_data();
    assert_eq!(desc.size, 300);
    assert_eq!(desc.label, None);
    assert_eq!(desc.usage, wgpu::BufferUsage::VERTEX | wgpu::BufferUsage::COPY_DST);
    assert_eq!(data, vec![9; 300]);
}

#[test]
fn operations_go_into_the_pass_added_last() {
    let mut recorder = RenderListRoutineRecorder::new(RenderRoutineTarget::Shadow);
    recorder.add_render_pass(render_pass("depth"));
    recorder.add_render_op(render_op(1));
    recorder.add_compute_pass(ComputePassDescriptor { name: Some(String::from("blur")) });
    recorder.add_compute_op(compute_op(7));
    recorder.add_compute_op(compute_op(8));
    recorder.add_render_pass(render_pass("color"));
    recorder.add_render_op(render_op(2));
    recorder.add_render_op(render_op(3));

    assert_eq!(recorder.target, RenderRoutineTarget::Shadow);
    assert_eq!(recorder.passes.len(), 3);
    match &recorder.passes[0] {
        Pass::Render(pass) => {
            assert_eq!(pass.desc.name, Some(String::from("depth")));
            assert_eq!(pass.ops.len(), 1);
            assert_eq!(pass.ops[0].pipeline, RenderPipelineHandle(1));
        }
        Pass::Compute(_) => panic!("the first pass is a render pass"),
    }
    match &recorder.passes[1] {
        Pass::Compute(pass) => {
            assert_eq!(pass.desc.name, Some(String::from("blur")));
            assert_eq!(pass.ops.len(), 2);
            assert_eq!(pass.ops[0].pipeline, ComputePipelineHandle(7));
            assert_eq!(pass.ops[1].pipeline, ComputePipelineHandle(8));
            assert_eq!(pass.ops[1].size, glam::UVec3::new(8, 4, 1));
        }
        Pass::Render(_) => panic!("the second pass is a compute pass"),
    }
    match &recorder.passes[2] {
        Pass::Render(pass) => {
            assert_eq!(pass.desc.name, Some(String::from("color")));
            assert_eq!(pass.desc.outputs.len(), 1);
            assert_eq!(pass.ops.len(), 2);
            assert_eq!(pass.ops[0].pipeline, RenderPipelineHandle(2));
            assert_eq!(pass.ops[1].pipeline, RenderPipelineHandle(3));
            assert_eq!(pass.ops[1].per_op_bindings.len(), 2);
        }
        Pass::Compute(_) => panic!("the third pass is a render pass"),
    }
}

#[test]
fn a_pass_opens_as_one_kind_only() {
    let mut render = Pass::Render(rend3::renderer::list::RenderPass {
        desc: render_pass("only"),
        ops: Vec::new(),
    });
    assert!(render.as_compute_mut().is_none());
    render.as_render_mut().unwrap().ops.push(render_op(5));
    match &render {
        Pass::Render(pass) => assert_eq!(pass.ops.len(), 1),
        Pass::Compute(_) => panic!("still a render pass"),
    }

    let mut compute = Pass::Compute(rend3::renderer::list::ComputePass {
        desc: ComputePassDescriptor { name: None },
        ops: Vec::new(),
    });
    assert!(compute.as_render_mut().is_none());
    compute.as_compute_mut().unwrap().ops.push(compute_op(6));
    match &compute {
        Pass::Compute(pass) => assert_eq!(pass.ops.len(), 1),
        Pass::Render(_) => panic!("still a compute pass"),
    }
}

struct OnePassPerObject {
    calls: usize,
}

impl RoutineFunction for OnePassPerObject {
    fn records(
        &self,
        before: RenderListRoutineRecorder,
        after: RenderListRoutineRecorder,
        object_count: usize,
        _mode: RendererMode,
    ) -> bool {
        after.passes.len() == before.passes.len() + object_count
    }

    fn record(
        &mut self,
        recorder: &mut RenderListRoutineRecorder,
        object_count: usize,
        mode: RendererMode,
    ) {
        self.calls += 1;
        for _ in 0..object_count {
            recorder.add_render_pass(render_pass("object"));
            let draw_type = match mode {
                RendererMode::CPUPowered => {
                    RenderOpDrawType::Cpu { input: RenderOpInputType::FullscreenTriangle }
                }
                RendererMode::GPUPowered => RenderOpDrawType::Gpu {
                    indirect_buffer: BufferReference {
                        buffer: RenderListBufferHandle(0),
                        offset: 0,
                    },
                    count_buffer: BufferReference { buffer: RenderListBufferHandle(1), offset: 16 },
                    max_count: object_count,
                },
            };
            recorder.add_render_op(RenderOpDescriptor { draw_type, ..render_op(1) });
        }
    }
}

fn processing() -> ObjectProcessing {
    ObjectProcessing {
        filter: ObjectFilter,
        frustum_culling: true,
        object_sorting: ObjectSortingStyle::FrontToBack,
    }
}

#[test]
fn routines_are_kept_in_the_order_added() {
    let mut cache = RenderListCache::new();
    let mut creation = RenderListCreationRecorder::new(&mut cache, RendererMode::GPUPowered);
    let image = creation.create_image(color_target(32, 32), None);
    let mut recorder: RenderListRecorder<OnePassPerObject> = RenderListRecorder::new(&mut creation);
    recorder.add_render_routine(processing(), RenderRoutineTarget::Shadow, OnePassPerObject { calls: 0 });
    recorder.add_render_routine(
        processing(),
        RenderRoutineTarget::Image(image),
        OnePassPerObject { calls: 0 },
    );
    recorder.add_render_routine(processing(), RenderRoutineTarget::NoTarget, OnePassPerObject { calls: 0 });
    // The recorder of routines hands through to the recorder of resources.
    assert_eq!(recorder.mode, RendererMode::GPUPowered);
    let buffer = recorder.create_buffer(scratch_buffer(64), None);
    assert_eq!(buffer, RenderListBufferHandle(0));

    let routines = recorder.routines;
    assert_eq!(routines.len(), 3);
    assert_eq!(routines[0].target, RenderRoutineTarget::Shadow);
    assert_eq!(routines[1].target, RenderRoutineTarget::Image(image));
    assert_eq!(routines[2].target, RenderRoutineTarget::NoTarget);
    assert!(routines[0].processing.frustum_culling);
    assert_eq!(creation.allocations.len(), 2);
}

#[test]
fn a_routine_emits_its_passes_when_invoked() {
    let mut routine = RenderRoutine::new(
        processing(),
        RenderRoutineTarget::Image(RenderListImageHandle(2)),
        OnePassPerObject { calls: 0 },
    );
    let cpu = routine.record_passes(3, RendererMode::CPUPowered);
    assert_eq!(cpu.len(), 3);
    match &cpu[2] {
        Pass::Render(pass) => {
            assert!(matches!(pass.ops[0].draw_type, RenderOpDrawType::Cpu { .. }));
        }
        Pass::Compute(_) => panic!("the routine emits render passes"),
    }
    let gpu = routine.record_passes(1, RendererMode::GPUPowered);
    assert_eq!(gpu.len(), 1);
    match &gpu[0] {
        Pass::Render(pass) => match &pass.ops[0].draw_type {
            RenderOpDrawType::Gpu { max_count, count_buffer, .. } => {
                assert_eq!(*max_count, 1);
                assert_eq!(count_buffer.offset, 16);
            }
            RenderOpDrawType::Cpu { .. } => panic!("the frame is GPU powered"),
        },
        Pass::Compute(_) => panic!("the routine emits render passes"),
    }
    assert_eq!(routine.target, RenderRoutineTarget::Image(RenderListImageHandle(2)));
    assert_eq!(routine.record_passes(0, RendererMode::CPUPowered).len(), 0);
}

#[test]
fn a_routine_keeps_the_function_it_was_given() {
    let mut cache = RenderListCache::new();
    let mut creation = RenderListCreationRecorder::new(&mut cache, RendererMode::CPUPowered);
    let mut recorder = RenderListRecorder::new(&mut creation);
    recorder.add_render_routine(processing(), RenderRoutineTarget::Shadow, OnePassPerObject { calls: 7 });
    recorder.add_render_routine(processing(), RenderRoutineTarget::NoTarget, OnePassPerObject { calls: 9 });
    // Adding a routine does not invoke it.
    assert_eq!(recorder.routines[0].routine.calls, 7);
    assert_eq!(recorder.routines[1].routine.calls, 9);
    let passes = recorder.routines[1].record_passes(2, RendererMode::CPUPowered);
    assert_eq!(passes.len(), 2);
    assert_eq!(recorder.routines[0].routine.calls, 7);
    assert_eq!(recorder.routines[1].routine.calls, 10);
}

#[test]
fn an_image_is_created_as_a_single_layer_2d_image() {
    let desc = ImageResourceDescriptor { mips: 5, samples: 4, ..color_target(640, 480) };
    let asked: ImageCreation = desc.creation();
    assert_eq!(asked.width, 640);
    assert_eq!(asked.height, 480);
    assert_eq!(asked.depth, 1);
    assert_eq!(asked.mip_level_count, 5);
    assert_eq!(asked.sample_count, 1);
    assert_eq!(asked.dimension, ImageDimension::D2);
    assert_eq!(asked.format, wgpu::TextureFormat::Rgba8Unorm);
    assert_eq!(
        asked.usage,
        wgpu::TextureUsage::RENDER_ATTACHMENT | wgpu::TextureUsage::SAMPLED
    );
}

#[test]
fn a_buffer_is_created_unmapped() {
    let asked: BufferCreation = scratch_buffer(4096).creation();
    assert_eq!(asked.size, 4096);
    assert_eq!(asked.usage, wgpu::BufferUsage::STORAGE);
    assert!(!asked.mapped_at_creation);
}
