use rend3::instruction::InstructionStreamPair;
use rend3::registry::ResourceRegistry;
use rend3::renderer::render::{
    schedule_passes, submission_order, CommandSource, PassRecording, RenderPassRunRate, Viewpoint,
};

#[derive(Debug, Clone, PartialEq)]
enum SceneChange {
    AddMesh { handle: usize, mesh: &'static str },
    RemoveMesh { handle: usize },
}

fn apply(meshes: &mut ResourceRegistry<&'static str>, change: SceneChange) {
    match change {
        SceneChange::AddMesh { handle, mesh } => {
            meshes.insert(handle, mesh);
        }
        SceneChange::RemoveMesh { handle } => {
            meshes.remove(handle);
        }
    }
}

#[test]
fn new_queue_is_empty() {
    let mut queue: InstructionStreamPair<u32> = InstructionStreamPair::new();
    assert!(queue.producer.is_empty());
    assert!(queue.consumer.is_empty());
    assert!(queue.drain().is_empty());
}

#[test]
fn drain_yields_the_instructions_in_append_order() {
    let mut queue = InstructionStreamPair::new();
    for i in 0..10u32 {
        queue.push(i);
    }
    // Nothing reaches the frame before the swap.
    assert!(queue.drain().is_empty());
    queue.swap();
    assert_eq!(queue.drain(), (0..10).collect::<Vec<u32>>());
    assert!(queue.drain().is_empty());
}

#[test]
fn instructions_appended_after_the_swap_wait_for_the_next_frame() {
    let mut queue = InstructionStreamPair::new();
    queue.push("a");
    queue.push("b");
    queue.swap();
    queue.push("c");
    assert_eq!(queue.drain(), vec!["a", "b"]);
    queue.swap();
    queue.push("d");
    assert_eq!(queue.drain(), vec!["c"]);
    queue.swap();
    assert_eq!(queue.drain(), vec!["d"]);
}

#[test]
fn add_remove_add_in_one_batch_leaves_the_second_mesh() {
    let mut meshes: ResourceRegistry<&'static str> = ResourceRegistry::new();
    let mut queue = InstructionStreamPair::new();
    let handle = meshes.allocate();
    queue.push(SceneChange::AddMesh { handle, mesh: "first" });
    queue.push(SceneChange::RemoveMesh { handle });
    queue.push(SceneChange::AddMesh { handle, mesh: "second" });

    queue.swap();
    for change in queue.drain() {
        apply(&mut meshes, change);
    }

    assert_eq!(meshes.count(), 1);
    assert_eq!(meshes.try_get(handle), Some(&"second"));
    assert_eq!(meshes.iter(), vec![(handle, &"second")]);
}

#[test]
fn once_pass_alone_is_scheduled_without_shadow_casters() {
    let run_rates = vec![RenderPassRunRate::Once, RenderPassRunRate::PerShadow];
    let recordings = schedule_passes(&run_rates, 0);
    assert_eq!(recordings, vec![PassRecording { viewpoint: Viewpoint::Camera, pass: 0 }]);
}

#[test]
fn shadow_passes_come_first_light_by_light() {
    let run_rates = vec![
        RenderPassRunRate::Once,
        RenderPassRunRate::PerShadow,
        RenderPassRunRate::PerShadow,
        RenderPassRunRate::Once,
    ];
    let recordings = schedule_passes(&run_rates, 2);
    assert_eq!(
        recordings,
        vec![
            PassRecording { viewpoint: Viewpoint::ShadowCaster(0), pass: 1 },
            PassRecording { viewpoint: Viewpoint::ShadowCaster(0), pass: 2 },
            PassRecording { viewpoint: Viewpoint::ShadowCaster(1), pass: 1 },
            PassRecording { viewpoint: Viewpoint::ShadowCaster(1), pass: 2 },
            PassRecording { viewpoint: Viewpoint::Camera, pass: 0 },
            PassRecording { viewpoint: Viewpoint::Camera, pass: 3 },
        ]
    );
}

#[test]
fn nothing_is_scheduled_for_an_empty_list() {
    assert!(schedule_passes(&Vec::new(), 0).is_empty());
    assert!(schedule_passes(&Vec::new(), 5).is_empty());
    assert!(schedule_passes(&vec![RenderPassRunRate::PerShadow], 0).is_empty());
}

#[test]
fn shared_encoder_is_submitted_first() {
    assert_eq!(submission_order(0), vec![CommandSource::SharedEncoder]);
    assert_eq!(
        submission_order(3),
        vec![
            CommandSource::SharedEncoder,
            CommandSource::Recording(0),
            CommandSource::Recording(1),
            CommandSource::Recording(2),
        ]
    );
}
