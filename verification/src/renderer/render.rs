//! The order of a frame's recording work: which passes are recorded for
//! which viewpoint, and how the recorded command buffers are submitted.

use vstd::prelude::*;

verus! {

/// How often a pass runs in a frame.
#[derive(Debug, Clone, Copy, PartialEq, Eq, Hash, Structural)]
pub enum RenderPassRunRate {
    /// Once for every shadow-casting light.
    PerShadow,
    /// Once, for the camera.
    Once,
}

/// A point of view that passes are recorded for.
#[derive(Debug, Clone, Copy, PartialEq, Eq, Hash, Structural)]
pub enum Viewpoint {
    /// The shadow-casting light in this slot of the lights' registry.
    ShadowCaster(usize),
    /// The camera.
    Camera,
}

/// One recording task: the pass with this index in the render list, recorded
/// for this viewpoint.
#[derive(Debug, Clone, Copy, PartialEq, Eq, Hash, Structural)]
pub struct PassRecording {
    pub viewpoint: Viewpoint,
    pub pass: usize,
}

/// Where a command buffer of the frame's submission comes from.
#[derive(Debug, Clone, Copy, PartialEq, Eq, Hash, Structural)]
pub enum CommandSource {
    /// The encoder shared by uploads and culling dispatches.
    SharedEncoder,
    /// The recording task with this index in the frame's schedule.
    Recording(usize),
}

/// The recordings for one viewpoint among the first `passes` passes: those
/// that run at `rate`, in the order of the render list.
pub open spec fn viewpoint_recordings(
    run_rates: Seq<RenderPassRunRate>,
    viewpoint: Viewpoint,
    rate: RenderPassRunRate,
    passes: nat,
) -> Seq<PassRecording>
    decreases passes,
{
    if passes == 0 {
        Seq::empty()
    } else {
        let before = viewpoint_recordings(run_rates, viewpoint, rate, (passes - 1) as nat);
        if run_rates[passes - 1] == rate {
            before.push(PassRecording { viewpoint, pass: (passes - 1) as usize })
        } else {
            before
        }
    }
}

/// The recordings for the first `casters` shadow-casting lights, light after
/// light.
pub open spec fn shadow_recordings(run_rates: Seq<RenderPassRunRate>, casters: nat) -> Seq<
    PassRecording,
>
    decreases casters,
{
    if casters == 0 {
        Seq::empty()
    } else {
        shadow_recordings(run_rates, (casters - 1) as nat) + viewpoint_recordings(
            run_rates,
            Viewpoint::ShadowCaster((casters - 1) as usize),
            RenderPassRunRate::PerShadow,
            run_rates.len(),
        )
    }
}

/// The recordings of a frame: for every shadow-casting light its per-shadow
/// passes, then for the camera the passes that run once.
pub open spec fn scheduled_recordings(run_rates: Seq<RenderPassRunRate>, casters: nat) -> Seq<
    PassRecording,
> {
    shadow_recordings(run_rates, casters) + viewpoint_recordings(
        run_rates,
        Viewpoint::Camera,
        RenderPassRunRate::Once,
        run_rates.len(),
    )
}

/// The command buffers of a frame in submission order: the shared encoder's
/// buffer, then the buffer of every recording in schedule order.
pub open spec fn submission(recordings: nat) -> Seq<CommandSource> {
    Seq::new(
        recordings + 1,
        |i: int|
            if i == 0 {
                CommandSource::SharedEncoder
            } else {
                CommandSource::Recording((i - 1) as usize)
            },
    )
}

/// The recordings for a viewpoint are exactly its passes at the given rate:
/// each recording is for that viewpoint and a pass of that rate, pass indices
/// increase, and every pass of that rate is recorded.
pub proof fn lemma_viewpoint_recordings(
    run_rates: Seq<RenderPassRunRate>,
    viewpoint: Viewpoint,
    rate: RenderPassRunRate,
    passes: nat,
)
    requires
        passes <= run_rates.len(),
        run_rates.len() <= usize::MAX,
    ensures
        viewpoint_recordings(run_rates, viewpoint, rate, passes).len() <= passes,
        forall|i: int|
            0 <= i < viewpoint_recordings(run_rates, viewpoint, rate, passes).len() ==> {
                let recording = #[trigger] viewpoint_recordings(run_rates, viewpoint, rate, passes)[i];
                &&& recording.viewpoint == viewpoint
                &&& recording.pass < passes
                &&& run_rates[recording.pass as int] == rate
            },
        forall|i: int, j: int|
            0 <= i < j < viewpoint_recordings(run_rates, viewpoint, rate, passes).len()
                ==> viewpoint_recordings(run_rates, viewpoint, rate, passes)[i].pass
                < viewpoint_recordings(run_rates, viewpoint, rate, passes)[j].pass,
        forall|pass: int|
            0 <= pass < passes && run_rates[pass] == rate ==> viewpoint_recordings(
                run_rates,
                viewpoint,
                rate,
                passes,
            ).contains(PassRecording { viewpoint, pass: pass as usize }),
    decreases passes,
{
    if passes > 0 {
        let before = viewpoint_recordings(run_rates, viewpoint, rate, (passes - 1) as nat);
        let now = viewpoint_recordings(run_rates, viewpoint, rate, passes);
        lemma_viewpoint_recordings(run_rates, viewpoint, rate, (passes - 1) as nat);
        assert forall|pass: int| 0 <= pass < passes && run_rates[pass] == rate implies now.contains(
            PassRecording { viewpoint, pass: pass as usize },
        ) by {
            let wanted = PassRecording { viewpoint, pass: pass as usize };
            if pass < passes - 1 {
                assert(before.contains(wanted));
                let i = choose|i: int| 0 <= i < before.len() && before[i] == wanted;
                assert(now[i] == wanted);
            } else {
                assert(now[now.len() - 1] == wanted);
            }
        }
    }
}

/// Every recording for a shadow-casting light is for one of the first
/// `casters` lights.
pub proof fn lemma_shadow_recordings(run_rates: Seq<RenderPassRunRate>, casters: nat)
    requires
        run_rates.len() <= usize::MAX,
        casters <= usize::MAX,
    ensures
        forall|i: int|
            0 <= i < shadow_recordings(run_rates, casters).len() ==> {
                let recording = #[trigger] shadow_recordings(run_rates, casters)[i];
                &&& recording.viewpoint matches Viewpoint::ShadowCaster(light)
                &&& light < casters
                &&& recording.pass < run_rates.len()
                &&& run_rates[recording.pass as int] == RenderPassRunRate::PerShadow
            },
    decreases casters,
{
    if casters > 0 {
        lemma_shadow_recordings(run_rates, (casters - 1) as nat);
        lemma_viewpoint_recordings(
            run_rates,
            Viewpoint::ShadowCaster((casters - 1) as usize),
            RenderPassRunRate::PerShadow,
            run_rates.len(),
        );
    }
}

/// In a frame's schedule every recording for a shadow-casting light comes
/// before every recording for the camera, and the camera records exactly the
/// passes that run once.
pub proof fn lemma_shadows_before_camera(run_rates: Seq<RenderPassRunRate>, casters: nat)
    requires
        run_rates.len() <= usize::MAX,
        casters <= usize::MAX,
    ensures
        forall|i: int, j: int|
            0 <= i < j < scheduled_recordings(run_rates, casters).len() && scheduled_recordings(
                run_rates,
                casters,
            )[i].viewpoint == Viewpoint::Camera ==> scheduled_recordings(
                run_rates,
                casters,
            )[j].viewpoint == Viewpoint::Camera,
        forall|i: int|
            0 <= i < scheduled_recordings(run_rates, casters).len() ==> {
                let recording = #[trigger] scheduled_recordings(run_rates, casters)[i];
                &&& recording.pass < run_rates.len()
                &&& run_rates[recording.pass as int] == (match recording.viewpoint {
                    Viewpoint::Camera => RenderPassRunRate::Once,
                    Viewpoint::ShadowCaster(_) => RenderPassRunRate::PerShadow,
                })
            },
{
    lemma_shadow_recordings(run_rates, casters);
    lemma_viewpoint_recordings(
        run_rates,
        Viewpoint::Camera,
        RenderPassRunRate::Once,
        run_rates.len(),
    );
}

/// Without a shadow-casting light the schedule is the camera's passes alone.
pub proof fn lemma_no_shadow_casters(run_rates: Seq<RenderPassRunRate>)
    ensures
        scheduled_recordings(run_rates, 0) == viewpoint_recordings(
            run_rates,
            Viewpoint::Camera,
            RenderPassRunRate::Once,
            run_rates.len(),
        ),
{
    assert(scheduled_recordings(run_rates, 0) =~= viewpoint_recordings(
        run_rates,
        Viewpoint::Camera,
        RenderPassRunRate::Once,
        run_rates.len(),
    ));
}

fn record_viewpoint(
    run_rates: &Vec<RenderPassRunRate>,
    viewpoint: Viewpoint,
    rate: RenderPassRunRate,
    recordings: &mut Vec<PassRecording>,
)
    ensures
        final(recordings)@ == old(recordings)@ + viewpoint_recordings(
            run_rates@,
            viewpoint,
            rate,
            run_rates@.len(),
        ),
{
    let mut pass: usize = 0;
    assert(recordings@ + Seq::<PassRecording>::empty() =~= recordings@);
    while pass < run_rates.len()
        invariant
            0 <= pass <= run_rates@.len(),
            recordings@ == old(recordings)@ + viewpoint_recordings(
                run_rates@,
                viewpoint,
                rate,
                pass as nat,
            ),
        decreases run_rates@.len() - pass,
    {
        let ghost before = viewpoint_recordings(run_rates@, viewpoint, rate, pass as nat);
        if run_rates[pass] == rate {
            recordings.push(PassRecording { viewpoint, pass });
            assert((old(recordings)@ + before).push(PassRecording { viewpoint, pass }) =~= old(recordings)@ + before.push(PassRecording { viewpoint, pass }));
        }
        pass = pass + 1;
    }
}

/// The recording tasks of a frame, in the order in which they are handed to
/// the workers: for every shadow-casting light in turn its per-shadow
/// passes, then for the camera the passes that run once.
pub fn schedule_passes(run_rates: &Vec<RenderPassRunRate>, shadow_casters: usize) -> (recordings:
    Vec<PassRecording>)
    ensures
        recordings@ == scheduled_recordings(run_rates@, shadow_casters as nat),
{
    let mut recordings: Vec<PassRecording> = Vec::new();
    let mut light: usize = 0;
    while light < shadow_casters
        invariant
            0 <= light <= shadow_casters,
            recordings@ == shadow_recordings(run_rates@, light as nat),
        decreases shadow_casters - light,
    {
        record_viewpoint(
            run_rates,
            Viewpoint::ShadowCaster(light),
            RenderPassRunRate::PerShadow,
            &mut recordings,
        );
        light = light + 1;
    }
    record_viewpoint(run_rates, Viewpoint::Camera, RenderPassRunRate::Once, &mut recordings);
    recordings
}

/// The command buffers of a frame in submission order: first the shared
/// encoder's, then one for every recording in schedule order.
pub fn submission_order(recordings: usize) -> (order: Vec<CommandSource>)
    requires
        recordings < usize::MAX,
    ensures
        order@ == submission(recordings as nat),
{
    let mut order: Vec<CommandSource> = Vec::new();
    order.push(CommandSource::SharedEncoder);
    let mut task: usize = 0;
    while task < recordings
        invariant
            0 <= task <= recordings,
            order@.len() == task + 1,
            forall|i: int| 0 <= i < order@.len() ==> #[trigger] order@[i] == submission(recordings as nat)[i],
        decreases recordings - task,
    {
        order.push(CommandSource::Recording(task));
        task = task + 1;
    }
    assert(order@ =~= submission(recordings as nat));
    order
}

} // verus!
