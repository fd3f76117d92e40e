//! Render lists that need exclusive access while they record.

use crate::renderer::list::{RenderListCreationRecorder, RenderListRecorder, RoutineFunction};
use vstd::prelude::*;

verus! {

/// A render list whose recording changes the list itself. A caller that
/// shares one between threads guards it with a lock of its choice.
pub trait UnsynchronizedRenderList: Send {
    /// The functions of the routines that the list declares.
    type Routine: RoutineFunction;

    /// Declares the transient resources of the list.
    fn init(&mut self, recorder: &mut RenderListCreationRecorder<'_>)
        requires
            old(recorder).wf(),
        ensures
            final(recorder).wf(),
    ;

    /// Declares the routines of the list.
    fn render(&mut self, recorder: &mut RenderListRecorder<'_, '_, Self::Routine>)
        requires
            old(recorder).wf(),
        ensures
            final(recorder).wf(),
    ;
}

} // verus!
