//! One frame: the draws it issues, and what the control loop does with its
//! outcome.
use vstd::prelude::*;

use crate::registry::ComponentRegistry;

verus! {

/// Vertices in the quad of every component.
pub const QUAD_VERTEX_COUNT: u32 = 6;

/// Why the next presentable surface image could not be had.
#[derive(Clone, Copy, Debug, PartialEq, Eq, Structural)]
pub enum FrameError {
    /// Acquiring took too long.
    Timeout,
    /// The surface changed and must be configured again.
    Outdated,
    /// The surface was lost and must be configured again.
    Lost,
    /// No memory is left to present with.
    OutOfMemory,
}

/// What the control loop does after a frame.
#[derive(Clone, Copy, Debug, PartialEq, Eq, Structural)]
pub enum LoopAction {
    /// Carry on with the next tick.
    Continue,
    /// Configure the surface again at the current size, and retry next tick.
    Reconfigure,
    /// Stop the render loop and the process.
    Exit,
    /// Tell the user, then carry on.
    Report,
}

/// The loop's reaction to the outcome of one frame.
pub fn action_after_frame(result: Result<(), FrameError>) -> (r: LoopAction)
    ensures
        result is Ok ==> r == LoopAction::Continue,
        result == Err::<(), FrameError>(FrameError::Lost) ==> r == LoopAction::Reconfigure,
        result == Err::<(), FrameError>(FrameError::OutOfMemory) ==> r == LoopAction::Exit,
        result == Err::<(), FrameError>(FrameError::Timeout) ==> r == LoopAction::Report,
        result == Err::<(), FrameError>(FrameError::Outdated) ==> r == LoopAction::Report,
{
    match result {
        Ok(()) => LoopAction::Continue,
        Err(FrameError::Lost) => LoopAction::Reconfigure,
        Err(FrameError::OutOfMemory) => LoopAction::Exit,
        Err(_) => LoopAction::Report,
    }
}

/// One draw call: the component in registry slot `slot`, with the vertices
/// `first_vertex .. first_vertex + vertex_count` of its buffer.
#[derive(Clone, Copy, Debug, PartialEq, Eq, Structural)]
pub struct DrawCall {
    pub slot: usize,
    pub first_vertex: u32,
    pub vertex_count: u32,
}

/// The draw that a frame issues for the component in `slot`.
pub open spec fn draw_of(slot: int) -> DrawCall {
    DrawCall { slot: slot as usize, first_vertex: 0, vertex_count: QUAD_VERTEX_COUNT }
}

/// The draws of one frame, after the clear: one per component of the registry,
/// covering its six vertices. An empty registry gives none.
pub fn frame_draws<C>(registry: &ComponentRegistry<C>) -> (r: Vec<DrawCall>)
    ensures
        r@.len() == registry@.len(),
        forall|i: int| 0 <= i < r@.len() ==> #[trigger] r@[i] == draw_of(i),
{
    let n = registry.len();
    let mut draws: Vec<DrawCall> = Vec::new();
    let mut i: usize = 0;
    while i < n
        invariant
            i <= n,
            n == registry@.len(),
            draws@.len() == i,
            forall|k: int| 0 <= k < i ==> #[trigger] draws@[k] == draw_of(k),
        decreases n - i,
    {
        draws.push(DrawCall { slot: i, first_vertex: 0, vertex_count: QUAD_VERTEX_COUNT });
        i = i + 1;
    }
    draws
}

} // verus!
