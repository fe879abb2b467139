//! Per-frame pass sequencing.
//!
//! Each frame the demo renders in a fixed order: clear the geometry buffer
//! and draw the terrain into it; then either blit one intermediate target to
//! the window (debugging), or accumulate the instanced light and emitter
//! passes into the result buffer and blit that. The plan is computed here as
//! data; executing it against the GPU is the renderer's job.

use crate::lights::NUM_LIGHTS;
use crate::view::DebugBuffer;
use vstd::prelude::*;

verus! {

/// A render target a command draws into or clears.
#[derive(Clone, Copy, Debug, PartialEq, Eq, Structural)]
pub enum Target {
    /// The geometry buffer.
    Geometry,
    /// The result buffer.
    Result,
    /// The window's own frame.
    Window,
}

/// What the blit pass samples from.
#[derive(Clone, Copy, Debug, PartialEq, Eq, Structural)]
pub enum BlitSource {
    /// One of the geometry buffer's targets, shown for debugging.
    Debug(DebugBuffer),
    /// The finished result buffer.
    Result,
}

/// One step of a frame.
#[derive(Clone, Copy, Debug, PartialEq, Eq, Structural)]
pub enum RenderCommand {
    /// Clear a target's color planes and, if `depth` is set, its depth plane.
    Clear { target: Target, depth: bool },
    /// Draw the terrain into the geometry buffer.
    DrawTerrain,
    /// Draw the light cubes, once per light, into the result buffer.
    DrawLights { instances: usize },
    /// Draw the emitter cubes, once per light, into the result buffer.
    DrawEmitters { instances: usize },
    /// Draw a full-screen quad into the window sampling `source`.
    Blit { source: BlitSource },
}

/// The commands of one frame showing `shown` (`None` is the lit result).
pub open spec fn frame_plan_spec(shown: Option<DebugBuffer>) -> Seq<RenderCommand> {
    let geometry_pass = seq![
        RenderCommand::Clear { target: Target::Geometry, depth: true },
        RenderCommand::DrawTerrain,
    ];
    match shown {
        Some(buf) => geometry_pass + seq![
            RenderCommand::Clear { target: Target::Window, depth: true },
            RenderCommand::Blit { source: BlitSource::Debug(buf) },
        ],
        None => geometry_pass + seq![
            RenderCommand::Clear { target: Target::Result, depth: false },
            RenderCommand::DrawLights { instances: NUM_LIGHTS },
            RenderCommand::DrawEmitters { instances: NUM_LIGHTS },
            RenderCommand::Clear { target: Target::Window, depth: true },
            RenderCommand::Blit { source: BlitSource::Result },
        ],
    }
}

/// Computes the frame's command list for the current display selection.
pub fn frame_plan(shown: Option<DebugBuffer>) -> (plan: Vec<RenderCommand>)
    ensures
        plan@ =~= frame_plan_spec(shown),
{
    let mut plan: Vec<RenderCommand> = Vec::new();
    plan.push(RenderCommand::Clear { target: Target::Geometry, depth: true });
    plan.push(RenderCommand::DrawTerrain);
    match shown {
        Some(buf) => {
            plan.push(RenderCommand::Clear { target: Target::Window, depth: true });
            plan.push(RenderCommand::Blit { source: BlitSource::Debug(buf) });
        },
        None => {
            plan.push(RenderCommand::Clear { target: Target::Result, depth: false });
            plan.push(RenderCommand::DrawLights { instances: NUM_LIGHTS });
            plan.push(RenderCommand::DrawEmitters { instances: NUM_LIGHTS });
            plan.push(RenderCommand::Clear { target: Target::Window, depth: true });
            plan.push(RenderCommand::Blit { source: BlitSource::Result });
        },
    }
    plan
}

/// Every frame starts by clearing the geometry buffer with its depth plane,
/// draws the terrain right after, and ends with a blit to the window; the
/// lighting passes run exactly when the result is shown.
pub proof fn lemma_frame_plan_shape(shown: Option<DebugBuffer>)
    ensures
        frame_plan_spec(shown)[0] == (RenderCommand::Clear { target: Target::Geometry, depth: true }),
        frame_plan_spec(shown)[1] == RenderCommand::DrawTerrain,
        frame_plan_spec(shown).last() == (RenderCommand::Blit {
            source: match shown {
                Some(buf) => BlitSource::Debug(buf),
                None => BlitSource::Result,
            },
        }),
        shown is None <==> frame_plan_spec(shown).contains(
            RenderCommand::DrawLights { instances: NUM_LIGHTS },
        ),
{
    let plan = frame_plan_spec(shown);
    match shown {
        Some(buf) => {
            assert(plan.len() == 4);
            assert(forall|k: int| 0 <= k < plan.len() ==> !(plan[k] is DrawLights));
        },
        None => {
            assert(plan.len() == 7);
            assert(plan[3] == (RenderCommand::DrawLights { instances: NUM_LIGHTS }));
        },
    }
}

} // verus!
